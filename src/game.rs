use vstd::prelude::*;

use crate::background::{Background, ScrollLayer};
use crate::bird::{Bird, FlapSound};
use crate::geometry::{overlaps, Rect, MAX_DT, MAX_EXTENT, SPEED_LIMIT};
use crate::pipe::{max_gap_center, min_gap_center, random_range, Pipe, MIN_PLAY_HEIGHT};
use crate::score::Score;

verus! {

/// Time between two obstacle spawns, in milliseconds.
pub const SPAWN_INTERVAL: i64 = 5000;

/// Spawn clock at the start of the first game: an obstacle comes at once.
pub const START_CLOCK: i64 = 5000;

/// Spawn clock after a retry.
pub const RETRY_CLOCK: i64 = 3000;

/// Speed gained at each spawn for each point scored, in milli-pixels per second.
pub const SPEED_STEP: i64 = 500;

/// Scroll speed at the start, in milli-pixels per second.
pub const BASE_SPEED: i64 = 100_000;

/// Upward velocity of a jump, in milli-pixels per second.
pub const JUMP_VELOCITY: i64 = 300_000;

/// The mode of the game.
#[derive(Clone, Copy, Debug, PartialEq, Eq, Structural)]
pub enum GameState {
    Game,
    GameOver,
    Menu,
}

/// A sound that a frame asks the host to play.
#[derive(Clone, Copy, Debug, PartialEq, Eq, Structural)]
pub enum GameSound {
    Wing,
    Swoosh,
    Hit,
    Die,
    Point,
}

/// What the host reports for one frame: the time it took and the state of
/// the primary button (pressed this frame, and held down).
#[derive(Clone, Copy, Debug, PartialEq, Eq, Structural)]
pub struct FrameInput {
    pub dt: i64,
    pub button_pressed: bool,
    pub button_down: bool,
}

/// The flyer's box overlaps one of the pair's obstacles.
pub open spec fn pipe_hits(p: Pipe, r: Rect) -> bool {
    overlaps(r, p.upper_pipe) || overlaps(r, p.lower_pipe)
}

/// A hit and a die sound for each pair, in order, that the box overlaps.
pub open spec fn collision_sounds(ps: Seq<Pipe>, r: Rect) -> Seq<GameSound>
    decreases ps.len(),
{
    if ps.len() == 0 {
        Seq::empty()
    } else {
        collision_sounds(ps.drop_last(), r) + (if pipe_hits(ps.last(), r) {
            seq![GameSound::Hit, GameSound::Die]
        } else {
            Seq::empty()
        })
    }
}

/// Every pair moved for `dt` milliseconds.
pub open spec fn moved_all(ps: Seq<Pipe>, dt: int) -> Seq<Pipe> {
    ps.map_values(|p: Pipe| p.moved(dt))
}

/// The pairs that can still be seen, in order.
pub open spec fn visible_pipes(ps: Seq<Pipe>) -> Seq<Pipe> {
    ps.filter(|p: Pipe| !p.invisible())
}

/// `n` point sounds.
pub open spec fn point_sounds(n: nat) -> Seq<GameSound> {
    Seq::new(n, |i: int| GameSound::Point)
}

/// Scroll speed after a spawn: each point scored adds a step, up to the
/// largest speed that the game represents.
pub open spec fn next_speed(speed: int, score: int) -> int {
    if speed + SPEED_STEP * score > SPEED_LIMIT {
        SPEED_LIMIT as int
    } else {
        speed + SPEED_STEP * score
    }
}

/// The game sound of a jump's sound.
pub open spec fn flap_game_sound(s: FlapSound) -> GameSound {
    match s {
        FlapSound::Wing => GameSound::Wing,
        FlapSound::Swoosh => GameSound::Swoosh,
    }
}

/// The game controller: it owns the flyer, the obstacle pairs, the score
/// and the background, and advances them one frame at a time.
#[derive(Clone, Debug)]
pub struct Game {
    pub state: GameState,
    pub bird: Bird,
    pub initial_bird: Bird,
    pub background: Background,
    pub pipes: Vec<Pipe>,
    pub clock: i64,
    pub pressed: bool,
    pub scroll_speed: i64,
    pub score: Score,
    pub screen_width: i64,
    pub play_height: i64,
    pub pipe_width: i64,
}

impl Game {
    pub open spec fn wf(self) -> bool {
        &&& self.bird.wf()
        &&& self.initial_bird.wf()
        &&& self.background.wf()
        &&& self.score.wf()
        &&& self.background.speed == self.scroll_speed
        &&& 0 <= self.scroll_speed <= SPEED_LIMIT
        &&& 0 <= self.clock <= SPAWN_INTERVAL
        &&& 0 < self.screen_width <= MAX_EXTENT
        &&& MIN_PLAY_HEIGHT <= self.play_height <= MAX_EXTENT
        &&& 0 <= self.pipe_width <= MAX_EXTENT
        &&& 0 <= self.initial_bird.bounding_rect.h * 3 <= MAX_EXTENT
        &&& forall|i: int|
            0 <= i < self.pipes@.len() ==> (#[trigger] self.pipes@[i]).wf()
                && !self.pipes@[i].invisible()
    }

    /// The pair spawned with its gap centered at `center`.
    pub open spec fn spawned_pipe(self, center: int, speed: int) -> Pipe {
        Pipe::centered(
            center,
            self.pipe_width as int,
            self.play_height * 4 / 5,
            self.initial_bird.bounding_rect.h * 3,
            speed,
            self.play_height as int,
            self.screen_width as int,
        )
    }

    /// The spawn clock after `dt` milliseconds of play: it runs only while the
    /// flyer is off the ground.
    pub open spec fn clock_after(self, dt: int) -> int {
        self.clock + if self.bird.touching_ground {
            0
        } else {
            dt
        }
    }

    /// A frame of play of `dt` milliseconds spawns a pair.
    pub open spec fn spawns(self, dt: int) -> bool {
        self.state == GameState::Game && self.clock_after(dt) >= SPAWN_INTERVAL
    }

    /// The parts of the game that only a frame of play changes are equal.
    pub open spec fn same_play(self, other: Game) -> bool {
        &&& self.bird == other.bird
        &&& self.pipes@ == other.pipes@
        &&& self.clock == other.clock
        &&& self.score == other.score
    }

    /// The settings fixed when the game was made are equal.
    pub open spec fn same_setup(self, other: Game) -> bool {
        &&& self.initial_bird == other.initial_bird
        &&& self.screen_width == other.screen_width
        &&& self.play_height == other.play_height
        &&& self.pipe_width == other.pipe_width
    }

    /// `after` and `sounds` are what one frame with `input` makes of
    /// `before`, when a pair spawned in it has its gap centered at `center`.
    pub open spec fn stepped(
        before: Game,
        after: Game,
        input: FrameInput,
        center: int,
        sounds: Seq<GameSound>,
    ) -> bool {
        let dt = input.dt as int;
        &&& after.wf()
        &&& after.same_setup(before)
        &&& match before.state {
            GameState::Menu => {
                &&& after.state == (if input.button_pressed {
                    GameState::Game
                } else {
                    GameState::Menu
                })
                &&& after.same_play(before)
                &&& after.pressed == before.pressed
                &&& after.scroll_speed == before.scroll_speed
                &&& after.background.advanced_from(before.background, dt)
                &&& sounds.len() == 0
            },
            GameState::GameOver => {
                &&& if input.button_down {
                    &&& after.state == GameState::Menu
                    &&& after.pipes@.len() == 0
                    &&& after.clock == RETRY_CLOCK
                    &&& after.score == (Score { score: 0, ..before.score })
                    &&& after.bird == before.initial_bird
                } else {
                    &&& after.state == GameState::GameOver
                    &&& after.same_play(before)
                }
                &&& after.pressed == before.pressed
                &&& after.scroll_speed == before.scroll_speed
                &&& after.background.advanced_from(before.background, dt)
                &&& sounds.len() == 0
            },
            GameState::Game => {
                let c1 = before.clock_after(dt);
                let spawn = c1 >= SPAWN_INTERVAL;
                let speed = if spawn {
                    next_speed(before.scroll_speed as int, before.score.score as int)
                } else {
                    before.scroll_speed as int
                };
                let ps = if spawn {
                    before.pipes@.push(before.spawned_pipe(center, speed))
                } else {
                    before.pipes@
                };
                let jumped = input.button_pressed && !before.pressed;
                let b0 = if jumped {
                    before.bird.flapped()
                } else {
                    before.bird
                };
                let b1 = b0.fallen(dt);
                let moved = if b1.touching_ground {
                    ps
                } else {
                    moved_all(ps, dt)
                };
                let hits = if b1.touching_ground {
                    Seq::empty()
                } else {
                    collision_sounds(moved, b1.bounding_rect)
                };
                let kept = visible_pipes(moved);
                let removed = (moved.len() - kept.len()) as nat;
                let jump_sound = if jumped {
                    seq![flap_game_sound(Bird::flap_sound(before.bird.velocity_y as int))]
                } else {
                    Seq::empty()
                };
                let bg = ScrollLayer { speed: speed as i64, ..before.background.backgrounds };
                let base = ScrollLayer { speed: speed as i64, ..before.background.bases };
                &&& after.clock == (if spawn {
                    0
                } else {
                    c1
                })
                &&& after.scroll_speed == speed
                &&& after.pressed == jumped
                &&& after.bird == b1
                &&& after.pipes@ == kept
                &&& after.score == (Score { score: (before.score.score + removed) as usize, ..before.score })
                &&& after.state == (if hits.len() > 0 {
                    GameState::GameOver
                } else {
                    GameState::Game
                })
                &&& sounds == jump_sound + hits + point_sounds(removed)
                &&& if b1.touching_ground {
                    &&& after.background.backgrounds.tiles@ == bg.tiles@
                    &&& after.background.bases.tiles@ == base.tiles@
                } else {
                    &&& after.background.backgrounds.advanced_from(bg, dt)
                    &&& after.background.bases.advanced_from(base, dt)
                }
            },
        }
    }
}

impl Game {
    /// A game in the menu on a screen `screen_width` by `screen_height`
    /// whose bottom `base_height` is ground. The flyer, `bird_width` wide and
    /// a tenth of the screen tall, rests at a tenth of the width and a fifth
    /// of the height. Pairs are `pipe_width` wide; score digits are drawn
    /// `digit_draw_width` wide and advance by `digit_width`.
    pub fn new(
        screen_width: i64,
        screen_height: i64,
        base_height: i64,
        bird_width: i64,
        pipe_width: i64,
        digit_width: i64,
        digit_draw_width: i64,
    ) -> (r: Game)
        requires
            0 < screen_width <= MAX_EXTENT / 4,
            0 <= screen_height <= MAX_EXTENT / 4,
            0 <= base_height <= MAX_EXTENT / 4,
            screen_height / 10 <= screen_height - base_height,
            MIN_PLAY_HEIGHT <= screen_height - base_height,
            0 <= bird_width <= MAX_EXTENT,
            0 <= pipe_width <= MAX_EXTENT,
            0 <= digit_width <= MAX_EXTENT,
            0 <= digit_draw_width <= MAX_EXTENT,
        ensures
            r.wf(),
            r.state == GameState::Menu,
            r.pipes@.len() == 0,
            r.clock == START_CLOCK,
            r.scroll_speed == BASE_SPEED,
            !r.pressed,
            r.score.score == 0,
            r.bird == r.initial_bird,
            r.bird.bounding_rect == (Rect {
                x: (screen_width / 10) as i64,
                y: (screen_height / 5) as i64,
                w: bird_width,
                h: (screen_height / 10) as i64,
            }),
            r.bird.velocity_y == 0,
            !r.bird.touching_ground,
            r.bird.screen_height == screen_height - base_height,
            r.bird.jump_velocity == JUMP_VELOCITY,
            r.play_height == screen_height - base_height,
            r.screen_width == screen_width,
            r.pipe_width == pipe_width,
            r.background.backgrounds.tiles@[0] == (Rect {
                x: 0,
                y: 0,
                w: screen_width,
                h: screen_height,
            }),
            r.background.bases.tiles@[0] == (Rect {
                x: 0,
                y: (screen_height - base_height) as i64,
                w: screen_width,
                h: base_height,
            }),
            r.score == (Score {
                score: 0,
                digit_width,
                pos_y: ((screen_height - base_height) / 10) as i64,
                gap: 0,
                height: (screen_height / 10 / 2) as i64,
                width: digit_draw_width,
            }),
    {
        let play_height: i64 = screen_height - base_height;
        let bird = Bird::new(
            screen_width / 10,
            screen_height / 5,
            bird_width,
            screen_height / 10,
            JUMP_VELOCITY,
            play_height,
        );
        let score = Score::new(play_height / 10, 0, screen_height / 10 / 2, digit_draw_width, digit_width);
        Game {
            state: GameState::Menu,
            bird,
            initial_bird: bird,
            background: Background::new(screen_width, screen_height, base_height, BASE_SPEED),
            pipes: Vec::new(),
            clock: START_CLOCK,
            pressed: false,
            scroll_speed: BASE_SPEED,
            score,
            screen_width,
            play_height,
            pipe_width,
        }
    }

    /// True when a frame of `dt` milliseconds spawns a pair.
    pub fn will_spawn(&self, dt: i64) -> (r: bool)
        requires
            self.wf(),
            0 <= dt <= MAX_DT,
        ensures
            r == self.spawns(dt as int),
    {
        let run: i64 = if self.bird.touching_ground {
            0
        } else {
            dt
        };
        self.state == GameState::Game && self.clock + run >= SPAWN_INTERVAL
    }

    /// Advances the game by one frame, spawning any new pair with its gap
    /// centered at `center`, and returns the sounds to play, in order.
    #[verifier::rlimit(60)]
    pub fn step_with(&mut self, input: FrameInput, center: i64) -> (sounds: Vec<GameSound>)
        requires
            old(self).wf(),
            0 <= input.dt <= MAX_DT,
            min_gap_center(
                old(self).play_height as int,
                old(self).initial_bird.bounding_rect.h * 3,
            ) <= center <= max_gap_center(
                old(self).play_height as int,
            ),
            old(self).score.score + old(self).pipes@.len() + 1 <= usize::MAX,
        ensures
            Game::stepped(*old(self), *final(self), input, center as int, sounds@),
    {
        let dt = input.dt;
        match self.state {
            GameState::Menu => {
                self.background.update(dt);
                if input.button_pressed {
                    self.state = GameState::Game;
                }
                Vec::new()
            },
            GameState::GameOver => {
                self.background.update(dt);
                if input.button_down {
                    self.pipes = Vec::new();
                    self.clock = RETRY_CLOCK;
                    self.score.set_score(0);
                    self.bird = self.initial_bird;
                    self.state = GameState::Menu;
                }
                Vec::new()
            },
            GameState::Game => {
                let mut sounds: Vec<GameSound> = Vec::new();
                if !self.bird.touching_ground {
                    self.clock = self.clock + dt;
                }
                if self.clock >= SPAWN_INTERVAL {
                    self.scroll_speed = next_scroll_speed(self.scroll_speed, self.score.score);
                    self.background.set_speed(self.scroll_speed);
                    let p = Pipe::with_gap_center(
                        center,
                        self.pipe_width,
                        self.play_height * 4 / 5,
                        self.initial_bird.bounding_rect.h * 3,
                        self.scroll_speed,
                        self.play_height,
                        self.screen_width,
                    );
                    self.pipes.push(p);
                    self.clock = 0;
                }
                if input.button_pressed && !self.pressed {
                    self.pressed = true;
                    let s = self.bird.flap();
                    sounds.push(
                        match s {
                            FlapSound::Wing => GameSound::Wing,
                            FlapSound::Swoosh => GameSound::Swoosh,
                        },
                    );
                } else {
                    self.pressed = false;
                }
                self.bird.update(dt);
                let ghost ps = self.pipes@;
                let ghost sounds0 = sounds@;
                if !self.bird.touching_ground {
                    self.background.update(dt);
                    let mut hits = advance_pipes(&mut self.pipes, dt, self.bird.bounding_rect);
                    if hits.len() > 0 {
                        self.state = GameState::GameOver;
                    }
                    sounds.append(&mut hits);
                }
                let ghost moved = self.pipes@;
                let kept = visible_only(&self.pipes);
                let removed: usize = self.pipes.len() - kept.len();
                self.pipes = kept;
                self.score.set_score(self.score.score + removed);
                push_points(&mut sounds, removed);
                proof {
                    assert(sounds@ =~= sounds0 + (if self.bird.touching_ground {
                        Seq::empty()
                    } else {
                        collision_sounds(moved, self.bird.bounding_rect)
                    }) + point_sounds(removed as nat));
                }
                sounds
            },
        }
    }

    /// Advances the game by one frame and returns the sounds to play, in
    /// order. A pair spawned in the frame has its gap centered at random
    /// between a fifth and four fifths of the play height.
    pub fn step(&mut self, input: FrameInput) -> (sounds: Vec<GameSound>)
        requires
            old(self).wf(),
            0 <= input.dt <= MAX_DT,
            old(self).score.score + old(self).pipes@.len() + 1 <= usize::MAX,
        ensures
            exists|center: int|
                min_gap_center(
                old(self).play_height as int,
                old(self).initial_bird.bounding_rect.h * 3,
            ) <= center <= max_gap_center(
                    old(self).play_height as int,
                ) && #[trigger] Game::stepped(*old(self), *final(self), input, center, sounds@),
    {
        let gap: i64 = self.initial_bird.bounding_rect.h * 3;
        let low: i64 = (2 * self.play_height + 5 * (gap % 2) + 9) / 10;
        let center: i64 = if self.will_spawn(input.dt) {
            random_range(low, self.play_height * 4 / 5)
        } else {
            low
        };
        self.step_with(input, center)
    }
}

/// Moves every pair for `dt` milliseconds and returns the collision sounds
/// of the moved pairs against the box `r`.
fn advance_pipes(pipes: &mut Vec<Pipe>, dt: i64, r: Rect) -> (sounds: Vec<GameSound>)
    requires
        0 <= dt <= MAX_DT,
        r.wf(),
        forall|i: int|
            0 <= i < old(pipes)@.len() ==> (#[trigger] old(pipes)@[i]).wf()
                && !old(pipes)@[i].invisible(),
    ensures
        final(pipes)@ == moved_all(old(pipes)@, dt as int),
        sounds@ == collision_sounds(final(pipes)@, r),
        forall|i: int| 0 <= i < final(pipes)@.len() ==> (#[trigger] final(pipes)@[i]).wf(),
{
    let ghost ps = pipes@;
    let mut sounds: Vec<GameSound> = Vec::new();
    let mut i: usize = 0;
    while i < pipes.len()
        invariant
            0 <= i <= pipes@.len(),
            pipes@.len() == ps.len(),
            0 <= dt <= MAX_DT,
            r.wf(),
            forall|j: int| 0 <= j < ps.len() ==> (#[trigger] ps[j]).wf() && !ps[j].invisible(),
            forall|j: int| 0 <= j < i ==> #[trigger] pipes@[j] == ps[j].moved(dt as int),
            forall|j: int| i <= j < ps.len() ==> #[trigger] pipes@[j] == ps[j],
            forall|j: int| 0 <= j < i ==> (#[trigger] pipes@[j]).wf(),
            sounds@ == collision_sounds(moved_all(ps, dt as int).take(i as int), r),
        decreases ps.len() - i,
    {
        let mut p = pipes[i];
        assert(p.speed * dt <= SPEED_LIMIT * MAX_DT) by (nonlinear_arith)
            requires 0 <= p.speed <= SPEED_LIMIT, 0 <= dt <= MAX_DT;
        p.update(dt);
        pipes.set(i, p);
        let hit = r.intersects(&p.upper_pipe) || r.intersects(&p.lower_pipe);
        if hit {
            sounds.push(GameSound::Hit);
            sounds.push(GameSound::Die);
        }
        proof {
            let m = moved_all(ps, dt as int);
            assert(m.take(i + 1).drop_last() =~= m.take(i as int));
            assert(m.take(i + 1).last() == p);
            if hit {
                assert(sounds@ =~= collision_sounds(m.take(i as int), r) + seq![
                    GameSound::Hit,
                    GameSound::Die,
                ]);
            } else {
                assert(sounds@ =~= collision_sounds(m.take(i as int), r) + Seq::empty());
            }
        }
        i = i + 1;
    }
    proof {
        assert(pipes@ =~= moved_all(ps, dt as int));
        assert(moved_all(ps, dt as int).take(ps.len() as int) =~= moved_all(ps, dt as int));
    }
    sounds
}

/// The pairs that can still be seen, in order.
fn visible_only(pipes: &Vec<Pipe>) -> (kept: Vec<Pipe>)
    requires
        forall|i: int| 0 <= i < pipes@.len() ==> (#[trigger] pipes@[i]).wf(),
    ensures
        kept@ == visible_pipes(pipes@),
        kept@.len() <= pipes@.len(),
        forall|i: int|
            0 <= i < kept@.len() ==> (#[trigger] kept@[i]).wf() && !kept@[i].invisible(),
{
    let mut kept: Vec<Pipe> = Vec::new();
    let mut i: usize = 0;
    while i < pipes.len()
        invariant
            0 <= i <= pipes@.len(),
            forall|j: int| 0 <= j < pipes@.len() ==> (#[trigger] pipes@[j]).wf(),
            kept@ == visible_pipes(pipes@.take(i as int)),
            kept@.len() <= i,
            forall|j: int|
                0 <= j < kept@.len() ==> (#[trigger] kept@[j]).wf() && !kept@[j].invisible(),
        decreases pipes@.len() - i,
    {
        let p = pipes[i];
        proof {
            reveal(Seq::filter);
            assert(pipes@.take(i + 1).drop_last() =~= pipes@.take(i as int));
            assert(pipes@.take(i + 1).last() == p);
        }
        if !p.is_invisible() {
            kept.push(p);
        }
        i = i + 1;
    }
    proof {
        assert(pipes@.take(pipes@.len() as int) =~= pipes@);
    }
    kept
}

/// Appends `n` point sounds.
fn push_points(sounds: &mut Vec<GameSound>, n: usize)
    ensures
        final(sounds)@ == old(sounds)@ + point_sounds(n as nat),
{
    let ghost s0 = sounds@;
    let mut i: usize = 0;
    while i < n
        invariant
            0 <= i <= n,
            sounds@ == s0 + point_sounds(i as nat),
        decreases n - i,
    {
        sounds.push(GameSound::Point);
        i = i + 1;
        assert(sounds@ =~= s0 + point_sounds(i as nat));
    }
}

/// Scroll speed after a spawn with `score` points.
fn next_scroll_speed(speed: i64, score: usize) -> (r: i64)
    requires
        0 <= speed <= SPEED_LIMIT,
    ensures
        r == next_speed(speed as int, score as int),
        0 <= r <= SPEED_LIMIT,
{
    let cap: usize = (SPEED_LIMIT / SPEED_STEP) as usize;
    if score > cap {
        SPEED_LIMIT
    } else {
        let step: i64 = SPEED_STEP * (score as i64);
        if speed + step > SPEED_LIMIT {
            SPEED_LIMIT
        } else {
            speed + step
        }
    }
}

} // verus!
