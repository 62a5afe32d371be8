use flappy::game::{FrameInput, Game, GameSound, GameState, RETRY_CLOCK, START_CLOCK};

const SW: i64 = 360_000_000;
const SH: i64 = 640_000_000;

fn game() -> Game {
    Game::new(SW, SH, 112_000_000, 34_000_000, 52_000_000, 24_000_000, 24_000_000)
}

fn frame(dt: i64, pressed: bool, down: bool) -> FrameInput {
    FrameInput { dt, button_pressed: pressed, button_down: down }
}

#[test]
fn new_game_starts_in_menu() {
    let g = game();
    assert_eq!(g.state, GameState::Menu);
    assert_eq!(g.clock, START_CLOCK);
    assert!(g.pipes.is_empty());
    assert_eq!(g.score.get_score(), 0);
    assert_eq!(g.scroll_speed, 100_000);
    assert!(!g.bird.is_touching_ground());
    assert_eq!(g.bird.screen_height, SH - 112_000_000);
}

#[test]
fn menu_press_starts_play_and_background_scrolls() {
    let mut g = game();
    let s = g.step_with(frame(16, false, true), SH / 4);
    assert_eq!(g.state, GameState::Menu);
    assert!(s.is_empty());
    assert_eq!(g.background.base_tiles()[0].x, -1_600_000);
    let s = g.step_with(frame(16, true, true), SH / 4);
    assert_eq!(g.state, GameState::Game);
    assert!(s.is_empty());
}

#[test]
fn spawn_at_interval_raises_speed() {
    let mut g = game();
    g.state = GameState::Game;
    g.clock = 4990;
    g.score.set_score(2);
    let s = g.step_with(frame(10, false, false), 264_000_000);
    assert_eq!(g.scroll_speed, 101_000);
    assert_eq!(g.background.speed, 101_000);
    assert_eq!(g.pipes.len(), 1);
    assert_eq!(g.clock, 0);
    assert_eq!(g.pipes[0].speed, 101_000);
    assert_eq!(g.state, GameState::Game);
    assert!(s.is_empty());
}

#[test]
fn no_spawn_below_interval() {
    let mut g = game();
    g.state = GameState::Game;
    g.clock = 0;
    g.step_with(frame(16, false, false), 264_000_000);
    assert_eq!(g.clock, 16);
    assert!(g.pipes.is_empty());
}

#[test]
fn game_over_retry_only_once() {
    let mut g = game();
    g.state = GameState::Game;
    g.step_with(frame(16, false, false), 264_000_000);
    assert_eq!(g.pipes.len(), 1);
    g.state = GameState::GameOver;
    g.score.set_score(3);
    g.step_with(frame(16, false, true), 264_000_000);
    assert_eq!(g.state, GameState::Menu);
    assert!(g.pipes.is_empty());
    assert_eq!(g.score.get_score(), 0);
    assert_eq!(g.clock, RETRY_CLOCK);
    assert_eq!(g.bird, g.initial_bird);
    g.step_with(frame(16, false, true), 264_000_000);
    assert_eq!(g.state, GameState::Menu);
}

#[test]
fn game_over_waits_for_button() {
    let mut g = game();
    g.state = GameState::GameOver;
    g.score.set_score(3);
    g.step_with(frame(16, false, false), 264_000_000);
    assert_eq!(g.state, GameState::GameOver);
    assert_eq!(g.score.get_score(), 3);
}

#[test]
fn jump_is_edge_triggered() {
    let mut g = game();
    g.state = GameState::Game;
    g.clock = 0;
    let s = g.step_with(frame(16, true, true), 264_000_000);
    assert_eq!(s, vec![GameSound::Wing]);
    assert!(g.pressed);
    let s = g.step_with(frame(16, true, true), 264_000_000);
    assert!(s.is_empty());
    assert!(!g.pressed);
}

#[test]
fn collision_ends_play() {
    let mut g = game();
    g.state = GameState::Game;
    g.clock = 0;
    let b = g.bird.get_bounding_rect();
    // a pair whose upper obstacle covers the flyer
    let mut p = flappy::pipe::Pipe::with_gap_center(
        264_000_000, 52_000_000, 422_400_000, 72_000_000, 100_000, g.play_height, SW,
    );
    p.upper_pipe.x = b.x;
    p.lower_pipe.x = b.x;
    g.pipes.push(p);
    let s = g.step_with(frame(16, false, false), 264_000_000);
    assert_eq!(g.state, GameState::GameOver);
    assert_eq!(s, vec![GameSound::Hit, GameSound::Die]);
}

#[test]
fn passed_pipe_scores_a_point() {
    let mut g = game();
    g.state = GameState::Game;
    g.clock = 0;
    let mut p = flappy::pipe::Pipe::with_gap_center(
        264_000_000, 52_000_000, 422_400_000, 72_000_000, 100_000, g.play_height, SW,
    );
    p.upper_pipe.x = -52_000_000 + 1_000_000;
    p.lower_pipe.x = -52_000_000 + 1_000_000;
    g.pipes.push(p);
    let s = g.step_with(frame(16, false, false), 264_000_000);
    assert!(g.pipes.is_empty());
    assert_eq!(g.score.get_score(), 1);
    assert_eq!(s, vec![GameSound::Point]);
    assert_eq!(g.state, GameState::Game);
}

#[test]
fn random_step_spawns_pipe_in_range() {
    let mut g = game();
    g.state = GameState::Game;
    g.step(frame(16, false, false));
    assert_eq!(g.pipes.len(), 1);
    let p = g.pipes[0];
    let mid2 = p.upper_pipe.y + p.upper_pipe.h + p.lower_pipe.y;
    assert!(2 * g.play_height <= 5 * mid2 && 5 * mid2 <= 8 * g.play_height);
}

#[test]
fn spawn_clock_stops_on_ground() {
    let mut g = game();
    g.state = GameState::Game;
    g.clock = 100;
    g.bird.touching_ground = true;
    g.step_with(frame(16, false, false), 264_000_000);
    assert_eq!(g.clock, 100);
}
