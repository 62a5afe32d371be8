use vstd::prelude::*;

use vstd::arithmetic::div_mod::lemma_mod_multiples_basic;

use crate::geometry::{Rect, MAX_DT, MAX_EXTENT, SPEED_LIMIT};

verus! {

/// Number of tiles in a layer.
pub const TILE_COUNT: usize = 3;

/// A band of equal tiles laid edge to edge that scrolls left at `speed`
/// divided by `divisor` (1 for full speed, 2 for half speed).
/// A tile that leaves the screen on the left is taken off and a new one is
/// laid after the rightmost, so the band always reaches across the screen.
#[derive(Clone, Debug)]
pub struct ScrollLayer {
    pub tiles: Vec<Rect>,
    pub speed: i64,
    pub divisor: i64,
}

impl ScrollLayer {
    /// How far the layer moves in `dt` milliseconds: the distance at full
    /// speed divided by the divisor, exact whenever that is a whole unit.
    pub open spec fn shift(self, dt: int) -> int {
        (self.speed * dt) / (self.divisor as int)
    }

    pub open spec fn tile_width(self) -> int {
        self.tiles@[0].w as int
    }

    /// Each tile ends exactly where the next one begins.
    pub open spec fn gapless(self) -> bool {
        forall|i: int|
            0 <= i < self.tiles@.len() - 1 ==> self.tiles@[i + 1].x == (#[trigger] self.tiles@[i]).x
                + self.tiles@[i].w
    }

    /// The tiles, without a gap between them, span all of `[lo, hi)`.
    pub open spec fn covers(self, lo: int, hi: int) -> bool {
        let n = self.tiles@.len();
        &&& n > 0
        &&& self.gapless()
        &&& self.tiles@[0].x <= lo
        &&& hi <= self.tiles@[n - 1].x + self.tiles@[n - 1].w
    }

    pub open spec fn wf(self) -> bool {
        let t = self.tiles@;
        &&& t.len() == TILE_COUNT
        &&& 0 < t[0].w <= MAX_EXTENT
        &&& 0 <= t[0].h <= MAX_EXTENT
        &&& -MAX_EXTENT <= t[0].y <= MAX_EXTENT
        &&& forall|i: int|
            0 <= i < t.len() ==> (#[trigger] t[i]).w == t[0].w && t[i].h == t[0].h && t[i].y
                == t[0].y
        &&& self.gapless()
        &&& -t[0].w < t[0].x <= 0
        &&& 0 <= self.speed <= SPEED_LIMIT
        &&& 1 <= self.divisor <= 2
    }

    /// This layer is `before` advanced by `dt` milliseconds: tiles of the same
    /// size, the first moved left by its shift and then on by whole tiles
    /// until it is the one that holds `x = 0`.
    pub open spec fn advanced_from(self, before: ScrollLayer, dt: int) -> bool {
        &&& self.wf()
        &&& self.speed == before.speed
        &&& self.divisor == before.divisor
        &&& self.tiles@[0].w == before.tiles@[0].w
        &&& self.tiles@[0].h == before.tiles@[0].h
        &&& self.tiles@[0].y == before.tiles@[0].y
        &&& (self.tiles@[0].x - (before.tiles@[0].x - before.shift(dt))) % before.tile_width() == 0
    }

    /// A layer of tiles of size `w` by `h` at height `y`, the first at `x = 0`.
    pub fn new(y: i64, w: i64, h: i64, speed: i64, divisor: i64) -> (r: ScrollLayer)
        requires
            0 < w <= MAX_EXTENT,
            0 <= h <= MAX_EXTENT,
            -MAX_EXTENT <= y <= MAX_EXTENT,
            0 <= speed <= SPEED_LIMIT,
            1 <= divisor <= 2,
        ensures
            r.wf(),
            r.tiles@[0] == (Rect { x: 0, y, w, h }),
            r.speed == speed,
            r.divisor == divisor,
            r.covers(0, 2 * w),
    {
        let tiles = vec![
            Rect::new(0, y, w, h),
            Rect::new(w, y, w, h),
            Rect::new(2 * w, y, w, h),
        ];
        ScrollLayer { tiles, speed, divisor }
    }

    pub fn set_speed(&mut self, speed: i64)
        requires
            old(self).wf(),
            0 <= speed <= SPEED_LIMIT,
        ensures
            final(self).wf(),
            final(self).tiles@ == old(self).tiles@,
            final(self).speed == speed,
            final(self).divisor == old(self).divisor,
    {
        self.speed = speed;
    }

    /// Moves every tile left by `speed * dt / divisor`, then recycles each tile that is
    /// wholly left of `x = 0` into a new tile after the rightmost.
    pub fn advance(&mut self, dt: i64)
        requires
            old(self).wf(),
            0 <= dt <= MAX_DT,
        ensures
            final(self).advanced_from(*old(self), dt as int),
            old(self).covers(0, 2 * old(self).tile_width()),
            final(self).covers(0, 2 * old(self).tile_width()),
    {
        let ghost t0 = self.tiles@;
        assert(self.speed * dt <= SPEED_LIMIT * MAX_DT) by (nonlinear_arith)
            requires 0 <= self.speed <= SPEED_LIMIT, 0 <= dt <= MAX_DT;
        assert(0 <= self.speed * dt) by (nonlinear_arith)
            requires 0 <= self.speed, 0 <= dt;
        let shift: i64 = self.speed * dt / self.divisor;
        let w: i64 = self.tiles[0].w;
        let ghost start = t0[0].x - shift;
        assert(t0[1].x == t0[0].x + t0[0].w);
        assert(t0[2].x == t0[1].x + t0[1].w);
        let mut i: usize = 0;
        while i < self.tiles.len()
            invariant
                self.tiles@.len() == TILE_COUNT,
                0 <= i <= TILE_COUNT,
                0 <= shift <= SPEED_LIMIT * MAX_DT,
                self.speed == old(self).speed,
                self.divisor == old(self).divisor,
                t0 == old(self).tiles@,
                old(self).wf(),
                forall|j: int| 0 <= j < TILE_COUNT ==> -MAX_EXTENT <= #[trigger] t0[j].x <= 2 * MAX_EXTENT,
                forall|j: int|
                    0 <= j < i ==> #[trigger] self.tiles@[j] == (Rect { x: (t0[j].x - shift) as i64, ..t0[j] }),
                forall|j: int| i <= j < TILE_COUNT ==> #[trigger] self.tiles@[j] == t0[j],
            decreases TILE_COUNT - i,
        {
            let t = self.tiles[i];
            self.tiles[i] = Rect { x: t.x - shift, ..t };
            i = i + 1;
        }
        assert(self.tiles@[1].x == self.tiles@[0].x + w);
        assert(self.tiles@[2].x == self.tiles@[1].x + w);
        let ghost mut k: int = 0;
        while self.tiles[0].x + w <= 0
            invariant
                self.tiles@.len() == TILE_COUNT,
                0 < w <= MAX_EXTENT,
                w == t0[0].w,
                self.speed == old(self).speed,
                self.divisor == old(self).divisor,
                t0 == old(self).tiles@,
                old(self).wf(),
                start == t0[0].x - shift,
                0 <= shift <= SPEED_LIMIT * MAX_DT,
                forall|j: int|
                    0 <= j < TILE_COUNT ==> (#[trigger] self.tiles@[j]).w == w && self.tiles@[j].h
                        == t0[0].h && self.tiles@[j].y == t0[0].y,
                forall|j: int|
                    0 <= j < TILE_COUNT - 1 ==> self.tiles@[j + 1].x == (#[trigger] self.tiles@[j]).x
                        + w,
                k >= 0,
                self.tiles@[0].x == start + k * w,
                start <= self.tiles@[0].x <= 0,
            decreases 0 - self.tiles@[0].x,
        {
            assert(self.tiles@[1].x == self.tiles@[0].x + w);
            assert(self.tiles@[2].x == self.tiles@[1].x + w);
            let last = self.tiles[TILE_COUNT - 1];
            self.tiles.remove(0);
            self.tiles.push(Rect { x: last.x + w, ..last });
            proof {
                k = k + 1;
                assert(start + k * w == start + (k - 1) * w + w) by (nonlinear_arith);
            }
        }
        proof {
            lemma_mod_multiples_basic(k, w as int);
            assert(self.tiles@[0].x - start == k * w);
        }
    }
}

/// The two scrolling layers of the scene: the far background, which moves
/// at half the scroll speed, and the ground strip, which moves at full speed.
#[derive(Clone, Debug)]
pub struct Background {
    pub backgrounds: ScrollLayer,
    pub bases: ScrollLayer,
    pub speed: i64,
}

impl Background {
    pub open spec fn wf(self) -> bool {
        &&& self.backgrounds.wf()
        &&& self.bases.wf()
        &&& 0 <= self.speed <= SPEED_LIMIT
        &&& self.backgrounds.speed == self.speed
        &&& self.backgrounds.divisor == 2
        &&& self.bases.speed == self.speed
        &&& self.bases.divisor == 1
    }

    /// Both layers are those of `before` advanced by `dt` milliseconds.
    pub open spec fn advanced_from(self, before: Background, dt: int) -> bool {
        &&& self.wf()
        &&& self.speed == before.speed
        &&& self.backgrounds.advanced_from(before.backgrounds, dt)
        &&& self.bases.advanced_from(before.bases, dt)
    }

    /// Background tiles fill the screen; ground tiles are `base_height`
    /// tall and sit on the bottom edge of the screen.
    pub fn new(screen_width: i64, screen_height: i64, base_height: i64, speed: i64) -> (r: Background)
        requires
            0 < screen_width <= MAX_EXTENT,
            0 <= screen_height <= MAX_EXTENT,
            0 <= base_height <= MAX_EXTENT,
            0 <= speed <= SPEED_LIMIT,
        ensures
            r.wf(),
            r.speed == speed,
            r.backgrounds.tiles@[0] == (Rect { x: 0, y: 0, w: screen_width, h: screen_height }),
            r.bases.tiles@[0] == (Rect {
                x: 0,
                y: (screen_height - base_height) as i64,
                w: screen_width,
                h: base_height,
            }),
    {
        Background {
            backgrounds: ScrollLayer::new(0, screen_width, screen_height, speed, 2),
            bases: ScrollLayer::new(screen_height - base_height, screen_width, base_height, speed, 1),
            speed,
        }
    }

    pub fn set_speed(&mut self, speed: i64)
        requires
            old(self).wf(),
            0 <= speed <= SPEED_LIMIT,
        ensures
            final(self).wf(),
            final(self).speed == speed,
            final(self).backgrounds.tiles@ == old(self).backgrounds.tiles@,
            final(self).bases.tiles@ == old(self).bases.tiles@,
    {
        self.speed = speed;
        self.backgrounds.set_speed(speed);
        self.bases.set_speed(speed);
    }

    /// Advances both layers by `dt` milliseconds at their own speeds.
    pub fn update(&mut self, dt: i64)
        requires
            old(self).wf(),
            0 <= dt <= MAX_DT,
        ensures
            final(self).advanced_from(*old(self), dt as int),
            final(self).backgrounds.covers(0, 2 * old(self).backgrounds.tile_width()),
            final(self).bases.covers(0, 2 * old(self).bases.tile_width()),
    {
        self.backgrounds.advance(dt);
        self.bases.advance(dt);
    }

    /// The background tiles, left to right, for drawing.
    pub fn background_tiles(&self) -> (r: Vec<Rect>)
        ensures
            r@ == self.backgrounds.tiles@,
    {
        self.backgrounds.tiles.clone()
    }

    /// The ground tiles, left to right, for drawing.
    pub fn base_tiles(&self) -> (r: Vec<Rect>)
        ensures
            r@ == self.bases.tiles@,
    {
        self.bases.tiles.clone()
    }
}

} // verus!
