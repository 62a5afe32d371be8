use vstd::prelude::*;

use crate::geometry::{in_coord_range, Rect, MAX_DT, MAX_EXTENT, SPEED_LIMIT};

verus! {

/// Largest bound of a random draw: integers up to here are exact in `f64`.
pub const RANDOM_LIMIT: i64 = 0x20_0000_0000_0000;

/// Relies on macroquad::rand::gen_range (quad_rand) for integers: it scales a
/// draw in `[0, 1)` onto `[low, high]` and truncates, which stays within the
/// bounds when they are non-negative and exact in `f64`.
#[verifier::external_body]
pub(crate) fn random_range(low: i64, high: i64) -> (r: i64)
    requires
        0 <= low <= high <= RANDOM_LIMIT,
    ensures
        low <= r <= high,
{
    macroquad::rand::gen_range(low, high)
}

/// Smallest screen height on which a gap can be placed in its band.
pub const MIN_PLAY_HEIGHT: i64 = 4;

/// The midpoint of a gap, given as twice its value `mid2`, lies between a
/// fifth and four fifths of the screen height `h`.
pub open spec fn gap_in_middle(h: int, mid2: int) -> bool {
    2 * h <= 5 * mid2 <= 8 * h
}

/// Lowest drawn center for a gap of size `gap` on a screen of height `h`.
/// With an odd gap the midpoint ends half a unit above the drawn center.
pub open spec fn min_gap_center(h: int, gap: int) -> int {
    (2 * h + 5 * (gap % 2) + 9) / 10
}

/// Highest drawn center on a screen of height `h`.
pub open spec fn max_gap_center(h: int) -> int {
    h * 4 / 5
}

/// A pair of obstacles with a gap between them: the upper one ends `gap`
/// above the top of the lower one. Both share their left edge and size and
/// move left at `speed`.
#[derive(Clone, Copy, Debug, PartialEq, Eq, Structural)]
pub struct Pipe {
    pub upper_pipe: Rect,
    pub lower_pipe: Rect,
    pub gap: i64,
    pub speed: i64,
    pub screen_height: i64,
}

impl Pipe {
    /// Twice the midpoint of the gap: the sum of the upper obstacle's
    /// bottom edge and the lower obstacle's top edge.
    pub open spec fn gap_mid2(self) -> int {
        self.upper_pipe.y + self.upper_pipe.h + self.lower_pipe.y
    }

    pub open spec fn wf(self) -> bool {
        &&& self.upper_pipe.wf()
        &&& self.lower_pipe.wf()
        &&& self.upper_pipe.x == self.lower_pipe.x
        &&& self.upper_pipe.w == self.lower_pipe.w
        &&& self.upper_pipe.h == self.lower_pipe.h
        &&& self.upper_pipe.w <= MAX_EXTENT
        &&& self.upper_pipe.h <= MAX_EXTENT
        &&& 0 <= self.gap <= MAX_EXTENT
        &&& self.upper_pipe.y + self.upper_pipe.h + self.gap == self.lower_pipe.y
        &&& 0 <= self.screen_height <= MAX_EXTENT
        &&& gap_in_middle(self.screen_height as int, self.gap_mid2())
        &&& 0 <= self.speed <= SPEED_LIMIT
    }

    /// How far the pair moves in `dt` milliseconds.
    pub open spec fn shift(self, dt: int) -> int {
        self.speed * dt
    }

    /// The pair after moving for `dt` milliseconds.
    pub open spec fn moved(self, dt: int) -> Pipe {
        Pipe {
            upper_pipe: Rect { x: (self.upper_pipe.x - self.shift(dt)) as i64, ..self.upper_pipe },
            lower_pipe: Rect { x: (self.lower_pipe.x - self.shift(dt)) as i64, ..self.lower_pipe },
            ..self
        }
    }

    /// The pair's right edge is left of `x = 0`.
    pub open spec fn invisible(self) -> bool {
        self.upper_pipe.x + self.upper_pipe.w < 0
    }

    /// The pair with its gap centered at `center` and its left edge one
    /// width to the right of the screen's right edge.
    pub open spec fn centered(
        center: int,
        width: int,
        height: int,
        gap: int,
        speed: int,
        screen_height: int,
        screen_width: int,
    ) -> Pipe {
        let x = screen_width + width;
        let lower_y = center + gap / 2;
        Pipe {
            upper_pipe: Rect {
                x: x as i64,
                y: (lower_y - gap - height) as i64,
                w: width as i64,
                h: height as i64,
            },
            lower_pipe: Rect { x: x as i64, y: lower_y as i64, w: width as i64, h: height as i64 },
            gap: gap as i64,
            speed: speed as i64,
            screen_height: screen_height as i64,
        }
    }

    /// The pair whose gap is centered at `center`, placed one width to the
    /// right of the screen's right edge.
    pub fn with_gap_center(
        center: i64,
        width: i64,
        height: i64,
        gap: i64,
        speed: i64,
        screen_height: i64,
        screen_width: i64,
    ) -> (r: Pipe)
        requires
            0 <= width <= MAX_EXTENT,
            0 <= height <= MAX_EXTENT,
            0 <= gap <= MAX_EXTENT,
            0 <= screen_width <= MAX_EXTENT,
            0 <= screen_height <= MAX_EXTENT,
            0 <= speed <= SPEED_LIMIT,
            min_gap_center(screen_height as int, gap as int) <= center <= max_gap_center(
                screen_height as int,
            ),
        ensures
            r.wf(),
            r.gap_mid2() == 2 * center - gap % 2,
            r == Pipe::centered(
                center as int,
                width as int,
                height as int,
                gap as int,
                speed as int,
                screen_height as int,
                screen_width as int,
            ),
            r.lower_pipe == (Rect {
                x: (screen_width + width) as i64,
                y: (center + gap / 2) as i64,
                w: width,
                h: height,
            }),
            r.upper_pipe == (Rect {
                x: (screen_width + width) as i64,
                y: (center + gap / 2 - gap - height) as i64,
                w: width,
                h: height,
            }),
            r.gap == gap,
            r.speed == speed,
            r.screen_height == screen_height,
    {
        let x: i64 = screen_width + width;
        let lower_y: i64 = center + gap / 2;
        let upper_y: i64 = lower_y - gap - height;
        Pipe {
            upper_pipe: Rect::new(x, upper_y, width, height),
            lower_pipe: Rect::new(x, lower_y, width, height),
            gap,
            speed,
            screen_height,
        }
    }

    /// A pair whose gap is placed at random with its midpoint between a
    /// fifth and four fifths of the screen height.
    pub fn new(width: i64, height: i64, gap: i64, speed: i64, screen_height: i64, screen_width: i64) -> (r: Pipe)
        requires
            0 <= width <= MAX_EXTENT,
            0 <= height <= MAX_EXTENT,
            0 <= gap <= MAX_EXTENT,
            0 <= screen_width <= MAX_EXTENT,
            MIN_PLAY_HEIGHT <= screen_height <= MAX_EXTENT,
            0 <= speed <= SPEED_LIMIT,
        ensures
            r.wf(),
            gap_in_middle(screen_height as int, r.gap_mid2()),
            r.lower_pipe.x == screen_width + width,
            r.upper_pipe.y + height + gap == r.lower_pipe.y,
            r.lower_pipe.w == width,
            r.lower_pipe.h == height,
            r.gap == gap,
            r.speed == speed,
            r.screen_height == screen_height,
    {
        let low: i64 = (2 * screen_height + 5 * (gap % 2) + 9) / 10;
        let center = random_range(low, screen_height * 4 / 5);
        Pipe::with_gap_center(center, width, height, gap, speed, screen_height, screen_width)
    }

    /// The upper and the lower obstacle.
    pub fn get_bounding_rects(&self) -> (r: [Rect; 2])
        ensures
            r@ == seq![self.upper_pipe, self.lower_pipe],
    {
        [self.upper_pipe, self.lower_pipe]
    }

    /// Moves both obstacles left by `speed * dt`.
    pub fn update(&mut self, dt: i64)
        requires
            old(self).wf(),
            0 <= dt <= MAX_DT,
            in_coord_range(old(self).upper_pipe.x - old(self).shift(dt as int)),
        ensures
            final(self).wf(),
            *final(self) == old(self).moved(dt as int),
    {
        assert(0 <= self.speed * dt <= SPEED_LIMIT * MAX_DT) by (nonlinear_arith)
            requires 0 <= self.speed <= SPEED_LIMIT, 0 <= dt <= MAX_DT;
        let shift: i64 = self.speed * dt;
        self.upper_pipe.x = self.upper_pipe.x - shift;
        self.lower_pipe.x = self.lower_pipe.x - shift;
    }

    /// True once the pair's right edge has passed left of `x = 0`.
    pub fn is_invisible(&self) -> (r: bool)
        requires
            self.wf(),
        ensures
            r == self.invisible(),
    {
        self.upper_pipe.x + self.upper_pipe.w < 0
    }
}

/// Moving a pair keeps its gap: the gap's midpoint stays between a fifth
/// and four fifths of the screen height, and the upper obstacle still ends
/// exactly `gap` above the top of the lower one.
pub proof fn lemma_moved_keeps_gap(p: Pipe, dt: int)
    requires
        p.wf(),
        0 <= dt <= MAX_DT,
        in_coord_range(p.upper_pipe.x - p.shift(dt)),
    ensures
        p.moved(dt).gap_mid2() == p.gap_mid2(),
        gap_in_middle(p.screen_height as int, p.moved(dt).gap_mid2()),
        p.moved(dt).upper_pipe.y + p.moved(dt).upper_pipe.h + p.moved(dt).gap
            == p.moved(dt).lower_pipe.y,
        p.moved(dt).wf(),
{
    assert(0 <= p.speed * dt <= SPEED_LIMIT * MAX_DT) by (nonlinear_arith)
        requires 0 <= p.speed <= SPEED_LIMIT, 0 <= dt <= MAX_DT;
}

} // verus!
