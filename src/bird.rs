use vstd::prelude::*;

use crate::geometry::{overlaps, Rect, MAX_DT, MAX_EXTENT, SPEED_LIMIT};

verus! {

/// Downward acceleration, in milli-pixels per second gained each millisecond.
pub const GRAVITY: i64 = 1000;

/// A jump made at this downward velocity or faster sounds as a swoosh.
pub const SWOOSH_VELOCITY: i64 = 500_000;

/// Velocity beyond which the flyer is drawn tilted.
pub const TILT_VELOCITY: i64 = 100_000;

/// The sound that a jump makes.
#[derive(Clone, Copy, Debug, PartialEq, Eq, Structural)]
pub enum FlapSound {
    Wing,
    Swoosh,
}

/// Which sprite the flyer is drawn with.
#[derive(Clone, Copy, Debug, PartialEq, Eq, Structural)]
pub enum BirdPose {
    Upflap,
    Midflap,
    Downflap,
}

/// The player's flyer: its bounding box, vertical velocity (positive is
/// downward), jump impulse and the floor it cannot fall through.
#[derive(Clone, Copy, Debug, PartialEq, Eq, Structural)]
pub struct Bird {
    pub bounding_rect: Rect,
    pub velocity_y: i64,
    pub jump_velocity: i64,
    pub screen_height: i64,
    pub touching_ground: bool,
}

/// Velocity after falling for `dt` milliseconds.
pub open spec fn fallen_velocity(v: int, dt: int) -> int {
    v + GRAVITY * dt
}

/// Top edge after falling for `dt` milliseconds from `y` at velocity `v`.
pub open spec fn fallen_y(y: int, v: int, dt: int) -> int {
    y + fallen_velocity(v, dt) * dt
}

impl Bird {
    pub open spec fn wf(self) -> bool {
        &&& self.bounding_rect.wf()
        &&& 0 <= self.bounding_rect.h <= self.screen_height <= MAX_EXTENT
        &&& -MAX_EXTENT <= self.bounding_rect.y <= MAX_EXTENT
        &&& -SPEED_LIMIT <= self.velocity_y <= SPEED_LIMIT
        &&& 0 <= self.jump_velocity <= SPEED_LIMIT
    }

    /// The flyer lies between the top of the screen and the floor.
    pub open spec fn within_bounds(self) -> bool {
        0 <= self.bounding_rect.y && self.bounding_rect.y + self.bounding_rect.h
            <= self.screen_height
    }

    /// The flyer after falling for `dt` milliseconds: it stops, with no
    /// velocity left, on the floor (then touching ground) or at the top of
    /// the screen.
    pub open spec fn fallen(self, dt: int) -> Bird {
        let v1 = fallen_velocity(self.velocity_y as int, dt);
        let y1 = fallen_y(self.bounding_rect.y as int, self.velocity_y as int, dt);
        let floor_y = self.screen_height - self.bounding_rect.h;
        Bird {
            bounding_rect: Rect {
                y: (if y1 > floor_y {
                    floor_y
                } else if y1 < 0 {
                    0
                } else {
                    y1
                }) as i64,
                ..self.bounding_rect
            },
            velocity_y: (if y1 > floor_y || y1 < 0 {
                0
            } else {
                v1
            }) as i64,
            touching_ground: y1 > floor_y,
            ..self
        }
    }

    /// A flyer at rest at `(x, y)` with the given size and jump impulse.
    pub fn new(x: i64, y: i64, width: i64, height: i64, jump_velocity: i64, screen_height: i64) -> (r: Bird)
        requires
            (Rect { x, y, w: width, h: height }).wf(),
            0 <= height <= screen_height <= MAX_EXTENT,
            -MAX_EXTENT <= y <= MAX_EXTENT,
            0 <= jump_velocity <= SPEED_LIMIT,
        ensures
            r.wf(),
            r.bounding_rect == (Rect { x, y, w: width, h: height }),
            r.velocity_y == 0,
            r.jump_velocity == jump_velocity,
            r.screen_height == screen_height,
            !r.touching_ground,
    {
        Bird {
            bounding_rect: Rect::new(x, y, width, height),
            velocity_y: 0,
            jump_velocity,
            screen_height,
            touching_ground: false,
        }
    }

    /// The sound of a jump made at velocity `v`.
    pub open spec fn flap_sound(v: int) -> FlapSound {
        if v >= SWOOSH_VELOCITY {
            FlapSound::Swoosh
        } else {
            FlapSound::Wing
        }
    }

    /// The flyer after a jump: only its velocity changes.
    pub open spec fn flapped(self) -> Bird {
        Bird { velocity_y: (-self.jump_velocity) as i64, ..self }
    }

    /// Jumps: the velocity becomes the upward impulse, whatever it was. A jump
    /// out of a fast fall swooshes, any other flaps its wings.
    pub fn flap(&mut self) -> (r: FlapSound)
        requires
            old(self).wf(),
        ensures
            *final(self) == old(self).flapped(),
            r == Bird::flap_sound(old(self).velocity_y as int),
            final(self).wf(),
    {
        let sound = if self.velocity_y >= SWOOSH_VELOCITY {
            FlapSound::Swoosh
        } else {
            FlapSound::Wing
        };
        self.velocity_y = -self.jump_velocity;
        sound
    }

    pub fn is_touching_ground(&self) -> (r: bool)
        ensures
            r == self.touching_ground,
    {
        self.touching_ground
    }

    /// Falls for `dt` milliseconds, then stops on the floor or at the top of
    /// the screen. Stopping on the floor marks the flyer as touching ground.
    pub fn update(&mut self, dt: i64)
        requires
            old(self).wf(),
            0 <= dt <= MAX_DT,
        ensures
            final(self).wf(),
            final(self).within_bounds(),
            *final(self) == old(self).fallen(dt as int),
    {
        let ghost v0 = self.velocity_y as int;
        assert(GRAVITY * dt <= GRAVITY * MAX_DT) by (nonlinear_arith)
            requires 0 <= dt <= MAX_DT;
        let v1: i64 = self.velocity_y + GRAVITY * dt;
        assert(-0x400_0000_0000_0000 <= v1 * dt <= 0x400_0000_0000_0000) by (nonlinear_arith)
            requires
                -SPEED_LIMIT - GRAVITY * MAX_DT <= v1 <= SPEED_LIMIT + GRAVITY * MAX_DT,
                0 <= dt <= MAX_DT,
        ;
        let y1: i64 = self.bounding_rect.y + v1 * dt;
        let floor_y: i64 = self.screen_height - self.bounding_rect.h;
        if y1 > floor_y {
            self.touching_ground = true;
            self.bounding_rect.y = floor_y;
            self.velocity_y = 0;
        } else if y1 < 0 {
            self.touching_ground = false;
            self.bounding_rect.y = 0;
            self.velocity_y = 0;
        } else {
            self.touching_ground = false;
            self.bounding_rect.y = y1;
            self.velocity_y = v1;
            assert(-SPEED_LIMIT <= v1 <= SPEED_LIMIT) by (nonlinear_arith)
                requires
                    dt == 0 ==> v1 == v0,
                    -SPEED_LIMIT <= v0 <= SPEED_LIMIT,
                    0 <= dt,
                    -2 * MAX_EXTENT <= v1 * dt <= 2 * MAX_EXTENT,
                    2 * MAX_EXTENT <= SPEED_LIMIT,
            ;
        }
    }

    /// True when the flyer's bounding box overlaps `other`.
    pub fn is_colliding(&self, other: Rect) -> (r: bool)
        requires
            self.wf(),
            other.wf(),
        ensures
            r == overlaps(self.bounding_rect, other),
    {
        self.bounding_rect.intersects(&other)
    }

    pub fn get_bounding_rect(&self) -> (r: Rect)
        ensures
            r == self.bounding_rect,
    {
        self.bounding_rect
    }

    /// The sprite for the current velocity: rising fast is drawn with the
    /// wings up; any velocity from the tilt threshold downward, and any
    /// at or below its negative, with the wings down; the rest mid-flap.
    pub fn pose(&self) -> (r: BirdPose)
        ensures
            r == (if self.velocity_y > TILT_VELOCITY {
                BirdPose::Upflap
            } else if self.velocity_y < TILT_VELOCITY && self.velocity_y > -TILT_VELOCITY {
                BirdPose::Midflap
            } else {
                BirdPose::Downflap
            }),
    {
        if self.velocity_y > TILT_VELOCITY {
            BirdPose::Upflap
        } else if self.velocity_y < TILT_VELOCITY && self.velocity_y > -TILT_VELOCITY {
            BirdPose::Midflap
        } else {
            BirdPose::Downflap
        }
    }

    /// The tilt of the sprite for the current velocity, in degrees.
    pub fn rotation_degrees(&self) -> (r: i64)
        ensures
            r == (if self.velocity_y > TILT_VELOCITY {
                10
            } else if self.velocity_y < TILT_VELOCITY && self.velocity_y > -TILT_VELOCITY {
                0
            } else {
                -10i64
            }),
    {
        match self.pose() {
            BirdPose::Upflap => 10,
            BirdPose::Midflap => 0,
            BirdPose::Downflap => -10,
        }
    }
}

} // verus!
