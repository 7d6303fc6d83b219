//! The player: a sprite that scrolls right, falls under gravity and flaps up.
use vstd::prelude::*;
use crate::config::{
    GRAVITY, HORIZONTAL_VELOCITY, JUMP_FORCE, MAX_GRAVITY, PLAYER_FRAME_COUNT, ROW_SCALE,
};

verus! {

/// Speed after one physics step: gravity is added only while the speed is at
/// most `MAX_GRAVITY`, so one step may overshoot the cap.
pub open spec fn next_velocity(v: int) -> int {
    if v <= MAX_GRAVITY {
        v + GRAVITY
    } else {
        v
    }
}

/// Speed after `n` physics steps without a flap.
pub open spec fn velocity_after(v: int, n: nat) -> int
    decreases n,
{
    if n == 0 {
        v
    } else {
        next_velocity(velocity_after(v, (n - 1) as nat))
    }
}

/// The row that a vertical position (in tenths) lies on, truncated toward
/// zero as a float-to-integer cast would.
pub open spec fn row_of(y: int) -> int {
    if y >= 0 {
        y / ROW_SCALE as int
    } else {
        -((-y) / ROW_SCALE as int)
    }
}

#[derive(Clone, Copy, Debug, PartialEq, Eq, Structural)]
pub struct Player {
    /// Horizontal world position: the distance scrolled so far.
    pub x: i32,
    /// Vertical position in tenths of a row; 0 is the top of the field.
    pub y: i32,
    /// Vertical speed in tenths of a row per physics step; negative is up.
    pub velocity: i32,
    /// Index into the flapping animation.
    pub frame: usize,
}

impl Player {
    /// The speed stays between a flap's impulse and one step past the cap,
    /// and the animation index names a frame.
    pub open spec fn inv(&self) -> bool {
        &&& -JUMP_FORCE <= self.velocity <= MAX_GRAVITY + GRAVITY
        &&& self.frame < PLAYER_FRAME_COUNT
    }

    /// One physics step can be taken without leaving `i32`.
    pub open spec fn can_move(&self) -> bool {
        &&& self.x + HORIZONTAL_VELOCITY <= i32::MAX
        &&& self.y + MAX_GRAVITY + GRAVITY <= i32::MAX
        &&& self.y - JUMP_FORCE >= i32::MIN
    }

    /// The player after one physics step.
    pub open spec fn moved(self) -> Player {
        let v = next_velocity(self.velocity as int);
        let y = if self.y + v < 0 {
            0
        } else {
            self.y + v
        };
        Player {
            x: (self.x + HORIZONTAL_VELOCITY) as i32,
            y: y as i32,
            velocity: v as i32,
            frame: ((self.frame + 1) % (PLAYER_FRAME_COUNT as int)) as usize,
        }
    }

    /// The player after a flap.
    pub open spec fn flapped(self) -> Player {
        Player { velocity: (-JUMP_FORCE) as i32, ..self }
    }

    /// The player after `n` physics steps without a flap.
    pub open spec fn moved_times(self, n: nat) -> Player
        decreases n,
    {
        if n == 0 {
            self
        } else {
            self.moved_times((n - 1) as nat).moved()
        }
    }

    /// A player at column `x` and vertical position `y` (in tenths), at rest.
    pub fn new(x: i32, y: i32) -> (p: Player)
        ensures
            p.x == x,
            p.y == y,
            p.velocity == 0,
            p.frame == 0,
            p.inv(),
    {
        Player { x, y, velocity: 0, frame: 0 }
    }

    /// One physics step: gravity (up to the cap), then move by the speed and
    /// one step to the right; the player never rises above row 0.
    pub fn gravity_and_move(&mut self)
        requires
            old(self).inv(),
            old(self).can_move(),
        ensures
            final(self).inv(),
            final(self).velocity == next_velocity(old(self).velocity as int),
            final(self).y == if old(self).y + final(self).velocity < 0 {
                0
            } else {
                old(self).y + final(self).velocity
            },
            final(self).y >= 0,
            final(self).x == old(self).x + HORIZONTAL_VELOCITY,
            final(self).frame == (old(self).frame + 1) % (PLAYER_FRAME_COUNT as int),
            *final(self) == old(self).moved(),
    {
        if self.velocity <= MAX_GRAVITY {
            self.velocity = self.velocity + GRAVITY;
        }
        self.y = self.y + self.velocity;
        self.x = self.x + HORIZONTAL_VELOCITY;
        self.frame = (self.frame + 1) % PLAYER_FRAME_COUNT;
        if self.y < 0 {
            self.y = 0;
        }
    }

    /// Sets the speed to the upward impulse, whatever it was.
    pub fn flap(&mut self)
        ensures
            final(self).velocity == -JUMP_FORCE,
            final(self).x == old(self).x,
            final(self).y == old(self).y,
            final(self).frame == old(self).frame,
            *final(self) == old(self).flapped(),
    {
        self.velocity = -JUMP_FORCE;
    }

    /// The row the player is on.
    pub fn row(&self) -> (r: i32)
        ensures
            r == row_of(self.y as int),
    {
        if self.y >= 0 {
            self.y / ROW_SCALE
        } else {
            // -y - 1 cannot overflow, unlike -y
            let m = -(self.y + 1);
            if m % ROW_SCALE == ROW_SCALE - 1 {
                -(m / ROW_SCALE + 1)
            } else {
                -(m / ROW_SCALE)
            }
        }
    }
}

/// One physics step keeps the speed and animation index well formed.
pub proof fn lemma_moved_inv(p: Player)
    requires
        p.inv(),
    ensures
        p.moved().inv(),
        p.moved().velocity == next_velocity(p.velocity as int),
{
}

/// Repeated physics steps without a flap: the speed never falls from one step
/// to the next, rises by exactly `GRAVITY` while it is at most `MAX_GRAVITY`,
/// and never passes `MAX_GRAVITY + GRAVITY` (one step of overshoot).
pub proof fn lemma_fall_speed_capped(p: Player, n: nat)
    requires
        p.inv(),
    ensures
        p.moved_times(n).inv(),
        p.moved_times(n).velocity == velocity_after(p.velocity as int, n),
        p.moved_times(n).velocity <= p.moved_times(n + 1).velocity,
        p.moved_times(n + 1).velocity <= MAX_GRAVITY + GRAVITY,
        p.moved_times(n).velocity <= MAX_GRAVITY ==> p.moved_times(n + 1).velocity
            == p.moved_times(n).velocity + GRAVITY,
    decreases n,
{
    if n > 0 {
        lemma_fall_speed_capped(p, (n - 1) as nat);
    }
    lemma_moved_inv(p.moved_times(n));
}

} // verus!
