//! The obstacle: a wall with one gap that the player must fly through.
use vstd::prelude::*;
use crate::config::{GAP_MAX, GAP_MIN, GAP_MIN_SIZE, GAP_START_SIZE, SCREEN_HEIGHT};
use crate::player::{row_of, Player};
use crate::rng::{draw_in_range, new_generator};

verus! {

/// Height of the gap for a given score: `max(2, 20 - score)`.
pub open spec fn gap_size(score: int) -> int {
    if GAP_START_SIZE - score >= GAP_MIN_SIZE {
        GAP_START_SIZE - score
    } else {
        GAP_MIN_SIZE as int
    }
}

/// Whether a player at `(px, py)` (py in tenths) hits an obstacle at `ox`
/// whose gap is centred on `gap_y` with height `size`: the columns are equal
/// and the player's row lies above or below the gap.
pub open spec fn hits(ox: int, gap_y: int, size: int, px: int, py: int) -> bool {
    &&& ox == px
    &&& (row_of(py) < gap_y - size / 2 || row_of(py) > gap_y + size / 2)
}

#[derive(Clone, Copy, Debug, PartialEq, Eq, Structural)]
pub struct Obstacle {
    /// Horizontal world position.
    pub x: i32,
    /// Row on which the gap is centred.
    pub gap_y: i32,
    /// Full height of the gap, in rows.
    pub size: i32,
}

impl Obstacle {
    /// The gap is centred inside the safe band and is at least two rows high.
    pub open spec fn inv(&self) -> bool {
        &&& GAP_MIN <= self.gap_y < GAP_MAX
        &&& self.size >= GAP_MIN_SIZE
    }

    /// An obstacle at `x` whose gap is centred on a randomly drawn row of the
    /// safe band, sized for `score`.
    pub fn new(x: i32, score: i32) -> (o: Obstacle)
        requires
            GAP_START_SIZE - score <= i32::MAX,
        ensures
            o.x == x,
            o.size == gap_size(score as int),
            score >= GAP_START_SIZE - GAP_MIN_SIZE ==> o.size == GAP_MIN_SIZE,
            GAP_MIN <= o.gap_y < GAP_MAX,
            o.inv(),
    {
        let mut g = new_generator();
        let gap_y = draw_in_range(&mut g, GAP_MIN, GAP_MAX);
        Obstacle::with_gap(x, score, gap_y)
    }

    /// An obstacle at `x` whose gap is centred on row `gap_y`, sized for `score`.
    pub fn with_gap(x: i32, score: i32, gap_y: i32) -> (o: Obstacle)
        requires
            GAP_START_SIZE - score <= i32::MAX,
            GAP_MIN <= gap_y < GAP_MAX,
        ensures
            o.x == x,
            o.gap_y == gap_y,
            o.size == gap_size(score as int),
            o.inv(),
    {
        let size = if score >= GAP_START_SIZE - GAP_MIN_SIZE {
            GAP_MIN_SIZE
        } else {
            GAP_START_SIZE - score
        };
        Obstacle { x, gap_y, size }
    }

    /// Whether the player is in this obstacle's column and outside its gap.
    /// The test is made at one column only, on whole rows.
    pub fn hit_obstacle(&self, player: &Player) -> (r: bool)
        requires
            self.inv(),
        ensures
            r == hits(self.x as int, self.gap_y as int, self.size as int, player.x as int, player.y as int),
    {
        let half_size = self.size / 2;
        let does_x_match = self.x == player.x;
        let row = player.row();
        let player_hit_top = row < self.gap_y - half_size;
        let player_hit_bottom = row > self.gap_y + half_size;
        does_x_match && (player_hit_top || player_hit_bottom)
    }

    /// Screen column of the obstacle as seen by a player at column `player_x`.
    pub fn screen_x(&self, player_x: i32) -> (c: i32)
        requires
            i32::MIN <= self.x - player_x <= i32::MAX,
        ensures
            c == self.x - player_x,
    {
        self.x - player_x
    }

    /// Whether the wall is drawn on `row`: above the gap's top edge, or from
    /// its bottom edge down to the bottom of the field.
    pub fn is_wall(&self, row: i32) -> (r: bool)
        requires
            self.inv(),
        ensures
            r == (0 <= row < SCREEN_HEIGHT && (row < self.gap_y - self.size / 2 || row
                >= self.gap_y + self.size / 2)),
    {
        let half_size = self.size / 2;
        0 <= row && row < SCREEN_HEIGHT && (row < self.gap_y - half_size || row >= self.gap_y
            + half_size)
    }
}

} // verus!
