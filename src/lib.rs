//! A small flappy-bird style game: a player that falls under gravity and
//! flaps upward, one gapped obstacle at a time, and a three-mode state
//! machine (menu, playing, dead) that advances once per rendered frame.
//!
//! Vertical positions and speeds are held in fixed point: they count tenths
//! of a row, so that the motion stays smooth while all arithmetic is exact.
//! Time is counted in microseconds.
use vstd::prelude::*;

pub mod config;
pub mod player;
pub mod obstacle;
mod rng;
pub mod game;
