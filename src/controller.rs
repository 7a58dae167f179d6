//! The game's reading of the controller: the latest tilt rate and the
//! steering direction it stands for.
use vstd::prelude::*;

verus! {

/// Rates within this band around zero steer nowhere: 0.1 rad/s, in units
/// of 10^-15 rad/s.
pub const DEAD_BAND: i64 = 100_000_000_000_000;

/// Steering direction.
#[derive(Clone, Copy, Debug, PartialEq, Eq, Structural)]
pub enum Dir {
    Left,
    Right,
    Neutral,
}

impl Default for Dir {
    fn default() -> (d: Dir)
        ensures
            d == Dir::Neutral,
    {
        Dir::Neutral
    }
}

/// The direction a rate steers: a turn one way past the dead band is
/// `Right`, the other way `Left`, anything within it `Neutral`.
pub open spec fn direction_of(value: int) -> Dir {
    if value < -DEAD_BAND {
        Dir::Right
    } else if value > DEAD_BAND {
        Dir::Left
    } else {
        Dir::Neutral
    }
}

/// The latest rate received from the controller, in units of 10^-15 rad/s,
/// and the direction it steers.
#[derive(Clone, Copy, Debug, PartialEq, Eq, Structural)]
pub struct Movement {
    pub value: i64,
    pub direction: Dir,
}

impl Movement {
    /// At rest: no rate, steering nowhere.
    pub fn new() -> (m: Movement)
        ensures
            m.value == 0,
            m.direction == Dir::Neutral,
    {
        Movement { value: 0, direction: Dir::Neutral }
    }

    /// Records a new rate and the direction it steers.
    pub fn update(&mut self, value: i64)
        ensures
            final(self).value == value,
            final(self).direction == direction_of(value as int),
    {
        self.value = value;
        self.direction = if value < -DEAD_BAND {
            Dir::Right
        } else if value > DEAD_BAND {
            Dir::Left
        } else {
            Dir::Neutral
        };
    }
}

/// The movement a game starts with.
pub fn init_movement() -> (m: Movement)
    ensures
        m.value == 0,
        m.direction == Dir::Neutral,
{
    Movement::new()
}

} // verus!
