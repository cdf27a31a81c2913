use vstd::prelude::*;

verus! {

/// Width of the playing field.
pub const FIELD_WIDTH: i64 = 800_000;
/// Height of the playing field, ground included.
pub const FIELD_HEIGHT: i64 = 600_000;
/// Height of the ground strip at the bottom of the field.
pub const GROUND_HEIGHT: i64 = 80_000;
/// y coordinate of the ground line: the bottom of the playable area.
pub const FIELD_BOTTOM: i64 = 520_000;
/// Side of the bird's visual square.
pub const BIRD_SIZE: i64 = 30_000;
/// Inset of the bird's hitbox on each side of its visual square.
pub const HITBOX_MARGIN: i64 = 5_000;
/// Width of a pipe.
pub const PIPE_WIDTH: i64 = 60_000;
/// Gravity: velocity gained per half-tick, in milli-pixels per half-tick.
pub const GRAVITY: i64 = 125;
/// Velocity set by a jump, in milli-pixels per half-tick (-8 pixels per tick).
pub const JUMP_VELOCITY: i64 = -4_000;
/// Horizontal position of a new bird.
pub const BIRD_START_X: i64 = 150_000;
/// Vertical position of a new bird: the middle of the field.
pub const BIRD_START_Y: i64 = 300_000;
/// Pipes spawn this far beyond the right edge of the field.
pub const SPAWN_MARGIN: i64 = 50_000;
/// Lowest legal gap top.
pub const GAP_MIN_Y: i64 = 150_000;
/// Room kept between the bottom of a gap and the ground line.
pub const GAP_BOTTOM_ROOM: i64 = 100_000;
/// A pipe spawns once the spawn timer exceeds this many half-ticks (90 ticks).
pub const SPAWN_THRESHOLD: i64 = 180;
/// Background scroll per half-tick.
pub const SCROLL_PER_HALF_TICK: i64 = 500;
/// The background offset wraps to zero at or below this value.
pub const SCROLL_WRAP: i64 = -50_000;
/// Half-ticks in a normal frame.
pub const NORMAL_FRAME: i64 = 2;
/// Half-ticks in a slow-motion frame.
pub const SLOW_FRAME: i64 = 1;
/// Largest magnitude kept for positions and velocities that may grow without bound.
pub const COORD_LIMIT: i64 = 1_000_000_000_000_000;

#[derive(Clone, Copy, Debug, PartialEq, Eq, Structural)]
pub enum Difficulty {
    Easy,
    Medium,
    Hard,
    Extreme,
}

pub open spec fn gap_of(d: Difficulty) -> i64 {
    match d {
        Difficulty::Easy => 220_000,
        Difficulty::Medium => 180_000,
        Difficulty::Hard => 140_000,
        Difficulty::Extreme => 120_000,
    }
}

/// Pipe speed in milli-pixels per tick.
pub open spec fn speed_of(d: Difficulty) -> i64 {
    match d {
        Difficulty::Easy => 2_000,
        Difficulty::Medium => 2_500,
        Difficulty::Hard => 3_000,
        Difficulty::Extreme => 3_800,
    }
}

pub open spec fn name_of(d: Difficulty) -> Seq<char> {
    match d {
        Difficulty::Easy => "Easy"@,
        Difficulty::Medium => "Medium"@,
        Difficulty::Hard => "Hard"@,
        Difficulty::Extreme => "Extreme"@,
    }
}

impl Difficulty {
    /// Height of the gap of the pipes spawned at this difficulty.
    pub fn pipe_gap(&self) -> (r: i64)
        ensures
            r == gap_of(*self),
    {
        match self {
            Difficulty::Easy => 220_000,
            Difficulty::Medium => 180_000,
            Difficulty::Hard => 140_000,
            Difficulty::Extreme => 120_000,
        }
    }

    /// Horizontal pipe speed at this difficulty, in milli-pixels per tick.
    pub fn pipe_speed(&self) -> (r: i64)
        ensures
            r == speed_of(*self),
    {
        match self {
            Difficulty::Easy => 2_000,
            Difficulty::Medium => 2_500,
            Difficulty::Hard => 3_000,
            Difficulty::Extreme => 3_800,
        }
    }

    pub fn name(&self) -> (r: &'static str)
        ensures
            r@ == name_of(*self),
    {
        match self {
            Difficulty::Easy => {
                proof { reveal_strlit("Easy"); }
                "Easy"
            },
            Difficulty::Medium => {
                proof { reveal_strlit("Medium"); }
                "Medium"
            },
            Difficulty::Hard => {
                proof { reveal_strlit("Hard"); }
                "Hard"
            },
            Difficulty::Extreme => {
                proof { reveal_strlit("Extreme"); }
                "Extreme"
            },
        }
    }
}

/// Half-ticks that one frame lasts.
pub open spec fn frame_len(slow_motion: bool) -> i64 {
    if slow_motion { SLOW_FRAME } else { NORMAL_FRAME }
}

pub fn frame_half_ticks(slow_motion: bool) -> (r: i64)
    ensures
        r == frame_len(slow_motion),
        1 <= r <= 2,
{
    if slow_motion { SLOW_FRAME } else { NORMAL_FRAME }
}

} // verus!
