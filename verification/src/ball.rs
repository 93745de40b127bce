//! Ball state consumed and written by the swing resolver: flight parameters,
//! bounce parameters, and the rally/serve/fault status.

use vstd::prelude::*;
use crate::vec2::Vec2Fx;
use crate::court::CourtRegion;

verus! {

/// Ball sprite extent, in fixed-point world units.
pub const BALL_SIZE: i64 = 40_000;

/// Downward acceleration driving a ball's bounce arc each second.
pub const BALL_GRAVITY: i64 = -600_000;

/// Lower bound on a ball's speed after a hit.
pub const BALL_MIN_SPEED: i64 = 400_000;

/// Upper bound on a ball's speed after a hit.
pub const BALL_MAX_SPEED: i64 = 1_100_000;

/// Lower bound on a ball's bounce apex height after a hit.
pub const BALL_MIN_HEIGHT: i64 = 80_000;

/// Upper bound on a ball's bounce apex height after a hit.
pub const BALL_MAX_HEIGHT: i64 = 300_000;

/// Shortest travel distance a hit may aim for.
pub const BALL_MIN_DISTANCE: i64 = 200_000;

/// Base horizontal offset from the net that a shot's landing must clear.
pub const TARGET_X_OFFSET: i64 = 100_000;

/// A ball's flight state: current speed and direction, the landing position
/// predicted at the last hit, and the region it currently occupies.
#[derive(Clone, Copy, PartialEq, Eq, Structural, Debug)]
pub struct Ball {
    pub speed: i64,
    pub dir: Vec2Fx,
    pub predicted_bounce_pos: Vec2Fx,
    pub region: CourtRegion,
}

/// A ball's bounce arc parameters, written by the swing resolver and
/// executed by the ball-physics collaborator.
#[derive(Clone, Copy, PartialEq, Eq, Structural, Debug)]
pub struct BallBounce {
    pub height: i64,
    pub target_height: i64,
    pub gravity_mult: i64,
}

/// The rally/serve/fault status of a ball, tagged with the responsible or
/// at-fault player id.
#[derive(Clone, Copy, PartialEq, Eq, Structural, Debug)]
pub enum BallStatus {
    /// A serve in progress: accumulated fault count, serve region, and the
    /// serving player.
    Serve { fault_count: u32, region: CourtRegion, player_id: usize },
    /// A failed serve attempt: accumulated fault count and the player at
    /// fault.
    Fault { count: u32, player_id: usize },
    /// A rally, tagged with the player who last touched the ball.
    Rally { player_id: usize },
    /// A consumed ball awaiting despawn.
    Used,
}

/// A hit notification emitted for external consumers (score, audio,
/// effects).
#[derive(Clone, Copy, PartialEq, Eq, Structural, Debug)]
pub struct BallHitEvt {
    pub ball_index: usize,
    pub player_id: usize,
}

/// A bounce notification emitted by the ball-physics collaborator: which
/// ball bounced, the side sign of the court half it landed on, and the
/// cumulative bounce count since the last hit.
#[derive(Clone, Copy, PartialEq, Eq, Structural, Debug)]
pub struct BallBouncedEvt {
    pub ball_index: usize,
    pub side: i64,
    pub bounce_count: u32,
}

} // verus!
