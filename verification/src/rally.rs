//! The rally outcome resolver: consumes ball-bounce notifications, decides
//! faults, out-of-bounds losses and bounce-limit violations, awards the
//! point, and prepares the respawn of the next serve ball.

use vstd::prelude::*;
use crate::ball::BallStatus;
use crate::court::{left_region, right_region, CourtRegion};
use crate::player::is_left_player_id;

verus! {

/// Faults beyond this count lose the point ("double fault").
pub const FAULT_LIMIT: u32 = 1;

/// Bounces beyond this count since the last hit lose the point.
pub const BOUNCE_LIMIT: u32 = 1;

/// Why a point was lost.
#[derive(Clone, Copy, PartialEq, Eq, Structural, Debug)]
pub enum LossReason {
    DoubleFault,
    ShootingOutOfBounds,
    TooManyBounces,
}

/// What a single bounce notification resolves to.
#[derive(Clone, Copy, PartialEq, Eq, Structural, Debug)]
pub enum BounceVerdict {
    /// The bounce carries no consequence this tick.
    NoAction,
    /// A fault within the limit: the serve continues on a fresh ball that
    /// carries the fault count forward.
    FaultConsumed { fault_count: u32 },
    /// A point is lost by the named player.
    PointLoss { losing_player: usize, reason: LossReason },
}

/// The id of the active player occupying the court half with the given side
/// sign (the left player's sign is negative).
pub open spec fn side_player_id_spec(side: int) -> usize {
    if side < 0 {
        1usize
    } else {
        2usize
    }
}

/// The decision table evaluated against the ball's status on each bounce.
pub open spec fn bounce_verdict_spec(
    status: BallStatus,
    region_out_of_bounds: bool,
    bounce_count: u32,
    side: int,
) -> BounceVerdict {
    match status {
        BallStatus::Fault { count, player_id } => {
            if count > FAULT_LIMIT {
                BounceVerdict::PointLoss {
                    losing_player: player_id,
                    reason: LossReason::DoubleFault,
                }
            } else {
                BounceVerdict::FaultConsumed { fault_count: count }
            }
        },
        BallStatus::Rally { player_id } => {
            if region_out_of_bounds && bounce_count == 1 {
                BounceVerdict::PointLoss {
                    losing_player: player_id,
                    reason: LossReason::ShootingOutOfBounds,
                }
            } else if bounce_count > BOUNCE_LIMIT {
                BounceVerdict::PointLoss {
                    losing_player: side_player_id_spec(side),
                    reason: LossReason::TooManyBounces,
                }
            } else {
                BounceVerdict::NoAction
            }
        },
        BallStatus::Serve { .. } => BounceVerdict::NoAction,
        BallStatus::Used => BounceVerdict::NoAction,
    }
}

/// Decides what a bounce resolves to: a fault past the limit loses the
/// point for the server; a rally ball whose first bounce lands out of
/// bounds loses the point for the last hitter; a rally ball bouncing past
/// the bounce limit loses the point for the owner of the side it bounced
/// on; anything else resolves nothing.
pub fn bounce_verdict(
    status: &BallStatus,
    region_out_of_bounds: bool,
    bounce_count: u32,
    side: i64,
) -> (r: BounceVerdict)
    ensures
        r == bounce_verdict_spec(*status, region_out_of_bounds, bounce_count, side as int),
{
    match *status {
        BallStatus::Fault { count, player_id } => {
            if count > FAULT_LIMIT {
                BounceVerdict::PointLoss {
                    losing_player: player_id,
                    reason: LossReason::DoubleFault,
                }
            } else {
                BounceVerdict::FaultConsumed { fault_count: count }
            }
        },
        BallStatus::Rally { player_id } => {
            if region_out_of_bounds && bounce_count == 1 {
                BounceVerdict::PointLoss {
                    losing_player: player_id,
                    reason: LossReason::ShootingOutOfBounds,
                }
            } else if bounce_count > BOUNCE_LIMIT {
                let occupant: usize = if side < 0 {
                    1
                } else {
                    2
                };
                BounceVerdict::PointLoss {
                    losing_player: occupant,
                    reason: LossReason::TooManyBounces,
                }
            } else {
                BounceVerdict::NoAction
            }
        },
        BallStatus::Serve { .. } => BounceVerdict::NoAction,
        BallStatus::Used => BounceVerdict::NoAction,
    }
}

/// What applying a verdict asks of the surrounding game: a point award for
/// a player, and the spawn of the next ball with its carried fault count.
#[derive(Clone, Copy, PartialEq, Eq, Structural, Debug)]
pub struct BounceEffects {
    /// The player gaining a point, if the bounce resolved a loss.
    pub award_point_to: Option<usize>,
    /// Whether the bounced ball was consumed (marked Used, to be despawned
    /// with its trail faded).
    pub ball_used: bool,
    /// Whether a fresh serve ball is spawned.
    pub spawn_ball: bool,
    /// The fault count the fresh ball carries forward.
    pub spawn_fault_count: u32,
}

/// Applies what a bounce resolved to. On a resolution the ball is marked Used and a
/// fresh ball is spawned at the (possibly rotated) serving region; a point
/// loss awards the point to the other player and resets the carried fault
/// count; and when the score collaborator reports a server swap, the
/// serving region rotates to the caller-picked row on the side opposite
/// the last server.
pub fn apply_bounce_verdict(
    verdict: BounceVerdict,
    status: &mut BallStatus,
    serving_region: &mut CourtRegion,
    swap_serve: bool,
    pick_bottom: bool,
) -> (r: BounceEffects)
    ensures
        verdict == BounceVerdict::NoAction ==> {
            &&& *final(status) == *old(status)
            &&& *final(serving_region) == *old(serving_region)
            &&& r == (BounceEffects {
                award_point_to: None::<usize>,
                ball_used: false,
                spawn_ball: false,
                spawn_fault_count: 0u32,
            })
        },
        forall|fc: u32|
            verdict == (BounceVerdict::FaultConsumed { fault_count: fc }) ==> {
                &&& *final(status) == BallStatus::Used
                &&& *final(serving_region) == *old(serving_region)
                &&& r == (BounceEffects {
                    award_point_to: None::<usize>,
                    ball_used: true,
                    spawn_ball: true,
                    spawn_fault_count: fc,
                })
            },
        forall|loser: usize, why: LossReason|
            verdict == (BounceVerdict::PointLoss { losing_player: loser, reason: why }) ==> {
                &&& *final(status) == BallStatus::Used
                &&& r == (BounceEffects {
                    award_point_to: Some(if loser == 1 { 2usize } else { 1usize }),
                    ball_used: true,
                    spawn_ball: true,
                    spawn_fault_count: 0u32,
                })
                &&& !swap_serve ==> *final(serving_region) == *old(serving_region)
                &&& swap_serve ==> *final(serving_region) == rotated_region_spec(
                    *old(serving_region),
                    pick_bottom,
                )
            },
{
    match verdict {
        BounceVerdict::NoAction => BounceEffects {
            award_point_to: None,
            ball_used: false,
            spawn_ball: false,
            spawn_fault_count: 0,
        },
        BounceVerdict::FaultConsumed { fault_count } => {
            *status = BallStatus::Used;
            BounceEffects {
                award_point_to: None,
                ball_used: true,
                spawn_ball: true,
                spawn_fault_count: fault_count,
            }
        },
        BounceVerdict::PointLoss { losing_player, reason: _ } => {
            *status = BallStatus::Used;
            let winner: usize = if is_left_player_id(losing_player) {
                2
            } else {
                1
            };
            if swap_serve {
                let rotated: CourtRegion = if serving_region.is_left() {
                    right_region(pick_bottom)
                } else {
                    left_region(pick_bottom)
                };
                *serving_region = rotated;
            }
            BounceEffects {
                award_point_to: Some(winner),
                ball_used: true,
                spawn_ball: true,
                spawn_fault_count: 0,
            }
        },
    }
}

/// The serving region after a server swap: the caller-picked row on the
/// side opposite the previous serving region.
pub open spec fn rotated_region_spec(prev: CourtRegion, pick_bottom: bool) -> CourtRegion {
    if prev == CourtRegion::TopLeft || prev == CourtRegion::BottomLeft {
        if pick_bottom {
            CourtRegion::BottomRight
        } else {
            CourtRegion::TopRight
        }
    } else {
        if pick_bottom {
            CourtRegion::BottomLeft
        } else {
            CourtRegion::TopLeft
        }
    }
}

} // verus!
