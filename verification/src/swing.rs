//! The swing and collision resolver: detects a ball in range during an
//! active swing, computes the new ball trajectory (speed, direction, bounce
//! apex height, predicted landing point), re-tags the ball's status, and
//! derives the hit or miss jump reaction.

use vstd::prelude::*;
use crate::fixed::{
    clamp_spec, fx_div_spec, fx_mul_spec, iabs, inv_lerp_spec, lerp_spec, tdiv, abs_i64,
    clamp_i64, fx_div, fx_mul, inv_lerp_fx, lerp_fx, max_i64, min_i64, div_nn, FX_MAX,
};
use crate::vec2::Vec2Fx;
use crate::ball::{
    Ball, BallBounce, BallStatus, BALL_GRAVITY, BALL_MAX_HEIGHT, BALL_MAX_SPEED,
    BALL_MIN_DISTANCE, BALL_MIN_HEIGHT, BALL_MIN_SPEED, TARGET_X_OFFSET,
};
use crate::movement::POS_MAX;
use crate::player::{
    ControlState, Player, PlayerAim, PlayerActionStatus, PlayerMovement, PlayerSwing,
    PlayerSwinging, AIM_RING_RADIUS, PLAYER_JUMP_HEIGHT_MIN, PLAYER_JUMP_VEL_BASE,
    PLAYER_SWING_DISTANCE,
};
use crate::ball::{BallHitEvt, BALL_SIZE};
use crate::vec2::{
    dist_sq_spec, is_ceil_sqrt, is_normalized_of, norm_sq_spec, normalize_or_zero, sqrt_ceil,
};

verus! {

/// The forward component of a shot direction against the hitter's side
/// sign: the cosine of the angle to the forward-across-the-net axis, as a
/// fixed-point fraction of a unit direction.
pub open spec fn cos_forward_spec(sign: int, dir_x: int) -> int {
    -sign * dir_x
}

/// Post-hit ball speed: a blend between the speed bounds driven by the
/// normalized charge strength, plus a small carried-over fraction of the
/// prior speed, capped at the maximum.
pub open spec fn hit_speed_spec(speed0: int, strength: int) -> int {
    let strength_t = inv_lerp_spec(100, 1000, strength);
    let carry = fx_mul_spec(
        fx_mul_spec(speed0, 125),
        inv_lerp_spec(BALL_MIN_SPEED as int / 2, BALL_MIN_SPEED as int * 2, speed0),
    );
    let raw = lerp_spec(BALL_MIN_SPEED as int, BALL_MAX_SPEED as int, strength_t) + carry;
    if raw <= BALL_MAX_SPEED as int {
        raw
    } else {
        BALL_MAX_SPEED as int
    }
}

/// Post-hit gravity multiplier: grows linearly with the new speed, from one
/// unit at the minimum speed to two units at the maximum.
pub open spec fn hit_gravity_mult_spec(speed1: int) -> int {
    inv_lerp_spec(BALL_MIN_SPEED as int, BALL_MAX_SPEED as int, speed1) + 1000
}

/// How close to its apex the pre-hit ball was, as a unit fraction of the
/// maximum bounce height.
pub open spec fn height_mult_spec(bounce_h0: int) -> int {
    inv_lerp_spec(0, BALL_MAX_HEIGHT as int, bounce_h0)
}

/// Horizontal distance from the ball to the nearest allowed landing x:
/// higher balls may land closer to the net, lower balls must clear a larger
/// offset.
pub open spec fn hit_min_a_spec(ball_x: int, net: int, sign: int, bounce_h0: int) -> int {
    let off = lerp_spec(TARGET_X_OFFSET as int, TARGET_X_OFFSET as int / 2, height_mult_spec(
        bounce_h0,
    ));
    iabs((net - sign * off) - ball_x)
}

/// Minimum travel distance of the shot: the horizontal clearance divided by
/// the shot's forward cosine (the slant distance), floored by the global
/// minimum and capped at the arithmetic range bound.
pub open spec fn hit_min_dist_spec(min_a: int, cos_fx: int) -> int {
    let base = if cos_fx > 0 {
        let q = fx_div_spec(min_a, cos_fx);
        if q >= BALL_MIN_DISTANCE as int {
            q
        } else {
            BALL_MIN_DISTANCE as int
        }
    } else {
        BALL_MIN_DISTANCE as int
    };
    if base <= FX_MAX as int {
        base
    } else {
        FX_MAX as int
    }
}

/// Net proximity of the ball as a unit fraction: one unit at the net,
/// falling to zero at the court's right extent.
pub open spec fn net_t_spec(ball_x: int, net: int, court_right: int) -> int {
    1000 - inv_lerp_spec(0, court_right, iabs(ball_x - net))
}

/// Target travel distance of the shot: an overall strength term (speed
/// normalized between its bounds, discounted by bounce height and net
/// proximity) interpolates between the minimum distance and a far bound of
/// 2.25 court widths.
pub open spec fn hit_dist_spec(
    ball_x: int,
    net: int,
    sign: int,
    court_right: int,
    cos_fx: int,
    bounce_h0: int,
    speed1: int,
) -> int {
    let hm = height_mult_spec(bounce_h0);
    let overall = inv_lerp_spec(BALL_MIN_SPEED as int, BALL_MAX_SPEED as int, speed1);
    let dist_t = clamp_spec(
        overall - fx_mul_spec(hm, 250) - fx_mul_spec(net_t_spec(ball_x, net, court_right), 250),
        0,
        1000,
    );
    lerp_spec(
        hit_min_dist_spec(hit_min_a_spec(ball_x, net, sign, bounce_h0), cos_fx),
        fx_mul_spec(court_right, 2250),
        dist_t,
    )
}

/// Post-hit bounce apex height: the new gravity applied over half the
/// travel time, clamped into the height bounds.
pub open spec fn hit_height_spec(dist: int, speed1: int) -> int {
    let g = fx_mul_spec(BALL_GRAVITY as int, hit_gravity_mult_spec(speed1));
    let time_apex = tdiv(fx_div_spec(dist, speed1), 2);
    clamp_spec(fx_mul_spec(-g, time_apex), BALL_MIN_HEIGHT as int, BALL_MAX_HEIGHT as int)
}

/// Horizontal distance to the predicted landing point: twice the flight
/// time to the apex at the new speed.
pub open spec fn hit_final_dist_spec(height: int, speed1: int) -> int {
    let g = fx_mul_spec(BALL_GRAVITY as int, hit_gravity_mult_spec(speed1));
    fx_mul_spec(fx_mul_spec(fx_div_spec(height, -g), speed1), 2000)
}

/// The ball status after a hit: a volleyed serve or an ongoing rally is
/// (re-)tagged to the hitter; anything else is unchanged.
pub open spec fn update_status_spec(s: BallStatus, hitter: usize) -> BallStatus {
    match s {
        BallStatus::Serve { player_id, .. } => if player_id != hitter {
            BallStatus::Rally { player_id: hitter }
        } else {
            s
        },
        BallStatus::Rally { .. } => BallStatus::Rally { player_id: hitter },
        _ => s,
    }
}

/// Applies the post-hit status transition: a serve volleyed by the
/// non-serving player becomes a rally tagged to the hitter, and an ongoing
/// rally is re-tagged to the hitter on every touch.
pub fn update_status_on_hit(status: &mut BallStatus, hitter_id: usize)
    ensures
        *final(status) == update_status_spec(*old(status), hitter_id),
{
    match *status {
        BallStatus::Serve { player_id, .. } => {
            if player_id != hitter_id {
                *status = BallStatus::Rally { player_id: hitter_id };
            }
        },
        BallStatus::Rally { .. } => {
            *status = BallStatus::Rally { player_id: hitter_id };
        },
        _ => {},
    }
}

/// Computes the new trajectory of a ball that was hit: direction from the
/// shot direction, speed from the charge strength with carried-over
/// momentum, bounce apex height from the new gravity over half the travel
/// time, and the predicted landing position. The new speed always lies in
/// `[BALL_MIN_SPEED, BALL_MAX_SPEED]` and the new apex height in
/// `[BALL_MIN_HEIGHT, BALL_MAX_HEIGHT]`.
pub fn compute_ball_hit(
    ball: &mut Ball,
    bounce: &mut BallBounce,
    status: &mut BallStatus,
    strength: i64,
    shot_dir: Vec2Fx,
    ball_pos: Vec2Fx,
    hitter_id: usize,
    sign: i64,
    net_offset: i64,
    court_right: i64,
)
    requires
        sign == 1 || sign == -1,
        -1000 <= shot_dir.x <= 1000,
        -1000 <= shot_dir.y <= 1000,
        0 <= old(ball).speed <= BALL_MAX_SPEED,
        0 <= old(bounce).height <= POS_MAX,
        -POS_MAX <= ball_pos.x <= POS_MAX,
        -POS_MAX <= ball_pos.y <= POS_MAX,
        -POS_MAX <= net_offset <= POS_MAX,
        0 < court_right <= POS_MAX,
        0 <= strength <= 1000,
    ensures
        ({
            let speed1 = hit_speed_spec(old(ball).speed as int, strength as int);
            let cos_fx = cos_forward_spec(sign as int, shot_dir.x as int);
            let dist = hit_dist_spec(ball_pos.x as int, net_offset as int, sign as int,
                court_right as int, cos_fx, old(bounce).height as int, speed1);
            let height = hit_height_spec(dist, speed1);
            let fd = hit_final_dist_spec(height, speed1);
            &&& final(ball).dir == shot_dir
            &&& final(ball).speed == speed1
            &&& BALL_MIN_SPEED <= final(ball).speed <= BALL_MAX_SPEED
            &&& final(ball).region == old(ball).region
            &&& final(bounce).gravity_mult == hit_gravity_mult_spec(speed1)
            &&& final(bounce).height == height
            &&& final(bounce).target_height == height
            &&& BALL_MIN_HEIGHT <= final(bounce).height <= BALL_MAX_HEIGHT
            &&& final(ball).predicted_bounce_pos.x == ball_pos.x + fx_mul_spec(
                shot_dir.x as int,
                fd,
            )
            &&& final(ball).predicted_bounce_pos.y == ball_pos.y + fx_mul_spec(
                shot_dir.y as int,
                fd,
            )
            &&& *final(status) == update_status_spec(*old(status), hitter_id)
        }),
{
    // New speed: blend between the bounds by charge strength, plus carried
    // momentum, capped at the maximum.
    let strength_t: i64 = inv_lerp_fx(100, 1000, strength);
    proof {
        crate::fixed::lemma_fx_mul_bound(ball.speed as int, 125int, BALL_MAX_SPEED as int,
            125int);
        vstd::arithmetic::mul::lemma_mul_nonnegative(ball.speed as int, 125int);
        crate::fixed::lemma_tdiv_bounds(ball.speed as int * 125, 1000);
    }
    let momentum: i64 = fx_mul(ball.speed, 125);
    let carry_t: i64 = inv_lerp_fx(BALL_MIN_SPEED / 2, BALL_MIN_SPEED * 2, ball.speed);
    proof {
        crate::fixed::lemma_fx_mul_bound(momentum as int, carry_t as int, 137_500int, 1000int);
        vstd::arithmetic::mul::lemma_mul_nonnegative(momentum as int, carry_t as int);
        crate::fixed::lemma_tdiv_bounds(momentum as int * carry_t as int, 1000);
    }
    let carry: i64 = fx_mul(momentum, carry_t);
    let blended: i64 = lerp_fx(BALL_MIN_SPEED, BALL_MAX_SPEED, strength_t);
    let speed1: i64 = min_i64(blended + carry, BALL_MAX_SPEED);
    ball.speed = speed1;
    ball.dir = shot_dir;

    // Gravity multiplier from the new speed.
    let overall: i64 = inv_lerp_fx(BALL_MIN_SPEED, BALL_MAX_SPEED, speed1);
    let g_mult: i64 = overall + 1000;
    bounce.gravity_mult = g_mult;

    // Minimum travel distance from bounce height and net clearance.
    let height_mult: i64 = inv_lerp_fx(0, BALL_MAX_HEIGHT, bounce.height);
    let off: i64 = lerp_fx(TARGET_X_OFFSET, TARGET_X_OFFSET / 2, height_mult);
    proof {
        assert(-100_000 <= sign as int * off as int <= 100_000 && -1000 <= -sign as int
            * shot_dir.x as int <= 1000) by (nonlinear_arith)
            requires
                sign as int == 1 || sign as int == -1,
                0 <= off as int <= 100_000,
                -1000 <= shot_dir.x as int <= 1000,
        ;
    }
    let min_x: i64 = net_offset - sign * off;
    let min_a: i64 = abs_i64(min_x - ball_pos.x);
    let cos_fx: i64 = -sign * shot_dir.x;
    let min_dist: i64 = if cos_fx > 0 {
        proof {
            vstd::arithmetic::mul::lemma_mul_nonnegative(min_a as int, 1000);
            crate::fixed::lemma_tdiv_bounds(min_a as int * 1000, cos_fx as int);
        }
        let q: i64 = fx_div(min_a, cos_fx);
        min_i64(max_i64(q, BALL_MIN_DISTANCE), FX_MAX)
    } else {
        BALL_MIN_DISTANCE
    };

    // Overall strength term and target travel distance.
    let ball_net_a: i64 = abs_i64(ball_pos.x - net_offset);
    let net_t: i64 = 1000 - inv_lerp_fx(0, court_right, ball_net_a);
    proof {
        crate::fixed::lemma_fx_mul_bound(height_mult as int, 250int, 1000int, 250int);
        crate::fixed::lemma_fx_mul_bound(net_t as int, 250int, 1000int, 250int);
        crate::fixed::lemma_fx_mul_bound(court_right as int, 2250int, POS_MAX as int, 2250int);
        vstd::arithmetic::mul::lemma_mul_nonnegative(court_right as int, 2250int);
        crate::fixed::lemma_tdiv_bounds(court_right as int * 2250, 1000);
    }
    let dist_t: i64 = clamp_i64(overall - fx_mul(height_mult, 250) - fx_mul(net_t, 250), 0, 1000);
    let far: i64 = fx_mul(court_right, 2250);
    let dist: i64 = lerp_fx(min_dist, far, dist_t);

    // Flight time and new bounce arc.
    proof {
        crate::fixed::lemma_fx_div_upper(dist as int, speed1 as int, FX_MAX as int,
            BALL_MIN_SPEED as int);
    }
    let time: i64 = fx_div(dist, speed1);
    let time_apex: i64 = div_nn(time, 2);
    proof {
        crate::fixed::lemma_fx_mul_exact_thousandths(600, g_mult as int);
    }
    let final_grav: i64 = fx_mul(BALL_GRAVITY, g_mult);
    let neg_grav: i64 = -final_grav;
    proof {
        crate::fixed::lemma_fx_mul_bound(neg_grav as int, time_apex as int, 1_200_000int,
            2_500_000_000int / 1000);
    }
    let apex_h: i64 = fx_mul(neg_grav, time_apex);
    let height: i64 = clamp_i64(apex_h, BALL_MIN_HEIGHT, BALL_MAX_HEIGHT);
    bounce.height = height;
    bounce.target_height = height;

    // Predicted landing position.
    proof {
        crate::fixed::lemma_fx_div_upper(height as int, neg_grav as int, BALL_MAX_HEIGHT as int,
            600_000int);
        vstd::arithmetic::mul::lemma_mul_nonnegative(height as int, 1000);
        crate::fixed::lemma_tdiv_bounds(height as int * 1000, neg_grav as int);
    }
    let final_time: i64 = fx_div(height, neg_grav);
    proof {
        crate::fixed::lemma_fx_mul_bound(final_time as int, speed1 as int, 500int,
            BALL_MAX_SPEED as int);
    }
    let ft_speed: i64 = fx_mul(final_time, speed1);
    proof {
        crate::fixed::lemma_fx_mul_bound(ft_speed as int, 2000int, 550_000int, 2000int);
    }
    let final_dist: i64 = fx_mul(ft_speed, 2000);
    proof {
        crate::fixed::lemma_fx_mul_bound(shot_dir.x as int, final_dist as int, 1000int,
            1_100_000int);
        crate::fixed::lemma_fx_mul_bound(shot_dir.y as int, final_dist as int, 1000int,
            1_100_000int);
    }
    let px: i64 = ball_pos.x + fx_mul(shot_dir.x, final_dist);
    let py: i64 = ball_pos.y + fx_mul(shot_dir.y, final_dist);
    ball.predicted_bounce_pos = Vec2Fx { x: px, y: py };

    update_status_on_hit(status, hitter_id);
}

/// The jump height of a swing reaction: the ball's pre-hit bounce height,
/// floored by the minimum jump height.
pub open spec fn jump_height_spec(bounce_y: int) -> int {
    if bounce_y >= PLAYER_JUMP_HEIGHT_MIN as int {
        bounce_y
    } else {
        PLAYER_JUMP_HEIGHT_MIN as int
    }
}

/// Flight duration of the swing jump: the jump height over a velocity base
/// that grows with the height.
pub open spec fn jump_dur_spec(bounce_y: int) -> int {
    let h = jump_height_spec(bounce_y);
    let denom = fx_mul_spec(
        PLAYER_JUMP_VEL_BASE as int,
        inv_lerp_spec(PLAYER_JUMP_HEIGHT_MIN as int, 300_000, h) + 1000,
    );
    fx_div_spec(h, denom)
}

/// Initial vertical velocity of the swing jump: the flight duration against
/// the player's gravity.
pub open spec fn jump_vel_spec(bounce_y: int) -> int {
    fx_mul_spec(jump_dur_spec(bounce_y), 3_150_000)
}

/// Lateral dash distance of a hit reaction: a fixed swing-distance multiple
/// when the ball was beyond the optimal swing distance, else twice the
/// undershoot.
pub open spec fn jump_dist_spec(ball_dist: int) -> int {
    if ball_dist - PLAYER_SWING_DISTANCE as int > 0 {
        2 * PLAYER_SWING_DISTANCE as int
    } else {
        2 * iabs(ball_dist - PLAYER_SWING_DISTANCE as int)
    }
}

/// Lateral dash speed of a hit reaction: the dash distance over twice the
/// flight duration.
pub open spec fn jump_speed_spec(bounce_y: int, ball_dist: int) -> int {
    fx_div_spec(jump_dist_spec(ball_dist), 2 * jump_dur_spec(bounce_y))
}

/// Computes the airborne reaction of a swing that connected: vertical
/// launch velocity from the ball's pre-hit bounce height, and a lateral
/// dash toward or away from the ball depending on whether it was beyond the
/// optimal swing distance.
pub fn compute_swing_jump(bounce_y: i64, ball_dist: i64, dir_to_ball: Vec2Fx) -> (r:
    PlayerSwinging)
    requires
        -BOUNCE_REF_MAX <= bounce_y <= BOUNCE_REF_MAX,
        0 <= ball_dist <= 3_000_000_000,
        -1000 <= dir_to_ball.x <= 1000,
        -1000 <= dir_to_ball.y <= 1000,
        norm_sq_spec(dir_to_ball) <= 1_000_000,
    ensures
        norm_sq_spec(r.movement_dir) <= 1_000_000,
        r.initial_jump_vel == jump_vel_spec(bounce_y as int),
        r.current_jump_vel == r.initial_jump_vel,
        0 < r.initial_jump_vel <= FX_MAX,
        r.movement_speed == jump_speed_spec(bounce_y as int, ball_dist as int),
        0 <= r.movement_speed <= crate::movement::SPEED_MAX,
        r.movement_dir.x == if ball_dist - PLAYER_SWING_DISTANCE > 0 {
            dir_to_ball.x as int
        } else {
            -(dir_to_ball.x as int)
        },
        r.movement_dir.y == if ball_dist - PLAYER_SWING_DISTANCE > 0 {
            dir_to_ball.y as int
        } else {
            -(dir_to_ball.y as int)
        },
{
    let jump_height: i64 = max_i64(bounce_y, PLAYER_JUMP_HEIGHT_MIN);
    let height_t: i64 = inv_lerp_fx(PLAYER_JUMP_HEIGHT_MIN, 300_000, jump_height);
    proof {
        crate::fixed::lemma_fx_mul_exact_thousandths(400, height_t as int + 1000);
    }
    let denom: i64 = fx_mul(PLAYER_JUMP_VEL_BASE, height_t + 1000);
    proof {
        crate::fixed::lemma_fx_div_upper(jump_height as int, denom as int,
            BOUNCE_REF_MAX as int, 400_000int);
        crate::fixed::lemma_fx_div_lower(jump_height as int, denom as int,
            PLAYER_JUMP_HEIGHT_MIN as int, 800_000int);
    }
    let jump_dur: i64 = fx_div(jump_height, denom);
    proof {
        crate::fixed::lemma_fx_mul_bound(jump_dur as int, 3_150_000int, 500_000int,
            3_150_000int);
        crate::fixed::lemma_fx_mul_lower_pos(jump_dur as int, 3_150_000int, 75int);
    }
    let jump_vel: i64 = fx_mul(jump_dur, 3_150_000);
    let invert: bool = ball_dist - PLAYER_SWING_DISTANCE > 0;
    let jump_dist: i64 = if invert {
        2 * PLAYER_SWING_DISTANCE
    } else {
        2 * abs_i64(ball_dist - PLAYER_SWING_DISTANCE)
    };
    proof {
        crate::fixed::lemma_fx_div_upper(jump_dist as int, 2 * jump_dur as int, 100_000int,
            150int);
    }
    let dash_speed: i64 = fx_div(jump_dist, 2 * jump_dur);
    let dir: Vec2Fx = if invert {
        dir_to_ball
    } else {
        proof {
            assert((-dir_to_ball.x as int) * (-dir_to_ball.x as int) + (-dir_to_ball.y as int)
                * (-dir_to_ball.y as int) == dir_to_ball.x as int * dir_to_ball.x as int
                + dir_to_ball.y as int * dir_to_ball.y as int) by (nonlinear_arith);
        }
        Vec2Fx { x: -dir_to_ball.x, y: -dir_to_ball.y }
    };
    PlayerSwinging {
        movement_speed: dash_speed,
        movement_dir: dir,
        initial_jump_vel: jump_vel,
        current_jump_vel: jump_vel,
    }
}

/// Lateral dash speed of a missed swing: a fixed swing-distance multiple
/// over twice the base flight duration.
pub open spec fn miss_jump_speed_spec() -> int {
    fx_div_spec(
        2 * PLAYER_SWING_DISTANCE as int,
        2 * fx_div_spec(PLAYER_JUMP_HEIGHT_MIN as int, PLAYER_JUMP_VEL_BASE as int),
    )
}

/// Magnitude bound on the bounce heights a swing reaction is derived from;
/// it keeps the resulting jump velocity within the arithmetic range.
pub const BOUNCE_REF_MAX: i64 = 200_000_000;

/// Squared contact radius of a swing: the aim ring radius plus a fraction
/// of the ball size.
pub open spec fn hit_radius_sq() -> int {
    let r = AIM_RING_RADIUS as int + (BALL_SIZE as int * 650) / 1000;
    r * r
}

/// Everything the swing resolver reads and writes about one ball: its
/// flight state, status, bounce arc, current position, and the tracked
/// bounce-indicator position (global, and its local height).
#[derive(Clone, Copy, PartialEq, Eq, Structural, Debug)]
pub struct BallWorldEntry {
    pub ball: Ball,
    pub status: BallStatus,
    pub bounce: BallBounce,
    pub pos: Vec2Fx,
    pub bounce_pos: Vec2Fx,
    pub bounce_local_y: i64,
}

/// A ball entry whose quantities are within the simulation's bounds.
pub open spec fn entry_in_bounds(e: BallWorldEntry) -> bool {
    &&& -POS_MAX <= e.pos.x <= POS_MAX
    &&& -POS_MAX <= e.pos.y <= POS_MAX
    &&& -POS_MAX <= e.bounce_pos.x <= POS_MAX
    &&& -POS_MAX <= e.bounce_pos.y <= POS_MAX
    &&& -BOUNCE_REF_MAX <= e.bounce_local_y <= BOUNCE_REF_MAX
    &&& 0 <= e.ball.speed <= BALL_MAX_SPEED
    &&& 0 <= e.bounce.height <= BOUNCE_REF_MAX
}

/// Whether a ball is within swing contact range of a player: the nearer of
/// the ball itself and its bounce indicator is closer than the contact
/// radius (compared on squared distances).
pub open spec fn ball_in_range_spec(e: BallWorldEntry, ppos: Vec2Fx) -> bool {
    let d_ball = dist_sq_spec(e.pos, ppos);
    let d_bounce = dist_sq_spec(e.bounce_pos, ppos);
    (if d_ball <= d_bounce {
        d_ball
    } else {
        d_bounce
    }) < hit_radius_sq()
}

/// Decides whether a ball is within swing contact range of a player.
pub fn ball_in_range(e: &BallWorldEntry, ppos: Vec2Fx) -> (r: bool)
    requires
        entry_in_bounds(*e),
        -POS_MAX <= ppos.x <= POS_MAX,
        -POS_MAX <= ppos.y <= POS_MAX,
    ensures
        r == ball_in_range_spec(*e, ppos),
{
    let bx: i64 = e.pos.x - ppos.x;
    let by: i64 = e.pos.y - ppos.y;
    let ix: i64 = e.bounce_pos.x - ppos.x;
    let iy: i64 = e.bounce_pos.y - ppos.y;
    proof {
        lemma_delta_squares(bx as int, by as int);
        lemma_delta_squares(ix as int, iy as int);
    }
    let d_ball: i64 = bx * bx + by * by;
    let d_bounce: i64 = ix * ix + iy * iy;
    let nearer: i64 = min_i64(d_ball, d_bounce);
    let radius: i64 = AIM_RING_RADIUS + (BALL_SIZE * 650) / 1000;
    nearer < radius * radius
}

/// Squares of bounded deltas are non-negative and fit the machine range.
proof fn lemma_delta_squares(x: int, y: int)
    requires
        -1_000_000_000 <= x <= 1_000_000_000,
        -1_000_000_000 <= y <= 1_000_000_000,
    ensures
        0 <= x * x <= 1_000_000_000_000_000_000,
        0 <= y * y <= 1_000_000_000_000_000_000,
{
    assert(0 <= x * x <= 1_000_000_000_000_000_000 && 0 <= y * y
        <= 1_000_000_000_000_000_000) by (nonlinear_arith)
        requires
            -1_000_000_000 <= x <= 1_000_000_000,
            -1_000_000_000 <= y <= 1_000_000_000,
    ;
}

/// The charge strength carried by an Active swing status.
pub open spec fn active_strength_spec(s: PlayerActionStatus) -> int {
    match s {
        PlayerActionStatus::Active(v) => v as int,
        _ => 0,
    }
}

/// How a swing resolution ended.
#[derive(Clone, Copy, PartialEq, Eq, Structural, Debug)]
pub enum SwingOutcome {
    /// The swing was not in its active window; nothing changed.
    NotActive,
    /// A ball was hit; the notification names the ball and the hitter.
    Hit(BallHitEvt),
    /// The swing was active but connected with no ball; the action is
    /// consumed all the same.
    Missed,
}

/// One frame of the swing resolver for one player. While the swing is
/// Active and its timer has not elapsed, the first ball within contact
/// range is hit: its trajectory is recomputed, its status re-tagged, and
/// the player launches into the airborne hit reaction. With no ball in
/// range (or the window elapsed) the swing still consumes its action and
/// the player performs the miss reaction. Either way an Active swing ends
/// this frame in Cooldown with the player airborne; at most one ball is
/// touched. A swing not in Active status changes nothing.
pub fn resolve_swing(
    player: &Player,
    aim: &PlayerAim,
    swing: &mut PlayerSwing,
    movement: &PlayerMovement,
    control: &mut ControlState,
    balls: &mut Vec<BallWorldEntry>,
    player_pos: Vec2Fx,
    net_offset: i64,
    court_right: i64,
) -> (r: SwingOutcome)
    requires
        old(swing).status matches PlayerActionStatus::Active(s) ==> 0 <= s <= 1000,
        *old(control) == ControlState::Grounded,
        forall|j: int| 0 <= j < old(balls)@.len() ==> entry_in_bounds(#[trigger] old(balls)@[j]),
        -1000 <= aim.dir.x <= 1000,
        -1000 <= aim.dir.y <= 1000,
        norm_sq_spec(aim.dir) <= 1_000_000,
        -crate::vec2::DIR_MAX <= movement.raw_dir.x <= crate::vec2::DIR_MAX,
        -crate::vec2::DIR_MAX <= movement.raw_dir.y <= crate::vec2::DIR_MAX,
        -POS_MAX <= player_pos.x <= POS_MAX,
        -POS_MAX <= player_pos.y <= POS_MAX,
        -POS_MAX <= net_offset <= POS_MAX,
        0 < court_right <= POS_MAX,
    ensures
        final(balls)@.len() == old(balls)@.len(),
        // A swing not in its active window changes nothing.
        !(old(swing).status matches PlayerActionStatus::Active(_)) ==> {
            &&& r == SwingOutcome::NotActive
            &&& *final(swing) == *old(swing)
            &&& *final(control) == *old(control)
            &&& final(balls)@ == old(balls)@
        },
        // An active swing always ends in Cooldown with the player airborne.
        old(swing).status matches PlayerActionStatus::Active(_) ==> {
            &&& final(swing).status == PlayerActionStatus::Cooldown
            &&& final(swing).timer_remaining == old(swing).cooldown
            &&& final(swing).duration == old(swing).duration
            &&& final(swing).cooldown == old(swing).cooldown
            &&& *final(control) matches ControlState::Airborne(_)
            &&& crate::jump::swinging_in_bounds(crate::jump::airborne_state_spec(*final(control)))
            &&& (r matches SwingOutcome::Hit(_) || r == SwingOutcome::Missed)
        },
        // A hit names the first ball in range; only that ball is touched.
        forall|evt: BallHitEvt|
            r == SwingOutcome::Hit(evt) ==> {
                &&& evt.player_id == player.id
                &&& 0 <= evt.ball_index < old(balls)@.len()
                &&& old(swing).timer_remaining > 0
                &&& ball_in_range_spec(old(balls)@[evt.ball_index as int], player_pos)
                &&& forall|j: int|
                    0 <= j < evt.ball_index ==> !ball_in_range_spec(
                        #[trigger] old(balls)@[j],
                        player_pos,
                    )
                &&& forall|j: int|
                    0 <= j < old(balls)@.len() && j != evt.ball_index ==> final(balls)@[j] == old(
                        balls,
                    )@[j]
                &&& ({
                    let e0 = old(balls)@[evt.ball_index as int];
                    let e1 = final(balls)@[evt.ball_index as int];
                    let sign: int = if crate::player::is_left_spec(*player) {
                        -1
                    } else {
                        1
                    };
                    let speed1 = hit_speed_spec(e0.ball.speed as int, active_strength_spec(
                        old(swing).status,
                    ));
                    let dist = hit_dist_spec(e0.pos.x as int, net_offset as int, sign,
                        court_right as int, cos_forward_spec(sign, e1.ball.dir.x as int),
                        e0.bounce.height as int, speed1);
                    let height = hit_height_spec(dist, speed1);
                    &&& e1.pos == e0.pos
                    &&& e1.bounce_pos == e0.bounce_pos
                    &&& e1.bounce_local_y == e0.bounce_local_y
                    &&& e1.status == update_status_spec(e0.status, player.id)
                    &&& e1.ball.speed == speed1
                    &&& BALL_MIN_SPEED <= e1.ball.speed <= BALL_MAX_SPEED
                    &&& e1.ball.region == e0.ball.region
                    &&& e1.bounce.gravity_mult == hit_gravity_mult_spec(speed1)
                    &&& e1.bounce.height == height
                    &&& e1.bounce.target_height == height
                    &&& BALL_MIN_HEIGHT <= e1.bounce.height <= BALL_MAX_HEIGHT
                    &&& e1.ball.predicted_bounce_pos.x == e0.pos.x + fx_mul_spec(
                        e1.ball.dir.x as int,
                        hit_final_dist_spec(height, speed1),
                    )
                    &&& e1.ball.predicted_bounce_pos.y == e0.pos.y + fx_mul_spec(
                        e1.ball.dir.y as int,
                        hit_final_dist_spec(height, speed1),
                    )
                    &&& is_normalized_of(e1.ball.dir, aim.dir)
                    &&& norm_sq_spec(e1.ball.dir) <= 1_000_000
                })
                &&& ({
                    let e0 = old(balls)@[evt.ball_index as int];
                    *final(control) matches ControlState::Airborne(s) ==> {
                        &&& s.initial_jump_vel == jump_vel_spec(e0.bounce_local_y as int)
                        &&& s.current_jump_vel == s.initial_jump_vel
                        &&& s.initial_jump_vel > 0
                        &&& exists|dst: int|
                            #[trigger] is_ceil_sqrt(dst, dist_sq_spec(e0.pos, player_pos))
                                && s.movement_speed == jump_speed_spec(
                                e0.bounce_local_y as int,
                                dst,
                            ) && (dst - PLAYER_SWING_DISTANCE > 0 ==> is_normalized_of(
                                s.movement_dir,
                                Vec2Fx {
                                    x: (e0.pos.x - player_pos.x) as i64,
                                    y: (e0.pos.y - player_pos.y) as i64,
                                },
                            )) && (dst - PLAYER_SWING_DISTANCE <= 0 ==> is_normalized_of(
                                Vec2Fx {
                                    x: (-s.movement_dir.x) as i64,
                                    y: (-s.movement_dir.y) as i64,
                                },
                                Vec2Fx {
                                    x: (e0.pos.x - player_pos.x) as i64,
                                    y: (e0.pos.y - player_pos.y) as i64,
                                },
                            ))
                        &&& norm_sq_spec(s.movement_dir) <= 1_000_000
                    }
                })
            },
        // A miss touches no ball, and comes exactly when the window had
        // elapsed or no ball was in range.
        r == SwingOutcome::Missed ==> {
            &&& final(balls)@ == old(balls)@
            &&& (old(swing).timer_remaining <= 0 || forall|j: int|
                0 <= j < old(balls)@.len() ==> !ball_in_range_spec(
                    #[trigger] old(balls)@[j],
                    player_pos,
                ))
            &&& (*final(control) matches ControlState::Airborne(s) ==> {
                &&& s.initial_jump_vel == PLAYER_JUMP_VEL_BASE
                &&& s.current_jump_vel == PLAYER_JUMP_VEL_BASE
                &&& s.movement_speed == miss_jump_speed_spec()
                &&& norm_sq_spec(s.movement_dir) <= 1_000_000
                &&& (movement.raw_dir.x == 0 && movement.raw_dir.y == 0 ==> s.movement_dir
                    == aim.dir)
                &&& (!(movement.raw_dir.x == 0 && movement.raw_dir.y == 0)
                    ==> is_normalized_of(s.movement_dir, movement.raw_dir))
            })
        },
        // An active swing with a live window and a ball in range always
        // registers a hit.
        (old(swing).status matches PlayerActionStatus::Active(_) && old(swing).timer_remaining > 0
            && exists|j: int|
            0 <= j < old(balls)@.len() && ball_in_range_spec(#[trigger] old(balls)@[j], player_pos))
            ==> r matches SwingOutcome::Hit(_),
{
    let strength: i64;
    match swing.status {
        PlayerActionStatus::Active(s) => {
            strength = s;
        },
        _ => {
            return SwingOutcome::NotActive;
        },
    }

    // Find the first ball within contact range, if the window is live.
    let mut found: bool = false;
    let mut idx: usize = 0;
    if swing.timer_remaining > 0 {
        let mut i: usize = 0;
        while i < balls.len()
            invariant
                i <= balls@.len(),
                forall|j: int| 0 <= j < balls@.len() ==> entry_in_bounds(#[trigger] balls@[j]),
                -POS_MAX <= player_pos.x <= POS_MAX,
                -POS_MAX <= player_pos.y <= POS_MAX,
                !found ==> forall|j: int|
                    0 <= j < i ==> !ball_in_range_spec(#[trigger] balls@[j], player_pos),
                found ==> idx < i && ball_in_range_spec(balls@[idx as int], player_pos)
                    && forall|j: int|
                    0 <= j < idx ==> !ball_in_range_spec(#[trigger] balls@[j], player_pos),
            decreases balls@.len() - i,
        {
            if !found && ball_in_range(&balls[i], player_pos) {
                found = true;
                idx = i;
            }
            i = i + 1;
        }
    }

    let sign: i64 = player.get_sign();
    swing.start_cooldown();

    if found {
        let entry: BallWorldEntry = balls[idx];

        // Reactive jump from the ball's pre-hit bounce height and distance.
        let delta: Vec2Fx = Vec2Fx { x: entry.pos.x - player_pos.x, y: entry.pos.y - player_pos.y };
        proof {
            lemma_delta_squares(delta.x as int, delta.y as int);
        }
        let dsq: u64 = (delta.x * delta.x + delta.y * delta.y) as u64;
        let ball_dist: i64 = sqrt_ceil(dsq) as i64;
        let dir_to_ball: Vec2Fx = normalize_or_zero(delta);
        let jump: PlayerSwinging = compute_swing_jump(entry.bounce_local_y, ball_dist, dir_to_ball);
        *control = ControlState::Airborne(jump);
        proof {
            assert(is_ceil_sqrt(ball_dist as int, dist_sq_spec(entry.pos, player_pos)));
            assert(delta == (Vec2Fx {
                x: (entry.pos.x - player_pos.x) as i64,
                y: (entry.pos.y - player_pos.y) as i64,
            }));
            if !(ball_dist - PLAYER_SWING_DISTANCE > 0) {
                assert((Vec2Fx {
                    x: (-jump.movement_dir.x) as i64,
                    y: (-jump.movement_dir.y) as i64,
                }) == dir_to_ball);
            }
        }

        // New ball trajectory and status.
        let mut b: Ball = entry.ball;
        let mut bb: BallBounce = entry.bounce;
        let mut st: BallStatus = entry.status;
        let shot_dir: Vec2Fx = normalize_or_zero(aim.dir);
        compute_ball_hit(&mut b, &mut bb, &mut st, strength, shot_dir, entry.pos, player.id, sign,
            net_offset, court_right);
        balls.set(idx, BallWorldEntry {
            ball: b,
            status: st,
            bounce: bb,
            pos: entry.pos,
            bounce_pos: entry.bounce_pos,
            bounce_local_y: entry.bounce_local_y,
        });
        SwingOutcome::Hit(BallHitEvt { ball_index: idx, player_id: player.id })
    } else {
        // Missed swing: the action is consumed and the player dashes along
        // the current movement heading, or the aim direction when idle.
        let base_dur: i64 = fx_div(PLAYER_JUMP_HEIGHT_MIN, PLAYER_JUMP_VEL_BASE);
        proof {
            assert(tdiv(60_000_000int, 400_000int) == 150int) by (nonlinear_arith);
        }
        let dash_speed: i64 = fx_div(2 * PLAYER_SWING_DISTANCE, 2 * base_dur);
        proof {
            assert(tdiv(100_000_000int, 300int) == 333_333int) by (nonlinear_arith);
        }
        let dash_dir: Vec2Fx = if !movement.raw_dir.is_zero() {
            normalize_or_zero(movement.raw_dir)
        } else {
            aim.dir
        };
        *control = ControlState::Airborne(
            PlayerSwinging {
                movement_speed: dash_speed,
                movement_dir: dash_dir,
                initial_jump_vel: PLAYER_JUMP_VEL_BASE,
                current_jump_vel: PLAYER_JUMP_VEL_BASE,
            },
        );
        SwingOutcome::Missed
    }
}

} // verus!
