//! The movement controller: translates raw directional input into a clamped
//! world position each frame, with speed easing and court-bound clamping.

use vstd::prelude::*;
use crate::fixed::{
    clamp_spec, fx_mul_spec, inv_lerp_spec, lerp_spec, clamp_i64, fx_mul, inv_lerp_fx, lerp_fx,
};
use crate::vec2::Vec2Fx;
use crate::player::{
    Player, PlayerAnimation, PlayerActionStatus, PlayerMovement, PlayerSwing, PLAYER_SIZE,
    is_left_spec, swing_charging_spec,
};

verus! {

/// Magnitude bound on positions and view extents.
pub const POS_MAX: i64 = 500_000_000;

/// Magnitude bound on player speeds.
pub const SPEED_MAX: i64 = 2_000_000;

/// Magnitude bound on a single frame's delta time (two seconds).
pub const DT_MAX: i64 = 2_000;

/// Magnitude bound on direction components (twice unit).
pub const DIR_COMP_MAX: i64 = 2_000;

/// A movement record whose quantities are within the simulation's bounds.
pub open spec fn movement_in_bounds(m: PlayerMovement) -> bool {
    &&& 0 <= m.speed <= SPEED_MAX
    &&& 0 <= m.charging_speed <= SPEED_MAX
    &&& 0 < m.time_to_max_speed <= 1_000_000
    &&& -2_000_000 <= m.easing_time <= 2_000_000
    &&& -DIR_COMP_MAX <= m.raw_dir.x <= DIR_COMP_MAX
    &&& -DIR_COMP_MAX <= m.raw_dir.y <= DIR_COMP_MAX
    &&& -DIR_COMP_MAX <= m.last_non_zero_raw_dir.x <= DIR_COMP_MAX
    &&& -DIR_COMP_MAX <= m.last_non_zero_raw_dir.y <= DIR_COMP_MAX
}

/// Half the playable court width plus the player extent.
pub open spec fn court_half_w(view_x: int) -> int {
    view_x / 2 + PLAYER_SIZE
}

/// Width of one player's side-specific play area, split asymmetrically by
/// the live net offset.
pub open spec fn area_width(left: bool, net: int, view_x: int) -> int {
    if left {
        court_half_w(view_x) + net
    } else {
        court_half_w(view_x) - net
    }
}

/// Horizontal centre of the side-specific play area.
pub open spec fn area_center_x(left: bool, net: int, view_x: int) -> int {
    if left {
        net - area_width(left, net, view_x) / 2
    } else {
        net + area_width(left, net, view_x) / 2
    }
}

/// Lowest x a player's centre may take on its side.
pub open spec fn area_lo_x(left: bool, net: int, view_x: int) -> int {
    area_center_x(left, net, view_x) - (area_width(left, net, view_x) / 2 - PLAYER_SIZE / 2)
}

/// Highest x a player's centre may take on its side.
pub open spec fn area_hi_x(left: bool, net: int, view_x: int) -> int {
    area_center_x(left, net, view_x) + (area_width(left, net, view_x) / 2 - PLAYER_SIZE / 2)
}

/// Vertical half-extent of the play area.
pub open spec fn area_half_y(view_y: int) -> int {
    view_y / 2 - PLAYER_SIZE / 2
}

/// The heading the player moves along: the raw input when present, else the
/// last non-zero input (so the player decelerates along its last heading).
pub open spec fn movement_dir_spec(m: PlayerMovement) -> Vec2Fx {
    if m.raw_dir.x == 0 && m.raw_dir.y == 0 {
        m.last_non_zero_raw_dir
    } else {
        m.raw_dir
    }
}

/// Effective speed: the reduced charging speed while the swing is charging,
/// the base speed otherwise.
pub open spec fn movement_speed_spec(m: PlayerMovement, charging: bool) -> int {
    if charging {
        m.charging_speed as int
    } else {
        m.speed as int
    }
}

/// The easing accumulator after one frame: it grows while input is held,
/// shrinks while released, clamped to the easing window.
pub open spec fn eased_time_spec(m: PlayerMovement, dt: int) -> int {
    let delta = if m.raw_dir.x == 0 && m.raw_dir.y == 0 {
        -dt
    } else {
        dt
    };
    clamp_spec(m.easing_time + delta, 0, m.time_to_max_speed as int)
}

/// Fraction of the easing window elapsed, as a fixed-point unit fraction.
pub open spec fn ease_frac_spec(m: PlayerMovement, dt: int) -> int {
    inv_lerp_spec(0, m.time_to_max_speed as int, eased_time_spec(m, dt))
}

/// The position the player would reach this frame with no easing: one
/// component of `pos + dir * speed * dt`.
pub open spec fn naive_next(pos_c: int, dir_c: int, speed: int, dt: int) -> int {
    pos_c + fx_mul_spec(fx_mul_spec(dir_c, speed), dt)
}

/// One component of the eased, unclamped movement target.
pub open spec fn eased_target(pos_c: int, dir_c: int, speed: int, dt: int, frac: int) -> int {
    lerp_spec(pos_c, naive_next(pos_c, dir_c, speed, dt), frac)
}

/// One frame of the movement controller. Returns the player's new position
/// and the resulting animation state. The new position is exactly the eased
/// movement target clamped into the player's side-specific play area, so it
/// never leaves that area, even at maximal speed and delta time.
pub fn move_player_step(
    player: &Player,
    movement: &mut PlayerMovement,
    pos: Vec2Fx,
    swing: &PlayerSwing,
    dt: i64,
    net_offset: i64,
    view: Vec2Fx,
) -> (r: (Vec2Fx, PlayerAnimation))
    requires
        movement_in_bounds(*old(movement)),
        -POS_MAX <= pos.x <= POS_MAX,
        -POS_MAX <= pos.y <= POS_MAX,
        0 <= dt <= DT_MAX,
        0 <= view.x <= POS_MAX,
        2 * PLAYER_SIZE <= view.y <= POS_MAX,
        -(view.x / 2) <= net_offset <= view.x / 2,
    ensures
        ({
            let left = is_left_spec(*player);
            let charging = swing_charging_spec(*swing);
            let speed = movement_speed_spec(*old(movement), charging);
            let dir = movement_dir_spec(*old(movement));
            let frac = ease_frac_spec(*old(movement), dt as int);
            let tx = eased_target(pos.x as int, dir.x as int, speed, dt as int, frac);
            let ty = eased_target(pos.y as int, dir.y as int, speed, dt as int, frac);
            &&& r.0.x == clamp_spec(tx, area_lo_x(left, net_offset as int, view.x as int),
                area_hi_x(left, net_offset as int, view.x as int))
            &&& r.0.y == clamp_spec(ty, -area_half_y(view.y as int), area_half_y(view.y as int))
            &&& area_lo_x(left, net_offset as int, view.x as int) <= r.0.x <= area_hi_x(left,
                net_offset as int, view.x as int)
            &&& -area_half_y(view.y as int) <= r.0.y <= area_half_y(view.y as int)
        }),
        final(movement).easing_time == eased_time_spec(*old(movement), dt as int),
        final(movement).raw_dir == old(movement).raw_dir,
        final(movement).last_non_zero_raw_dir == if old(movement).raw_dir.x == 0 && old(
            movement,
        ).raw_dir.y == 0 {
            old(movement).last_non_zero_raw_dir
        } else {
            old(movement).raw_dir
        },
        final(movement).speed == old(movement).speed,
        final(movement).charging_speed == old(movement).charging_speed,
        final(movement).time_to_max_speed == old(movement).time_to_max_speed,
        ({
            let charging = swing_charging_spec(*swing);
            let moved = (r.0.x - pos.x) * (r.0.x - pos.x) + (r.0.y - pos.y) * (r.0.y - pos.y)
                > 10_000;
            r.1 == if moved {
                if charging {
                    PlayerAnimation::Walking
                } else {
                    PlayerAnimation::Running
                }
            } else {
                PlayerAnimation::Idle
            }
        }),
{
    let charging = matches!(swing.status, PlayerActionStatus::Charging(_));
    let speed: i64 = if charging {
        movement.charging_speed
    } else {
        movement.speed
    };
    let raw_zero = movement.raw_dir.is_zero();
    let dir: Vec2Fx = if raw_zero {
        movement.last_non_zero_raw_dir
    } else {
        movement.raw_dir
    };

    // Naive next position without easing.
    proof {
        crate::fixed::lemma_fx_mul_bound(dir.x as int, speed as int, DIR_COMP_MAX as int,
            SPEED_MAX as int);
        crate::fixed::lemma_fx_mul_bound(dir.y as int, speed as int, DIR_COMP_MAX as int,
            SPEED_MAX as int);
    }
    let vel_x: i64 = fx_mul(dir.x, speed);
    let vel_y: i64 = fx_mul(dir.y, speed);
    proof {
        crate::fixed::lemma_fx_mul_bound(vel_x as int, dt as int, 4_000_000int, DT_MAX as int);
        crate::fixed::lemma_fx_mul_bound(vel_y as int, dt as int, 4_000_000int, DT_MAX as int);
    }
    let move_x: i64 = fx_mul(vel_x, dt);
    let move_y: i64 = fx_mul(vel_y, dt);
    let naive_x: i64 = pos.x + move_x;
    let naive_y: i64 = pos.y + move_y;

    // Easing accumulator and elapsed fraction of the easing window.
    let ease_delta: i64 = if raw_zero {
        -dt
    } else {
        dt
    };
    movement.easing_time = clamp_i64(movement.easing_time + ease_delta, 0,
        movement.time_to_max_speed);
    let frac: i64 = inv_lerp_fx(0, movement.time_to_max_speed, movement.easing_time);

    let target_x: i64 = lerp_fx(pos.x, naive_x, frac);
    let target_y: i64 = lerp_fx(pos.y, naive_y, frac);

    // Side-specific play area, split by the live net offset.
    let court_w_half: i64 = view.x / 2 + PLAYER_SIZE;
    let area_w: i64 = if player.is_left() {
        court_w_half + net_offset
    } else {
        court_w_half - net_offset
    };
    let pos_offset: i64 = area_w / 2;
    let center_x: i64 = if player.is_left() {
        net_offset - pos_offset
    } else {
        net_offset + pos_offset
    };
    let half_bound_x: i64 = pos_offset - PLAYER_SIZE / 2;
    let half_bound_y: i64 = view.y / 2 - PLAYER_SIZE / 2;
    proof {
        vstd::arithmetic::div_mod::lemma_div_is_ordered(PLAYER_SIZE as int, area_w as int, 2);
        vstd::arithmetic::div_mod::lemma_div_is_ordered(area_w as int, 1_000_200_000int, 2);
        vstd::arithmetic::div_mod::lemma_div_is_ordered(0, view.x as int, 2);
        vstd::arithmetic::div_mod::lemma_div_is_ordered(view.x as int, POS_MAX as int, 2);
        vstd::arithmetic::div_mod::lemma_div_is_ordered(0, view.y as int, 2);
        vstd::arithmetic::div_mod::lemma_div_is_ordered(view.y as int, POS_MAX as int, 2);
    }
    let fx: i64 = clamp_i64(target_x, center_x - half_bound_x, center_x + half_bound_x);
    let fy: i64 = clamp_i64(target_y, -half_bound_y, half_bound_y);

    let moved_x: i64 = fx - pos.x;
    let moved_y: i64 = fy - pos.y;
    proof {
        assert(0 <= moved_x as int * moved_x as int <= 4_000_000_000_000_000_000 && 0 <= moved_y
            as int * moved_y as int <= 4_000_000_000_000_000_000) by (nonlinear_arith)
            requires
                -2_000_000_000 <= moved_x as int <= 2_000_000_000,
                -2_000_000_000 <= moved_y as int <= 2_000_000_000,
        ;
    }
    let anim: PlayerAnimation = if moved_x * moved_x + moved_y * moved_y > 10_000 {
        if charging {
            PlayerAnimation::Walking
        } else {
            PlayerAnimation::Running
        }
    } else {
        PlayerAnimation::Idle
    };

    if !raw_zero {
        movement.last_non_zero_raw_dir = movement.raw_dir;
    }

    (Vec2Fx { x: fx, y: fy }, anim)
}

} // verus!
