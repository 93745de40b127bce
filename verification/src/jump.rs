//! The jump/swing reaction: drives the airborne dash and jump arc of a
//! player whose swing resolved, the visual squash-stretch factor, and the
//! landing that restores normal control.

use vstd::prelude::*;
use crate::fixed::{
    fx_mul_spec, iabs, inv_lerp_spec, tdiv, abs_i64, div_nn, fx_mul, inv_lerp_fx, max_i64,
    min_i64, FX_MAX,
};
use crate::vec2::Vec2Fx;
use crate::player::{
    ControlState, PlayerMovement, PlayerSwinging, PLAYER_GRAVITY, PLAYER_SIZE,
    PLAYER_JUMP_VEL_BASE,
};
use crate::movement::{POS_MAX, SPEED_MAX, DT_MAX};

verus! {

/// The airborne record carried by a control state.
pub open spec fn airborne_state_spec(c: ControlState) -> PlayerSwinging
    recommends
        c matches ControlState::Airborne(_),
{
    match c {
        ControlState::Airborne(s) => s,
        ControlState::Grounded => vstd::pervasive::arbitrary(),
    }
}

/// An airborne record whose quantities are within the simulation's bounds.
pub open spec fn swinging_in_bounds(s: PlayerSwinging) -> bool {
    &&& 0 < s.initial_jump_vel <= FX_MAX
    &&& -1_990_000_000 <= s.current_jump_vel <= FX_MAX
    &&& 0 <= s.movement_speed <= SPEED_MAX
    &&& -2000 <= s.movement_dir.x <= 2000
    &&& -2000 <= s.movement_dir.y <= 2000
}

/// The visual squash-stretch factor of the jump, as a signed fixed-point
/// fraction: stretched near launch speed, squashed near the top of the arc,
/// interpolated piecewise from the current vertical velocity.
pub open spec fn stretch_spec(initial: int, current: int) -> int {
    let v = iabs(current);
    let stretch_vel = fx_mul_spec(initial, 800);
    let squash_vel = fx_mul_spec(initial, 300);
    let max_stretch = fx_mul_spec(
        inv_lerp_spec(0, fx_mul_spec(PLAYER_JUMP_VEL_BASE as int, 2500), initial),
        350,
    );
    let max_squash = tdiv(max_stretch, 2);
    if v > stretch_vel {
        fx_mul_spec(1000 - inv_lerp_spec(stretch_vel, initial, v), max_stretch)
    } else if v < squash_vel {
        fx_mul_spec(inv_lerp_spec(0, squash_vel, v), max_squash + max_stretch) - max_squash
    } else {
        max_stretch
    }
}

/// One component of the lateral dash step.
pub open spec fn dash_step_spec(dir_c: int, speed: int, dt: int) -> int {
    fx_mul_spec(fx_mul_spec(dir_c, speed), dt)
}

/// One frame of the airborne swing reaction. The player dashes laterally
/// (clamped so it cannot cross the net), the jump arc advances under
/// gravity, and the squash-stretch scale is derived from the vertical
/// velocity. When the vertical position reaches the ground the transient
/// airborne state is removed, control is restored, movement is left fully
/// eased along the dash heading, and the animation lands. Returns the
/// squash-stretch scale and whether the player landed this frame.
pub fn airborne_step(
    control: &mut ControlState,
    pos: &mut Vec2Fx,
    jump_y: &mut i64,
    movement: &mut PlayerMovement,
    is_left: bool,
    dt: i64,
    net_offset: i64,
) -> (r: (Vec2Fx, bool))
    requires
        *old(control) matches ControlState::Airborne(_),
        swinging_in_bounds(airborne_state_spec(*old(control))),
        -POS_MAX <= old(pos).x <= POS_MAX,
        -POS_MAX <= old(pos).y <= POS_MAX,
        -POS_MAX <= *old(jump_y) <= POS_MAX,
        0 <= dt <= DT_MAX,
        -POS_MAX <= net_offset <= POS_MAX,
        0 < old(movement).time_to_max_speed <= 1_000_000,
    ensures
        ({
            let s = airborne_state_spec(*old(control));
            let px = old(pos).x + dash_step_spec(s.movement_dir.x as int, s.movement_speed as int,
                dt as int);
            let landed_y = *old(jump_y) + fx_mul_spec(s.current_jump_vel as int, dt as int);
            let landed = landed_y <= 0;
            &&& final(pos).x == if is_left {
                if px <= net_offset - PLAYER_SIZE / 2 {
                    px
                } else {
                    net_offset - PLAYER_SIZE as int / 2
                }
            } else {
                if px >= net_offset + PLAYER_SIZE / 2 {
                    px
                } else {
                    net_offset + PLAYER_SIZE as int / 2
                }
            }
            &&& final(pos).y == old(pos).y + dash_step_spec(s.movement_dir.y as int,
                s.movement_speed as int, dt as int)
            &&& r.0.x == 1000 - stretch_spec(s.initial_jump_vel as int, s.current_jump_vel as int)
            &&& r.0.y == 1000 + stretch_spec(s.initial_jump_vel as int, s.current_jump_vel as int)
            &&& r.1 == landed
            &&& *final(jump_y) == if landed {
                0int
            } else {
                landed_y
            }
            // Landing restores control and leaves movement fully eased
            // along the dash heading.
            &&& landed ==> {
                &&& *final(control) == ControlState::Grounded
                &&& final(movement).easing_time == old(movement).time_to_max_speed
                &&& final(movement).raw_dir == (Vec2Fx { x: 0i64, y: 0i64 })
                &&& final(movement).last_non_zero_raw_dir == s.movement_dir
                &&& final(movement).speed == old(movement).speed
                &&& final(movement).charging_speed == old(movement).charging_speed
                &&& final(movement).time_to_max_speed == old(movement).time_to_max_speed
            }
            // Still airborne: only the vertical velocity changes, by one
            // frame of gravity.
            &&& !landed ==> {
                &&& *final(movement) == *old(movement)
                &&& *final(control) == ControlState::Airborne(
                    PlayerSwinging {
                        current_jump_vel: (s.current_jump_vel + fx_mul_spec(
                            PLAYER_GRAVITY as int,
                            dt as int,
                        )) as i64,
                        ..s
                    },
                )
            }
        }),
{
    let s: PlayerSwinging = match *control {
        ControlState::Airborne(sw) => sw,
        ControlState::Grounded => {
            proof {
                assert(false);
            }
            PlayerSwinging {
                movement_speed: 0,
                movement_dir: Vec2Fx { x: 0, y: 0 },
                initial_jump_vel: 1,
                current_jump_vel: 0,
            }
        },
    };

    // Lateral dash, clamped so the player cannot cross the net.
    proof {
        crate::fixed::lemma_fx_mul_bound(s.movement_dir.x as int, s.movement_speed as int,
            2000int, SPEED_MAX as int);
        crate::fixed::lemma_fx_mul_bound(s.movement_dir.y as int, s.movement_speed as int,
            2000int, SPEED_MAX as int);
    }
    let vx: i64 = fx_mul(s.movement_dir.x, s.movement_speed);
    let vy: i64 = fx_mul(s.movement_dir.y, s.movement_speed);
    proof {
        crate::fixed::lemma_fx_mul_bound(vx as int, dt as int, 4_000_000int, DT_MAX as int);
        crate::fixed::lemma_fx_mul_bound(vy as int, dt as int, 4_000_000int, DT_MAX as int);
    }
    let px: i64 = pos.x + fx_mul(vx, dt);
    let py: i64 = pos.y + fx_mul(vy, dt);
    let cx: i64 = if is_left {
        min_i64(px, net_offset - PLAYER_SIZE / 2)
    } else {
        max_i64(px, net_offset + PLAYER_SIZE / 2)
    };
    *pos = Vec2Fx { x: cx, y: py };

    // Squash-stretch factor from the vertical velocity.
    let stretch: i64 = compute_stretch(s.initial_jump_vel, s.current_jump_vel);
    let scale: Vec2Fx = Vec2Fx { x: 1000 - stretch, y: 1000 + stretch };

    // Vertical arc: position advances by the current velocity, then the
    // velocity loses one frame of gravity.
    proof {
        crate::fixed::lemma_fx_mul_bound(s.current_jump_vel as int, dt as int, FX_MAX as int,
            DT_MAX as int);
        crate::fixed::lemma_fx_mul_bound(PLAYER_GRAVITY as int, dt as int, 3_150_000int,
            DT_MAX as int);
    }
    let new_y: i64 = *jump_y + fx_mul(s.current_jump_vel, dt);
    let new_vel: i64 = s.current_jump_vel + fx_mul(PLAYER_GRAVITY, dt);

    if new_y <= 0 {
        // Landing: restore control, leave movement fully eased along the
        // dash heading so post-landing deceleration continues.
        *jump_y = 0;
        movement.easing_time = movement.time_to_max_speed;
        movement.raw_dir = Vec2Fx { x: 0, y: 0 };
        movement.last_non_zero_raw_dir = s.movement_dir;
        *control = ControlState::Grounded;
        (scale, true)
    } else {
        *jump_y = new_y;
        *control = ControlState::Airborne(
            PlayerSwinging {
                movement_speed: s.movement_speed,
                movement_dir: s.movement_dir,
                initial_jump_vel: s.initial_jump_vel,
                current_jump_vel: new_vel,
            },
        );
        (scale, false)
    }
}

/// Computes the squash-stretch factor for the current point of the arc.
fn compute_stretch(initial: i64, current: i64) -> (r: i64)
    requires
        0 < initial <= FX_MAX,
        -1_990_000_000 <= current <= FX_MAX,
    ensures
        r == stretch_spec(initial as int, current as int),
        -175 <= r <= 350,
{
    let v: i64 = abs_i64(current);
    proof {
        crate::fixed::lemma_fx_mul_bound(initial as int, 800int, FX_MAX as int, 800int);
        crate::fixed::lemma_fx_mul_bound(initial as int, 300int, FX_MAX as int, 300int);
        vstd::arithmetic::mul::lemma_mul_nonnegative(initial as int, 800);
        vstd::arithmetic::mul::lemma_mul_nonnegative(initial as int, 300);
        crate::fixed::lemma_tdiv_bounds(initial as int * 800, 1000);
        crate::fixed::lemma_tdiv_bounds(initial as int * 300, 1000);
    }
    let stretch_vel: i64 = fx_mul(initial, 800);
    let squash_vel: i64 = fx_mul(initial, 300);
    let vel_span: i64 = fx_mul(PLAYER_JUMP_VEL_BASE, 2500);
    let launch_t: i64 = inv_lerp_fx(0, vel_span, initial);
    proof {
        crate::fixed::lemma_fx_mul_bound(launch_t as int, 350int, 1000int, 350int);
        vstd::arithmetic::mul::lemma_mul_nonnegative(launch_t as int, 350);
        crate::fixed::lemma_tdiv_bounds(launch_t as int * 350, 1000);
    }
    let max_stretch: i64 = fx_mul(launch_t, 350);
    let max_squash: i64 = div_nn(max_stretch, 2);
    if v > stretch_vel {
        proof {
            lemma_scaled_below(initial as int);
        }
        let t: i64 = 1000 - inv_lerp_fx(stretch_vel, initial, v);
        proof {
            crate::fixed::lemma_fx_mul_frac_le(t as int, max_stretch as int);
        }
        fx_mul(t, max_stretch)
    } else if v < squash_vel {
        let t: i64 = inv_lerp_fx(0, squash_vel, v);
        proof {
            crate::fixed::lemma_fx_mul_frac_le(t as int, max_squash as int + max_stretch as int);
        }
        fx_mul(t, max_squash + max_stretch) - max_squash
    } else {
        max_stretch
    }
}

/// Scaling a positive value by a proper fixed-point fraction keeps it
/// strictly below the original.
proof fn lemma_scaled_below(initial: int)
    requires
        0 < initial,
    ensures
        fx_mul_spec(initial, 800) < initial,
{
    assert(initial * 800 <= 1000 * initial - 1) by (nonlinear_arith)
        requires
            0 < initial,
    ;
    vstd::arithmetic::mul::lemma_mul_nonnegative(initial, 800);
    vstd::arithmetic::div_mod::lemma_div_is_ordered(initial * 800, 1000 * initial - 1, 1000);
    assert(1000 * initial - 1 == 1000 * (initial - 1) + 999) by (nonlinear_arith);
    vstd::arithmetic::div_mod::lemma_div_multiples_vanish_fancy(initial - 1, 999, 1000);
}

} // verus!
