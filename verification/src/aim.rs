//! The aim controller: converts raw aim input into a smoothed, angle-limited
//! facing direction. The clamped direction always lies in the closed unit
//! disc, within a per-side cone around the forward-across-the-net axis, and
//! an input along the pure backward axis is redirected straight forward.

use vstd::prelude::*;
use crate::fixed::{iabs, tdiv, clamp_i64, tdiv_i64, fx_mul};
use crate::fixed::{clamp_spec, fx_mul_spec};
use crate::vec2::{
    Vec2Fx, dist_sq_spec, is_ceil_sqrt, is_normalized_of, norm_sq_spec, normalize_or_zero,
    sqrt_ceil, lemma_normalized_in_unit_disc, DIR_MAX,
};
use crate::player::PlayerAim;

verus! {

/// Half-height of the aim cone: the net-relative axis of the clamped
/// direction is at most 0.75 of a unit before renormalization.
pub const AIM_CLAMP_Y: i64 = 750;

/// Maximum aim rotation per second: a 260-degree-per-second turn rate
/// expressed in milliradians, applied as a chord-length budget on the unit
/// circle.
pub const AIM_TURN_RATE: i64 = 4_538;

/// How an aim update resolved.
#[derive(Clone, Copy, PartialEq, Eq, Structural, Debug)]
pub enum AimStepKind {
    /// No input was requested; the aim direction persists.
    NoInput,
    /// The remaining distance was within this frame's rotation budget; the
    /// aim snapped exactly onto the clamped target.
    Snapped,
    /// The aim rotated by the frame's budget toward the clamped target.
    Rotated,
}

/// Clamps a normalized aim direction into the per-side cone. The result is
/// in the closed unit disc, always points across the net (forward component
/// at least 0.8 of a unit against the side sign), keeps its net-relative
/// component within the cone, and redirects a pure backward input exactly to
/// pure forward.
pub fn clamp_aim_dir(n: Vec2Fx, sign: i64) -> (t: Vec2Fx)
    requires
        sign == 1 || sign == -1,
        -1000 <= n.x <= 1000,
        -1000 <= n.y <= 1000,
    ensures
        norm_sq_spec(t) <= 1_000_000,
        iabs(t.y as int) <= AIM_CLAMP_Y,
        sign * t.x <= -800,
        -1000 <= t.x <= 1000,
        -1000 <= t.y <= 1000,
        n.y == 0 && n.x == sign * 1000 ==> t.x == -sign * 1000 && t.y == 0,
        // Off the backward axis, the result is exactly the per-side cone
        // clamp of the input, rescaled to the unit disc.
        !(n.y == 0 && n.x == sign * 1000) ==> is_normalized_of(
            t,
            Vec2Fx {
                x: (-sign * 1000) as i64,
                y: clamp_spec(n.y as int, -AIM_CLAMP_Y as int, AIM_CLAMP_Y as int) as i64,
            },
        ),
{
    if n.y == 0 && n.x == sign * 1000 {
        // Aiming into one's own court along the pure backward axis: aim
        // straight forward instead.
        return Vec2Fx { x: -sign * 1000, y: 0 };
    }
    let cx: i64 = -sign * 1000;
    let cy: i64 = clamp_i64(n.y, -AIM_CLAMP_Y, AIM_CLAMP_Y);
    proof {
        assert(cx as int * cx as int == 1_000_000) by (nonlinear_arith)
            requires
                cx as int == 1000 || cx as int == -1000,
        ;
        assert(0 <= cy as int * cy as int <= 562_500) by (nonlinear_arith)
            requires
                -750 <= cy as int <= 750,
        ;
    }
    let nsq: u64 = (cx * cx + cy * cy) as u64;
    let m: u64 = sqrt_ceil(nsq);
    proof {
        assert(nsq == 1_000_000 + cy as int * cy as int);
        assert(m as int >= 1000) by (nonlinear_arith)
            requires
                m as int * m as int >= 1_000_000,
                m as int >= 0,
        ;
        assert(m as int <= 1250) by (nonlinear_arith)
            requires
                (m as int - 1) * (m as int - 1) < 1_562_500,
                m as int >= 1,
        ;
    }
    let mi: i64 = m as i64;
    let tx: i64 = tdiv_i64(cx * 1000, mi);
    let ty: i64 = tdiv_i64(cy * 1000, mi);
    proof {
        lemma_normalized_in_unit_disc(cx as int, cy as int, mi as int, tx as int, ty as int);
        // The net-relative component shrinks under normalization here,
        // since the divisor is at least one unit.
        lemma_unit_divisor_shrinks(cy as int, mi as int);
        assert(ty as int == tdiv(cy as int * 1000, mi as int));
        // The forward component keeps at least 0.8 of a unit: the divisor
        // is at most 1250.
        vstd::arithmetic::div_mod::lemma_div_is_ordered_by_denominator(1_000_000, mi as int, 1250);
        if sign == 1 {
            assert(cx as int * 1000 == -1_000_000);
            assert(tx as int == -(1_000_000int / mi as int));
        } else {
            assert(cx as int * 1000 == 1_000_000);
            assert(tx as int == 1_000_000int / mi as int);
        }
        assert(norm_sq_spec(Vec2Fx { x: cx, y: cy }) == nsq);
        assert(is_ceil_sqrt(mi as int, norm_sq_spec(Vec2Fx { x: cx, y: cy })));
        assert(is_normalized_of(Vec2Fx { x: tx, y: ty }, Vec2Fx { x: cx, y: cy }));
    }
    Vec2Fx { x: tx, y: ty }
}

/// Dividing a component scaled by one unit by a divisor of at least one
/// unit cannot grow its magnitude.
proof fn lemma_unit_divisor_shrinks(c: int, m: int)
    requires
        m >= 1000,
    ensures
        iabs(tdiv(c * 1000, m)) <= iabs(c),
{
    assert(iabs(c * 1000) == iabs(c) * 1000) by (nonlinear_arith);
    vstd::arithmetic::div_mod::lemma_div_is_ordered_by_denominator(iabs(c) * 1000, 1000, m);
    vstd::arithmetic::div_mod::lemma_div_by_multiple(iabs(c), 1000);
    vstd::arithmetic::div_mod::lemma_div_pos_is_pos(iabs(c) * 1000, m);
    if c * 1000 >= 0 {
        assert(tdiv(c * 1000, m) == (iabs(c) * 1000) / m);
    } else {
        assert(tdiv(c * 1000, m) == -((iabs(c) * 1000) / m));
    }
}

/// One frame of the aim controller. The raw input is normalized; a zero
/// input leaves the aim unchanged. Otherwise the input is clamped into the
/// per-side cone and the aim rotates toward that target, snapping onto it
/// when the remaining distance is within the frame's rotation budget
/// (turn rate, scaled by delta time and raw input magnitude). The stored
/// direction never leaves the closed unit disc.
pub fn aim_step(aim: &mut PlayerAim, sign: i64, dt: i64) -> (r: (Vec2Fx, AimStepKind))
    requires
        sign == 1 || sign == -1,
        0 <= dt <= 2_000,
        -DIR_MAX <= old(aim).raw_dir.x <= DIR_MAX,
        -DIR_MAX <= old(aim).raw_dir.y <= DIR_MAX,
        norm_sq_spec(old(aim).dir) <= 1_000_000,
        -1000 <= old(aim).dir.x <= 1000,
        -1000 <= old(aim).dir.y <= 1000,
    ensures
        final(aim).raw_dir == old(aim).raw_dir,
        norm_sq_spec(final(aim).dir) <= 1_000_000,
        -1000 <= final(aim).dir.x <= 1000,
        -1000 <= final(aim).dir.y <= 1000,
        r.1 == AimStepKind::NoInput ==> final(aim).dir == old(aim).dir,
        old(aim).raw_dir.x == 0 && old(aim).raw_dir.y == 0 ==> r.1 == AimStepKind::NoInput,
        r.1 != AimStepKind::NoInput ==> {
            &&& norm_sq_spec(r.0) <= 1_000_000
            &&& iabs(r.0.y as int) <= AIM_CLAMP_Y
            &&& sign * r.0.x <= -800
        },
        // A pure backward-axis input yields the pure forward target.
        r.1 != AimStepKind::NoInput && old(aim).raw_dir.y == 0 && sign * old(aim).raw_dir.x > 0
            ==> r.0.x == -sign * 1000 && r.0.y == 0,
        r.1 == AimStepKind::Snapped ==> final(aim).dir == r.0,
        // A non-zero raw input always produces a clamped target: the update
        // never falls back to the no-input outcome.
        !(old(aim).raw_dir.x == 0 && old(aim).raw_dir.y == 0) ==> r.1 != AimStepKind::NoInput,
        // The rotation budget is the turn rate scaled by delta time and the
        // raw input's magnitude; the aim snaps exactly when the remaining
        // chord distance is within it, and otherwise rotates by exactly the
        // budget's share of the remaining chord, rescaled to the unit disc.
        r.1 != AimStepKind::NoInput ==> exists|len: int, d: int|
            #![trigger is_ceil_sqrt(len, norm_sq_spec(old(aim).raw_dir)), is_ceil_sqrt(
                d,
                dist_sq_spec(r.0, old(aim).dir),
            )]
            {
                let b = fx_mul_spec(AIM_TURN_RATE as int, fx_mul_spec(dt as int, len));
                &&& is_ceil_sqrt(len, norm_sq_spec(old(aim).raw_dir))
                &&& is_ceil_sqrt(d, dist_sq_spec(r.0, old(aim).dir))
                &&& ((r.1 == AimStepKind::Snapped) <==> d <= b)
                &&& (r.1 == AimStepKind::Rotated ==> is_normalized_of(
                    final(aim).dir,
                    Vec2Fx {
                        x: (old(aim).dir.x + tdiv((r.0.x - old(aim).dir.x) * b, d)) as i64,
                        y: (old(aim).dir.y + tdiv((r.0.y - old(aim).dir.y) * b, d)) as i64,
                    },
                ))
            },
{
    let n: Vec2Fx = normalize_or_zero(aim.raw_dir);
    if n.is_zero() {
        return (Vec2Fx { x: 0, y: 0 }, AimStepKind::NoInput);
    }
    let t: Vec2Fx = clamp_aim_dir(n, sign);

    // Rotation budget for this frame: turn rate, scaled by delta time and
    // by the raw input's magnitude.
    proof {
        crate::vec2::lemma_dir_norm_sq_bound(aim.raw_dir.x as int, aim.raw_dir.y as int);
    }
    let raw_nsq: u64 = (aim.raw_dir.x * aim.raw_dir.x + aim.raw_dir.y * aim.raw_dir.y) as u64;
    let raw_len: i64 = sqrt_ceil(raw_nsq) as i64;
    proof {
        assert(raw_len as int <= 150_000) by (nonlinear_arith)
            requires
                (raw_len as int - 1) * (raw_len as int - 1) < 20_000_000_000,
                raw_len as int >= 1,
        ;
        crate::fixed::lemma_fx_mul_bound(dt as int, raw_len as int, 2_000int, 150_000int);
    }
    let scale: i64 = fx_mul(dt, raw_len);
    proof {
        crate::fixed::lemma_fx_mul_bound(AIM_TURN_RATE as int, scale as int, 4_538int,
            300_000int);
        crate::fixed::lemma_tdiv_bounds(dt as int * raw_len as int, 1000);
        crate::fixed::lemma_tdiv_bounds(AIM_TURN_RATE as int * scale as int, 1000);
        vstd::arithmetic::mul::lemma_mul_nonnegative(dt as int, raw_len as int);
        vstd::arithmetic::mul::lemma_mul_nonnegative(AIM_TURN_RATE as int, scale as int);
    }
    let budget: i64 = fx_mul(AIM_TURN_RATE, scale);

    // Remaining distance to the target, as chord length.
    let dx: i64 = t.x - aim.dir.x;
    let dy: i64 = t.y - aim.dir.y;
    proof {
        assert(0 <= dx as int * dx as int <= 4_000_000 && 0 <= dy as int * dy as int
            <= 4_000_000) by (nonlinear_arith)
            requires
                -2000 <= dx as int <= 2000,
                -2000 <= dy as int <= 2000,
        ;
    }
    let dsq: u64 = (dx * dx + dy * dy) as u64;
    let d: i64 = sqrt_ceil(dsq) as i64;
    proof {
        assert(raw_nsq == norm_sq_spec(aim.raw_dir));
        assert(is_ceil_sqrt(raw_len as int, norm_sq_spec(aim.raw_dir)));
        assert(dsq == dist_sq_spec(t, aim.dir));
        assert(is_ceil_sqrt(d as int, dist_sq_spec(t, aim.dir)));
        assert(budget as int == fx_mul_spec(AIM_TURN_RATE as int, fx_mul_spec(
            dt as int,
            raw_len as int,
        )));
    }
    if d <= budget {
        // Within this frame's budget: snap onto the target.
        aim.dir = t;
        (t, AimStepKind::Snapped)
    } else {
        // Step toward the target by the budget's share of the remaining
        // distance, then rescale to the unit disc.
        proof {
            assert(-3_000_000_000 <= dx as int * budget as int <= 3_000_000_000
                && -3_000_000_000 <= dy as int * budget as int <= 3_000_000_000)
                by (nonlinear_arith)
                requires
                    -2000 <= dx as int <= 2000,
                    -2000 <= dy as int <= 2000,
                    0 <= budget as int <= 1_361_400,
            ;
            lemma_partial_step_bounded(dx as int, budget as int, d as int);
            lemma_partial_step_bounded(dy as int, budget as int, d as int);
        }
        let sx: i64 = tdiv_i64(dx * budget, d);
        let sy: i64 = tdiv_i64(dy * budget, d);
        let cand: Vec2Fx = Vec2Fx { x: aim.dir.x + sx, y: aim.dir.y + sy };
        proof {
            assert(cand.x as int == aim.dir.x + tdiv((t.x - aim.dir.x) * budget as int, d as int));
            assert(cand.y as int == aim.dir.y + tdiv((t.y - aim.dir.y) * budget as int, d as int));
        }
        let rotated: Vec2Fx = normalize_or_zero(cand);
        aim.dir = rotated;
        (t, AimStepKind::Rotated)
    }
}

/// A step scaled by `b / d` with `0 <= b < d` cannot exceed the full step.
proof fn lemma_partial_step_bounded(c: int, b: int, d: int)
    requires
        0 <= b < d,
        -2000 <= c <= 2000,
    ensures
        iabs(tdiv(c * b, d)) <= 2000,
{
    assert(iabs(c * b) == iabs(c) * b) by (nonlinear_arith)
        requires
            b >= 0,
    ;
    assert(iabs(c) * b <= 2000 * d) by (nonlinear_arith)
        requires
            0 <= iabs(c) <= 2000,
            0 <= b < d,
    ;
    vstd::arithmetic::div_mod::lemma_div_is_ordered(iabs(c) * b, 2000 * d, d);
    vstd::arithmetic::div_mod::lemma_div_by_multiple(2000, d);
    vstd::arithmetic::div_mod::lemma_div_pos_is_pos(iabs(c) * b, d);
    if c * b >= 0 {
        assert(iabs(tdiv(c * b, d)) == iabs(c * b) / d);
    } else {
        assert(iabs(tdiv(c * b, d)) == iabs(c * b) / d);
    }
}

} // verus!
