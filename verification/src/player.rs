//! Player identity and per-player state records: movement, aim, the swing
//! action with its timer, the transient airborne state, and the derived
//! shadow-scale helper.

use vstd::prelude::*;
use crate::vec2::Vec2Fx;
use crate::fixed::{fx_mul_spec, fx_mul, FX_MAX};
use crate::court::CourtRegion;

verus! {

/// Player sprite extent, in fixed-point world units.
pub const PLAYER_SIZE: i64 = 56_000;

/// Downward acceleration applied to an airborne player each second.
pub const PLAYER_GRAVITY: i64 = -3_150_000;

/// Base vertical launch speed for the swing jump.
pub const PLAYER_JUMP_VEL_BASE: i64 = 400_000;

/// Smallest jump height a swing reaction may use.
pub const PLAYER_JUMP_HEIGHT_MIN: i64 = 60_000;

/// Radius of the aim ring around a player; a ball inside it can be hit.
pub const AIM_RING_RADIUS: i64 = 115_000;

/// Optimal distance between player and ball at the moment of a swing.
pub const PLAYER_SWING_DISTANCE: i64 = 50_000;

/// Whether a player id denotes the left-side player.
pub fn is_left_player_id(id: usize) -> (r: bool)
    ensures
        r == (id == 1),
{
    id == 1
}

/// A player: one of exactly two ids, a fixed side, and the ids of the two
/// auxiliary aim entities.
#[derive(Clone, Copy, PartialEq, Eq, Structural, Debug)]
pub struct Player {
    pub id: usize,
    pub aim_e: usize,
    pub aim_charge_e: usize,
    pub side: i64,
}

impl Player {
    /// Builds a player; the side sign is opposite the initial facing
    /// direction (the left player starts facing right).
    pub fn new(id: usize, initial_dir: Vec2Fx, aim_e: usize, aim_charge_e: usize) -> (r: Player)
        ensures
            r.id == id,
            r.aim_e == aim_e,
            r.aim_charge_e == aim_charge_e,
            initial_dir.x > 0 ==> r.side == -1,
            initial_dir.x <= 0 ==> r.side == 1,
    {
        Player {
            id,
            aim_e,
            aim_charge_e,
            side: if initial_dir.x > 0 {
                -1
            } else {
                1
            },
        }
    }

    /// Whether this player holds the left side.
    pub fn is_left(&self) -> (r: bool)
        ensures
            r == is_left_spec(*self),
    {
        is_left_player_id(self.id)
    }

    /// The side sign as a value: -1 for the left player, 1 for the right.
    pub fn get_sign(&self) -> (r: i64)
        ensures
            r == if is_left_spec(*self) { -1int } else { 1int },
    {
        if self.is_left() {
            -1
        } else {
            1
        }
    }
}

/// Whether a player holds the left side, by id.
pub open spec fn is_left_spec(p: Player) -> bool {
    p.id == 1
}

/// Player animation states driven by the simulation core.
#[derive(Clone, Copy, PartialEq, Eq, Structural, Debug)]
pub enum PlayerAnimation {
    Idle,
    Walking,
    Running,
    Swinging,
    Landing,
}

/// The swing action's status; charge strength is a fixed-point fraction in
/// `[0, 1000]`.
#[derive(Clone, Copy, PartialEq, Eq, Structural, Debug)]
pub enum PlayerActionStatus {
    Idle,
    Charging(i64),
    Active(i64),
    Cooldown,
}

/// Whether a swing is in its charging sub-state.
pub open spec fn swing_charging_spec(s: PlayerSwing) -> bool {
    s.status matches PlayerActionStatus::Charging(_)
}

/// The swing action: status, fixed durations, and a countdown timer, all
/// times in fixed-point seconds.
#[derive(Clone, Copy, PartialEq, Eq, Structural, Debug)]
pub struct PlayerSwing {
    pub status: PlayerActionStatus,
    pub duration: i64,
    pub cooldown: i64,
    pub timer_remaining: i64,
}

impl PlayerSwing {
    /// Builds an idle swing with the given durations and an elapsed timer.
    pub fn new(duration: i64, cooldown: i64) -> (r: PlayerSwing)
        ensures
            r.status == PlayerActionStatus::Idle,
            r.duration == duration,
            r.cooldown == cooldown,
            r.timer_remaining == 0,
    {
        PlayerSwing { status: PlayerActionStatus::Idle, duration, cooldown, timer_remaining: 0 }
    }

    /// Consumes the action: the status becomes Cooldown and the timer is
    /// rewound to the cooldown duration.
    pub fn start_cooldown(&mut self)
        ensures
            final(self).status == PlayerActionStatus::Cooldown,
            final(self).timer_remaining == old(self).cooldown,
            final(self).duration == old(self).duration,
            final(self).cooldown == old(self).cooldown,
    {
        self.status = PlayerActionStatus::Cooldown;
        self.timer_remaining = self.cooldown;
    }

    /// Advances the countdown timer by a frame delta, stopping at zero.
    pub fn tick_timer(&mut self, dt: i64)
        requires
            0 <= dt,
            0 <= old(self).timer_remaining,
        ensures
            final(self).timer_remaining == if old(self).timer_remaining >= dt {
                old(self).timer_remaining - dt
            } else {
                0int
            },
            final(self).status == old(self).status,
            final(self).duration == old(self).duration,
            final(self).cooldown == old(self).cooldown,
    {
        if self.timer_remaining >= dt {
            self.timer_remaining = self.timer_remaining - dt;
        } else {
            self.timer_remaining = 0;
        }
    }

    /// Whether the countdown has elapsed.
    pub fn timer_finished(&self) -> (r: bool)
        ensures
            r == (self.timer_remaining <= 0),
    {
        self.timer_remaining <= 0
    }
}

/// Per-player movement state: speeds, the easing accumulator, and the raw
/// and last non-zero input directions.
#[derive(Clone, Copy, PartialEq, Eq, Structural, Debug)]
pub struct PlayerMovement {
    pub speed: i64,
    pub charging_speed: i64,
    pub easing_time: i64,
    pub time_to_max_speed: i64,
    pub raw_dir: Vec2Fx,
    pub last_non_zero_raw_dir: Vec2Fx,
}

/// Per-player aim state: the raw input direction and the derived clamped
/// facing direction used as the shot direction.
#[derive(Clone, Copy, PartialEq, Eq, Structural, Debug)]
pub struct PlayerAim {
    pub raw_dir: Vec2Fx,
    pub dir: Vec2Fx,
}

/// The transient airborne state of a player whose swing has resolved: the
/// lateral dash and the vertical jump arc.
#[derive(Clone, Copy, PartialEq, Eq, Structural, Debug)]
pub struct PlayerSwinging {
    pub movement_speed: i64,
    pub movement_dir: Vec2Fx,
    pub initial_jump_vel: i64,
    pub current_jump_vel: i64,
}

/// Whether a player is under normal control or locked in the airborne swing
/// reaction; a player has at most one airborne state at a time by
/// construction.
#[derive(Clone, Copy, PartialEq, Eq, Structural, Debug)]
pub enum ControlState {
    Grounded,
    Airborne(PlayerSwinging),
}

/// A player's score record.
#[derive(Clone, Copy, PartialEq, Eq, Structural, Debug)]
pub struct PlayerScore {
    pub points: u32,
}

/// The state records a freshly spawned player carries.
#[derive(Clone, Copy, PartialEq, Eq, Structural, Debug)]
pub struct PlayerBundle {
    pub player: Player,
    pub movement: PlayerMovement,
    pub swing: PlayerSwing,
    pub score: PlayerScore,
}

impl PlayerBundle {
    /// Builds the records for a fresh player with the standard tuning:
    /// base speed 550, charging speed 125, 0.11 s to full easing, a 0.15 s
    /// swing window and a 0.35 s cooldown.
    pub fn new(id: usize, initial_dir: Vec2Fx, aim_e: usize, aim_charge_e: usize) -> (r:
        PlayerBundle)
        ensures
            r.player.id == id,
            r.player.aim_e == aim_e,
            r.player.aim_charge_e == aim_charge_e,
            initial_dir.x > 0 ==> r.player.side == -1,
            initial_dir.x <= 0 ==> r.player.side == 1,
            r.movement.speed == 550_000,
            r.movement.charging_speed == 125_000,
            r.movement.time_to_max_speed == 110,
            r.movement.easing_time == 0,
            r.movement.raw_dir == (Vec2Fx { x: 0, y: 0 }),
            r.movement.last_non_zero_raw_dir == (Vec2Fx { x: 0, y: 0 }),
            r.swing.status == PlayerActionStatus::Idle,
            r.swing.duration == 150,
            r.swing.cooldown == 350,
            r.score.points == 0,
    {
        PlayerBundle {
            player: Player::new(id, initial_dir, aim_e, aim_charge_e),
            movement: PlayerMovement {
                speed: 550_000,
                charging_speed: 125_000,
                easing_time: 0,
                time_to_max_speed: 110,
                raw_dir: Vec2Fx { x: 0, y: 0 },
                last_non_zero_raw_dir: Vec2Fx { x: 0, y: 0 },
            },
            swing: PlayerSwing::new(150, 350),
            score: PlayerScore { points: 0 },
        }
    }
}

/// Where a player spawns and which way it initially faces: a quarter of the
/// view width from the centre, on the row determined by the initial serve
/// region, facing across the net.
pub fn initial_player_placement(id: usize, view_width: i64, region: CourtRegion) -> (r: (
    Vec2Fx,
    Vec2Fx,
))
    requires
        0 <= view_width <= FX_MAX,
    ensures
        r.0.x == if id == 1 { -(view_width as int / 4) } else { view_width as int / 4 },
        ({
            let is_serving = (region == CourtRegion::TopLeft || region == CourtRegion::BottomLeft)
                == (id == 1);
            let bottom_row = (is_serving && (region == CourtRegion::BottomLeft || region
                == CourtRegion::BottomRight)) || (!is_serving && (region == CourtRegion::TopLeft
                || region == CourtRegion::TopRight));
            r.0.y == if bottom_row {
                -150_000int
            } else {
                150_000int
            }
        }),
        r.1 == if id == 1 {
            Vec2Fx { x: 1000i64, y: 0i64 }
        } else {
            Vec2Fx { x: -1000i64, y: 0i64 }
        },
{
    let quarter: i64 = view_width / 4;
    let x: i64 = if id == 1 {
        -quarter
    } else {
        quarter
    };
    let is_left: bool = id == 1;
    let is_serving: bool = region.is_left() == is_left;
    let mut y: i64 = 150_000;
    if (is_serving && region.is_bottom()) || (!is_serving && region.is_top()) {
        y = -150_000;
    }
    let dir: Vec2Fx = if is_left {
        Vec2Fx { x: 1000, y: 0 }
    } else {
        Vec2Fx { x: -1000, y: 0 }
    };
    (Vec2Fx { x, y }, dir)
}

/// A derived-transform helper: the following entity's scale is the followed
/// entity's scale times a fixed multiplier.
#[derive(Clone, Copy, PartialEq, Eq, Structural, Debug)]
pub struct FollowScale {
    pub followed_e: usize,
    pub scale_multiplier: Vec2Fx,
}

/// One follow-scale update: each component of the followed scale is
/// multiplied by the corresponding multiplier component.
pub fn follow_scale_step(followed_scale: Vec2Fx, multiplier: Vec2Fx) -> (r: Vec2Fx)
    requires
        -FX_MAX <= followed_scale.x <= FX_MAX,
        -FX_MAX <= followed_scale.y <= FX_MAX,
        -FX_MAX <= multiplier.x <= FX_MAX,
        -FX_MAX <= multiplier.y <= FX_MAX,
    ensures
        r.x == fx_mul_spec(followed_scale.x as int, multiplier.x as int),
        r.y == fx_mul_spec(followed_scale.y as int, multiplier.y as int),
{
    Vec2Fx { x: fx_mul(followed_scale.x, multiplier.x), y: fx_mul(followed_scale.y, multiplier.y) }
}

} // verus!
