use rally_core::aim::{aim_step, clamp_aim_dir, AimStepKind};
use rally_core::movement::move_player_step;
use rally_core::player::{
    Player, PlayerActionStatus, PlayerAim, PlayerAnimation, PlayerMovement, PlayerSwing,
};
use rally_core::vec2::Vec2Fx;

fn idle_swing() -> PlayerSwing {
    PlayerSwing { status: PlayerActionStatus::Idle, duration: 150, cooldown: 350, timer_remaining: 0 }
}

fn movement_with(raw: Vec2Fx, easing: i64) -> PlayerMovement {
    PlayerMovement {
        speed: 550_000,
        charging_speed: 125_000,
        easing_time: easing,
        time_to_max_speed: 110,
        raw_dir: raw,
        last_non_zero_raw_dir: Vec2Fx { x: 0, y: 0 },
    }
}

#[test]
fn movement_interior_step() {
    let player = Player::new(1, Vec2Fx { x: 1000, y: 0 }, 0, 1);
    let mut m = movement_with(Vec2Fx { x: 1000, y: 0 }, 110);
    let swing = idle_swing();
    let (pos, anim) = move_player_step(
        &player,
        &mut m,
        Vec2Fx { x: -100_000, y: 0 },
        &swing,
        16,
        0,
        Vec2Fx { x: 1_000_000, y: 1_000_000 },
    );
    // Fully eased: the player covers dir * speed * dt = 8.8 units.
    assert_eq!((pos.x, pos.y), (-91_200, 0));
    assert_eq!(anim, PlayerAnimation::Running);
    assert_eq!(m.easing_time, 110);
    assert_eq!((m.last_non_zero_raw_dir.x, m.last_non_zero_raw_dir.y), (1000, 0));
}

#[test]
fn movement_clamps_exactly_to_boundary() {
    // Continuous input pressing past the court edge leaves the player
    // exactly on the boundary, never beyond.
    let player = Player::new(1, Vec2Fx { x: 1000, y: 0 }, 0, 1);
    let mut m = movement_with(Vec2Fx { x: -1000, y: 0 }, 110);
    let swing = idle_swing();
    // Left player's area with this view and no net offset: x in
    // [-528, -28] world units.
    let edge = Vec2Fx { x: -528_000, y: 0 };
    let (pos, anim) = move_player_step(
        &player,
        &mut m,
        edge,
        &swing,
        16,
        0,
        Vec2Fx { x: 1_000_000, y: 1_000_000 },
    );
    assert_eq!((pos.x, pos.y), (-528_000, 0));
    assert_eq!(anim, PlayerAnimation::Idle);
}

#[test]
fn movement_keeps_last_heading_when_released() {
    let player = Player::new(2, Vec2Fx { x: -1000, y: 0 }, 0, 1);
    let mut m = movement_with(Vec2Fx { x: 0, y: 0 }, 110);
    m.last_non_zero_raw_dir = Vec2Fx { x: 0, y: 1000 };
    let swing = idle_swing();
    let (pos, _) = move_player_step(
        &player,
        &mut m,
        Vec2Fx { x: 100_000, y: 0 },
        &swing,
        16,
        0,
        Vec2Fx { x: 1_000_000, y: 1_000_000 },
    );
    // Decelerating: easing drops from 110 to 94, fraction 854 of the naive
    // step of 8.8 units along the remembered heading.
    assert_eq!(m.easing_time, 94);
    assert_eq!(pos.x, 100_000);
    assert_eq!(pos.y, 7515);
}

#[test]
fn movement_charging_walks() {
    let player = Player::new(1, Vec2Fx { x: 1000, y: 0 }, 0, 1);
    let mut m = movement_with(Vec2Fx { x: 1000, y: 0 }, 110);
    let swing = PlayerSwing {
        status: PlayerActionStatus::Charging(500),
        duration: 150,
        cooldown: 350,
        timer_remaining: 100,
    };
    let (pos, anim) = move_player_step(
        &player,
        &mut m,
        Vec2Fx { x: -100_000, y: 0 },
        &swing,
        16,
        0,
        Vec2Fx { x: 1_000_000, y: 1_000_000 },
    );
    // Charging speed 125 instead of 550: 2 units per 16 ms frame.
    assert_eq!(pos.x, -98_000);
    assert_eq!(anim, PlayerAnimation::Walking);
}

#[test]
fn aim_clamp_redirects_backward_to_forward() {
    // Left player (side sign -1): backward is -x, forward is +x.
    let t = clamp_aim_dir(Vec2Fx { x: -1000, y: 0 }, -1);
    assert_eq!((t.x, t.y), (1000, 0));
    // Right player (side sign 1): backward is +x, forward is -x.
    let t = clamp_aim_dir(Vec2Fx { x: 1000, y: 0 }, 1);
    assert_eq!((t.x, t.y), (-1000, 0));
}

#[test]
fn aim_clamp_stays_in_cone_and_unit_disc() {
    for &(x, y) in &[(0i64, 1000i64), (0, -1000), (-600, 800), (999, 40), (-1000, 0)] {
        let t = clamp_aim_dir(Vec2Fx { x, y }, 1);
        assert!(t.x * t.x + t.y * t.y <= 1_000_000);
        assert!(t.y.abs() <= 750);
        assert!(t.x <= -800);
    }
}

#[test]
fn aim_step_snaps_backward_input_to_forward() {
    // A raw backward-axis input for the left player yields the pure
    // forward direction once the rotation budget covers the distance.
    let mut aim = PlayerAim { raw_dir: Vec2Fx { x: -500, y: 0 }, dir: Vec2Fx { x: 0, y: 1000 } };
    let (target, kind) = aim_step(&mut aim, -1, 2000);
    assert_eq!(kind, AimStepKind::Snapped);
    assert_eq!((target.x, target.y), (1000, 0));
    assert_eq!((aim.dir.x, aim.dir.y), (1000, 0));
}

#[test]
fn aim_step_snaps_to_clamped_cone_target() {
    let mut aim = PlayerAim { raw_dir: Vec2Fx { x: 700, y: 700 }, dir: Vec2Fx { x: -1000, y: 0 } };
    let (target, kind) = aim_step(&mut aim, 1, 2000);
    assert_eq!(kind, AimStepKind::Snapped);
    assert_eq!((target.x, target.y), (-816, 577));
    assert_eq!((aim.dir.x, aim.dir.y), (-816, 577));
    assert!(aim.dir.x * aim.dir.x + aim.dir.y * aim.dir.y <= 1_000_000);
}

#[test]
fn aim_step_zero_input_keeps_direction() {
    let mut aim = PlayerAim { raw_dir: Vec2Fx { x: 0, y: 0 }, dir: Vec2Fx { x: -707, y: 707 } };
    let (_, kind) = aim_step(&mut aim, 1, 16);
    assert_eq!(kind, AimStepKind::NoInput);
    assert_eq!((aim.dir.x, aim.dir.y), (-707, 707));
}

#[test]
fn aim_step_rotates_within_budget() {
    // A one-millisecond frame gives no budget to turn, so the aim merely
    // renormalizes toward the target without reaching it.
    let mut aim = PlayerAim { raw_dir: Vec2Fx { x: 700, y: 700 }, dir: Vec2Fx { x: -1000, y: 0 } };
    let (_, kind) = aim_step(&mut aim, 1, 1);
    assert_eq!(kind, AimStepKind::Rotated);
    assert_eq!((aim.dir.x, aim.dir.y), (-1000, 0));
}

#[test]
fn movement_never_leaves_area_even_at_maximal_speed() {
    // Maximal speed and frame delta in every direction: the position stays
    // inside the side-specific area.
    let player = Player::new(2, Vec2Fx { x: -1000, y: 0 }, 0, 1);
    let dirs = [
        Vec2Fx { x: 2000, y: 0 },
        Vec2Fx { x: -2000, y: 0 },
        Vec2Fx { x: 0, y: 2000 },
        Vec2Fx { x: 0, y: -2000 },
        Vec2Fx { x: 2000, y: -2000 },
    ];
    for dir in dirs {
        let mut m = movement_with(dir, 2_000_000);
        m.speed = 2_000_000;
        let swing = idle_swing();
        let (pos, _) = move_player_step(
            &player,
            &mut m,
            Vec2Fx { x: 500_000, y: 400_000 },
            &swing,
            2000,
            100_000,
            Vec2Fx { x: 1_000_000, y: 1_000_000 },
        );
        // Right player's area with a net pushed 100 units right:
        // x in [128, 528], y in [-472, 472] world units.
        assert!(pos.x >= 128_000 && pos.x <= 528_000);
        assert!(pos.y >= -472_000 && pos.y <= 472_000);
    }
}

#[test]
fn aim_step_nonzero_input_always_produces_a_target() {
    // Even a tiny diagonal input is normalized and clamped; the update
    // never falls back to the no-input outcome.
    let mut aim = PlayerAim { raw_dir: Vec2Fx { x: 3, y: 4 }, dir: Vec2Fx { x: -1000, y: 0 } };
    let (_, kind) = aim_step(&mut aim, 1, 16);
    assert_ne!(kind, AimStepKind::NoInput);
    let mut aim2 = PlayerAim { raw_dir: Vec2Fx { x: 0, y: -1 }, dir: Vec2Fx { x: 1000, y: 0 } };
    let (_, kind2) = aim_step(&mut aim2, -1, 16);
    assert_ne!(kind2, AimStepKind::NoInput);
}
