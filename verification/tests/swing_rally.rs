use rally_core::ball::{
    Ball, BallBounce, BallStatus, BALL_MAX_HEIGHT, BALL_MAX_SPEED, BALL_MIN_HEIGHT,
    BALL_MIN_SPEED,
};
use rally_core::court::CourtRegion;
use rally_core::jump::airborne_step;
use rally_core::player::{
    ControlState, Player, PlayerActionStatus, PlayerAim, PlayerMovement, PlayerSwing,
    PlayerSwinging, PLAYER_JUMP_VEL_BASE,
};
use rally_core::rally::{
    apply_bounce_verdict, bounce_verdict, BounceVerdict, LossReason,
};
use rally_core::swing::{
    compute_ball_hit, resolve_swing, update_status_on_hit, BallWorldEntry, SwingOutcome,
};
use rally_core::vec2::Vec2Fx;

fn right_player() -> Player {
    Player::new(2, Vec2Fx { x: -1000, y: 0 }, 20, 21)
}

fn serve_entry(server: usize) -> BallWorldEntry {
    BallWorldEntry {
        ball: Ball {
            speed: 0,
            dir: Vec2Fx { x: 0, y: 0 },
            predicted_bounce_pos: Vec2Fx { x: 0, y: 0 },
            region: CourtRegion::TopRight,
        },
        status: BallStatus::Serve { fault_count: 0, region: CourtRegion::TopRight, player_id: server },
        bounce: BallBounce { height: 100_000, target_height: 100_000, gravity_mult: 1000 },
        pos: Vec2Fx { x: 400_000, y: 0 },
        bounce_pos: Vec2Fx { x: 400_000, y: 0 },
        bounce_local_y: 100_000,
    }
}

fn default_movement() -> PlayerMovement {
    PlayerMovement {
        speed: 550_000,
        charging_speed: 125_000,
        easing_time: 0,
        time_to_max_speed: 110,
        raw_dir: Vec2Fx { x: 0, y: 0 },
        last_non_zero_raw_dir: Vec2Fx { x: 0, y: 0 },
    }
}

#[test]
fn volleyed_serve_becomes_rally_tagged_to_hitter() {
    // A ball still in Serve status, hit by the non-serving player, becomes
    // a Rally tagged to that player; the swing ends in Cooldown and the
    // player goes airborne.
    let player = right_player();
    let aim = PlayerAim { raw_dir: Vec2Fx { x: 0, y: 0 }, dir: Vec2Fx { x: -1000, y: 0 } };
    let mut swing = PlayerSwing {
        status: PlayerActionStatus::Active(1000),
        duration: 150,
        cooldown: 350,
        timer_remaining: 100,
    };
    let movement = default_movement();
    let mut control = ControlState::Grounded;
    let mut balls = vec![serve_entry(1)];
    let outcome = resolve_swing(
        &player,
        &aim,
        &mut swing,
        &movement,
        &mut control,
        &mut balls,
        Vec2Fx { x: 450_000, y: 0 },
        0,
        600_000,
    );
    match outcome {
        SwingOutcome::Hit(evt) => {
            assert_eq!(evt.ball_index, 0);
            assert_eq!(evt.player_id, 2);
        }
        other => panic!("expected a hit, got {:?}", other),
    }
    assert_eq!(balls[0].status, BallStatus::Rally { player_id: 2 });
    assert_eq!(swing.status, PlayerActionStatus::Cooldown);
    assert_eq!(swing.timer_remaining, 350);
    assert!(matches!(control, ControlState::Airborne(_)));
    // Full charge with no carried momentum lands exactly on the speed cap.
    assert_eq!(balls[0].ball.speed, BALL_MAX_SPEED);
    assert!(balls[0].bounce.height >= BALL_MIN_HEIGHT);
    assert!(balls[0].bounce.height <= BALL_MAX_HEIGHT);
    assert_eq!((balls[0].ball.dir.x, balls[0].ball.dir.y), (-1000, 0));
    // The ball sat exactly at the optimal swing distance, so the dash
    // heads away from it.
    match control {
        ControlState::Airborne(s) => {
            assert_eq!((s.movement_dir.x, s.movement_dir.y), (1000, 0));
        }
        ControlState::Grounded => panic!("player should be airborne after a hit"),
    }
}

#[test]
fn swing_touches_only_the_first_ball_in_range() {
    let player = right_player();
    let aim = PlayerAim { raw_dir: Vec2Fx { x: 0, y: 0 }, dir: Vec2Fx { x: -1000, y: 0 } };
    let mut swing = PlayerSwing {
        status: PlayerActionStatus::Active(800),
        duration: 150,
        cooldown: 350,
        timer_remaining: 100,
    };
    let movement = default_movement();
    let mut control = ControlState::Grounded;
    let mut balls = vec![serve_entry(1), serve_entry(1)];
    let before = balls[1];
    let outcome = resolve_swing(
        &player,
        &aim,
        &mut swing,
        &movement,
        &mut control,
        &mut balls,
        Vec2Fx { x: 450_000, y: 0 },
        0,
        600_000,
    );
    assert!(matches!(outcome, SwingOutcome::Hit(_)));
    // The second in-range ball is untouched.
    assert_eq!(balls[1], before);
}

#[test]
fn swing_out_of_range_misses_and_still_cools_down() {
    let player = right_player();
    let aim = PlayerAim { raw_dir: Vec2Fx { x: 0, y: 0 }, dir: Vec2Fx { x: -1000, y: 0 } };
    let mut swing = PlayerSwing {
        status: PlayerActionStatus::Active(500),
        duration: 150,
        cooldown: 350,
        timer_remaining: 100,
    };
    let movement = default_movement();
    let mut control = ControlState::Grounded;
    // The ball and its bounce indicator are both far from the player.
    let mut balls = vec![serve_entry(1)];
    let outcome = resolve_swing(
        &player,
        &aim,
        &mut swing,
        &movement,
        &mut control,
        &mut balls,
        Vec2Fx { x: -400_000, y: 0 },
        0,
        600_000,
    );
    assert_eq!(outcome, SwingOutcome::Missed);
    assert_eq!(swing.status, PlayerActionStatus::Cooldown);
    assert_eq!(balls[0], serve_entry(1));
    match control {
        ControlState::Airborne(s) => {
            assert_eq!(s.initial_jump_vel, PLAYER_JUMP_VEL_BASE);
            assert_eq!(s.current_jump_vel, PLAYER_JUMP_VEL_BASE);
            assert_eq!(s.movement_speed, 333_333);
            // Idle movement input: the dash follows the aim direction.
            assert_eq!((s.movement_dir.x, s.movement_dir.y), (-1000, 0));
        }
        ControlState::Grounded => panic!("player should be airborne after a miss"),
    }
}

#[test]
fn missed_swing_dashes_along_movement_heading() {
    // With a live movement input the miss dash follows that input,
    // normalized, not the aim direction.
    let player = right_player();
    let aim = PlayerAim { raw_dir: Vec2Fx { x: 0, y: 0 }, dir: Vec2Fx { x: -1000, y: 0 } };
    let mut swing = PlayerSwing {
        status: PlayerActionStatus::Active(500),
        duration: 150,
        cooldown: 350,
        timer_remaining: 100,
    };
    let mut movement = default_movement();
    movement.raw_dir = Vec2Fx { x: 600, y: 800 };
    let mut control = ControlState::Grounded;
    let mut balls = vec![];
    let outcome = resolve_swing(
        &player,
        &aim,
        &mut swing,
        &movement,
        &mut control,
        &mut balls,
        Vec2Fx { x: 450_000, y: 0 },
        0,
        600_000,
    );
    assert_eq!(outcome, SwingOutcome::Missed);
    match control {
        ControlState::Airborne(s) => {
            assert_eq!((s.movement_dir.x, s.movement_dir.y), (600, 800));
        }
        ControlState::Grounded => panic!("player should be airborne after a miss"),
    }
}

#[test]
fn swing_not_active_changes_nothing() {
    let player = right_player();
    let aim = PlayerAim { raw_dir: Vec2Fx { x: 0, y: 0 }, dir: Vec2Fx { x: -1000, y: 0 } };
    let mut swing = PlayerSwing {
        status: PlayerActionStatus::Charging(400),
        duration: 150,
        cooldown: 350,
        timer_remaining: 0,
    };
    let movement = default_movement();
    let mut control = ControlState::Grounded;
    let mut balls = vec![serve_entry(1)];
    let outcome = resolve_swing(
        &player,
        &aim,
        &mut swing,
        &movement,
        &mut control,
        &mut balls,
        Vec2Fx { x: 450_000, y: 0 },
        0,
        600_000,
    );
    assert_eq!(outcome, SwingOutcome::NotActive);
    assert_eq!(swing.status, PlayerActionStatus::Charging(400));
    assert_eq!(control, ControlState::Grounded);
    assert_eq!(balls[0], serve_entry(1));
}

#[test]
fn hit_speed_stays_within_bounds() {
    // Weakest possible hit on a still ball lands exactly on the minimum
    // speed; the apex height stays within its bounds.
    let mut ball = Ball {
        speed: 0,
        dir: Vec2Fx { x: 0, y: 0 },
        predicted_bounce_pos: Vec2Fx { x: 0, y: 0 },
        region: CourtRegion::TopRight,
    };
    let mut bounce = BallBounce { height: 0, target_height: 0, gravity_mult: 1000 };
    let mut status = BallStatus::Rally { player_id: 1 };
    compute_ball_hit(
        &mut ball,
        &mut bounce,
        &mut status,
        0,
        Vec2Fx { x: -1000, y: 0 },
        Vec2Fx { x: 400_000, y: 0 },
        2,
        1,
        0,
        600_000,
    );
    assert_eq!(ball.speed, BALL_MIN_SPEED);
    assert!(bounce.height >= BALL_MIN_HEIGHT && bounce.height <= BALL_MAX_HEIGHT);
    assert_eq!(bounce.target_height, bounce.height);
    assert_eq!(status, BallStatus::Rally { player_id: 2 });
    // Fastest hit with carried momentum is capped at the maximum speed.
    let mut ball2 = Ball { speed: BALL_MAX_SPEED, ..ball };
    let mut bounce2 = BallBounce { height: 250_000, target_height: 250_000, gravity_mult: 1500 };
    let mut status2 = BallStatus::Rally { player_id: 2 };
    compute_ball_hit(
        &mut ball2,
        &mut bounce2,
        &mut status2,
        1000,
        Vec2Fx { x: 1000, y: 0 },
        Vec2Fx { x: -400_000, y: 0 },
        1,
        -1,
        0,
        600_000,
    );
    assert_eq!(ball2.speed, BALL_MAX_SPEED);
    assert!(bounce2.height >= BALL_MIN_HEIGHT && bounce2.height <= BALL_MAX_HEIGHT);
}

#[test]
fn status_transitions_on_hit() {
    let region = CourtRegion::TopLeft;
    let mut s = BallStatus::Serve { fault_count: 0, region, player_id: 1 };
    update_status_on_hit(&mut s, 1);
    // The server touching its own serve leaves the status alone.
    assert_eq!(s, BallStatus::Serve { fault_count: 0, region, player_id: 1 });
    update_status_on_hit(&mut s, 2);
    assert_eq!(s, BallStatus::Rally { player_id: 2 });
    update_status_on_hit(&mut s, 1);
    assert_eq!(s, BallStatus::Rally { player_id: 1 });
    let mut used = BallStatus::Used;
    update_status_on_hit(&mut used, 1);
    assert_eq!(used, BallStatus::Used);
}

#[test]
fn landing_restores_control() {
    // Once the vertical position reaches the ground the airborne state is
    // removed, movement input is reset and left fully eased along the dash
    // heading.
    let mut control = ControlState::Airborne(PlayerSwinging {
        movement_speed: 300_000,
        movement_dir: Vec2Fx { x: 1000, y: 0 },
        initial_jump_vel: 400_000,
        current_jump_vel: -400_000,
    });
    let mut pos = Vec2Fx { x: -100_000, y: 0 };
    let mut jump_y: i64 = 5_000;
    let mut movement = default_movement();
    movement.raw_dir = Vec2Fx { x: 500, y: 0 };
    let (scale, landed) = airborne_step(&mut control, &mut pos, &mut jump_y, &mut movement, true, 100, 0);
    assert!(landed);
    assert_eq!(jump_y, 0);
    assert_eq!(control, ControlState::Grounded);
    assert_eq!((movement.raw_dir.x, movement.raw_dir.y), (0, 0));
    assert_eq!((movement.last_non_zero_raw_dir.x, movement.last_non_zero_raw_dir.y), (1000, 0));
    assert_eq!(movement.easing_time, movement.time_to_max_speed);
    // Dash advanced the player before landing.
    assert_eq!(pos.x, -70_000);
    // At launch-magnitude velocity the figure is neither squashed nor
    // stretched.
    assert_eq!((scale.x, scale.y), (1000, 1000));
}

#[test]
fn airborne_arc_advances_under_gravity() {
    let mut control = ControlState::Airborne(PlayerSwinging {
        movement_speed: 300_000,
        movement_dir: Vec2Fx { x: -1000, y: 0 },
        initial_jump_vel: 400_000,
        current_jump_vel: 400_000,
    });
    let mut pos = Vec2Fx { x: 200_000, y: 0 };
    let mut jump_y: i64 = 100_000;
    let mut movement = default_movement();
    let (_, landed) = airborne_step(&mut control, &mut pos, &mut jump_y, &mut movement, false, 100, 0);
    assert!(!landed);
    assert_eq!(jump_y, 140_000);
    match control {
        ControlState::Airborne(s) => assert_eq!(s.current_jump_vel, 85_000),
        ControlState::Grounded => panic!("still rising, must stay airborne"),
    }
    // The right player's dash toward the net stops at the net margin.
    assert_eq!(pos.x, 170_000);
    assert_eq!(movement.raw_dir, default_movement().raw_dir);
}

#[test]
fn airborne_dash_cannot_cross_the_net() {
    let mut control = ControlState::Airborne(PlayerSwinging {
        movement_speed: 2_000_000,
        movement_dir: Vec2Fx { x: -1000, y: 0 },
        initial_jump_vel: 400_000,
        current_jump_vel: 400_000,
    });
    let mut pos = Vec2Fx { x: 30_000, y: 0 };
    let mut jump_y: i64 = 100_000;
    let mut movement = default_movement();
    airborne_step(&mut control, &mut pos, &mut jump_y, &mut movement, false, 1000, 0);
    // The right player is held at the net offset plus half its extent.
    assert_eq!(pos.x, 28_000);
}

#[test]
fn double_fault_loses_point_for_server_and_resets_count() {
    // Fault count 2 with limit 1: the server loses, the next ball carries
    // a fault count of zero.
    let status0 = BallStatus::Fault { count: 2, player_id: 1 };
    let verdict = bounce_verdict(&status0, false, 1, -1);
    assert_eq!(
        verdict,
        BounceVerdict::PointLoss { losing_player: 1, reason: LossReason::DoubleFault }
    );
    let mut status = status0;
    let mut region = CourtRegion::TopLeft;
    let effects = apply_bounce_verdict(verdict, &mut status, &mut region, true, false);
    assert_eq!(status, BallStatus::Used);
    assert_eq!(effects.award_point_to, Some(2));
    assert!(effects.ball_used);
    assert!(effects.spawn_ball);
    assert_eq!(effects.spawn_fault_count, 0);
    // The serve swapped sides: the region rotates to the opposite half.
    assert_eq!(region, CourtRegion::TopRight);
}

#[test]
fn fault_within_limit_carries_count_to_next_ball() {
    let status0 = BallStatus::Fault { count: 1, player_id: 2 };
    let verdict = bounce_verdict(&status0, false, 1, 1);
    assert_eq!(verdict, BounceVerdict::FaultConsumed { fault_count: 1 });
    let mut status = status0;
    let mut region = CourtRegion::BottomRight;
    let effects = apply_bounce_verdict(verdict, &mut status, &mut region, false, true);
    assert_eq!(status, BallStatus::Used);
    assert_eq!(effects.award_point_to, None);
    assert!(effects.spawn_ball);
    assert_eq!(effects.spawn_fault_count, 1);
    assert_eq!(region, CourtRegion::BottomRight);
}

#[test]
fn double_bounce_awards_point_to_opponent() {
    // A rally ball bouncing twice on the right side before being returned:
    // the right-side occupant loses, the opponent gains the point, the
    // ball is consumed and a fresh one is spawned.
    let status0 = BallStatus::Rally { player_id: 1 };
    let verdict = bounce_verdict(&status0, false, 2, 1);
    assert_eq!(
        verdict,
        BounceVerdict::PointLoss { losing_player: 2, reason: LossReason::TooManyBounces }
    );
    let mut status = status0;
    let mut region = CourtRegion::TopLeft;
    let effects = apply_bounce_verdict(verdict, &mut status, &mut region, false, false);
    assert_eq!(status, BallStatus::Used);
    assert_eq!(effects.award_point_to, Some(1));
    assert!(effects.ball_used);
    assert!(effects.spawn_ball);
    assert_eq!(effects.spawn_fault_count, 0);
    assert_eq!(region, CourtRegion::TopLeft);
}

#[test]
fn first_bounce_out_of_bounds_loses_for_last_hitter() {
    let status = BallStatus::Rally { player_id: 1 };
    let verdict = bounce_verdict(&status, true, 1, -1);
    assert_eq!(
        verdict,
        BounceVerdict::PointLoss { losing_player: 1, reason: LossReason::ShootingOutOfBounds }
    );
}

#[test]
fn harmless_bounces_resolve_nothing() {
    let rally = BallStatus::Rally { player_id: 2 };
    assert_eq!(bounce_verdict(&rally, false, 1, 1), BounceVerdict::NoAction);
    let serve = BallStatus::Serve { fault_count: 0, region: CourtRegion::TopLeft, player_id: 1 };
    assert_eq!(bounce_verdict(&serve, false, 1, -1), BounceVerdict::NoAction);
    assert_eq!(bounce_verdict(&BallStatus::Used, true, 3, 1), BounceVerdict::NoAction);
    let mut status = rally;
    let mut region = CourtRegion::TopLeft;
    let effects = apply_bounce_verdict(BounceVerdict::NoAction, &mut status, &mut region, false, false);
    assert_eq!(status, rally);
    assert_eq!(effects.award_point_to, None);
    assert!(!effects.ball_used);
    assert!(!effects.spawn_ball);
}
