use rally_core::fixed::{
    abs_i64, clamp_i64, div_nn, fx_div, fx_mul, inv_lerp_fx, lerp_fx, max_i64, min_i64, tdiv_i64,
    FX_ONE,
};
use rally_core::vec2::{normalize_or_zero, sqrt_ceil, Vec2Fx};
use rally_core::court::{left_region, right_region, CourtRegion};
use rally_core::player::{
    follow_scale_step, initial_player_placement, is_left_player_id, Player, PlayerActionStatus,
    PlayerBundle, PlayerSwing,
};

#[test]
fn fixed_point_basics() {
    assert_eq!(FX_ONE, 1000);
    assert_eq!(tdiv_i64(7, 2), 3);
    assert_eq!(tdiv_i64(-7, 2), -3);
    assert_eq!(div_nn(9, 3), 3);
    assert_eq!(fx_mul(1500, 2000), 3000);
    assert_eq!(fx_mul(-1500, 2000), -3000);
    assert_eq!(fx_div(3000, 1500), 2000);
    assert_eq!(clamp_i64(5, 0, 3), 3);
    assert_eq!(clamp_i64(-5, 0, 3), 0);
    assert_eq!(clamp_i64(2, 0, 3), 2);
    assert_eq!(abs_i64(-17), 17);
    assert_eq!(min_i64(3, 4), 3);
    assert_eq!(max_i64(3, 4), 4);
}

#[test]
fn lerp_and_inverse_lerp() {
    assert_eq!(lerp_fx(0, 1000, 500), 500);
    assert_eq!(lerp_fx(100, 200, 0), 100);
    assert_eq!(lerp_fx(100, 200, 1000), 200);
    assert_eq!(lerp_fx(200, 100, 1000), 100);
    assert_eq!(inv_lerp_fx(0, 110, 55), 500);
    assert_eq!(inv_lerp_fx(0, 110, 0), 0);
    assert_eq!(inv_lerp_fx(0, 110, 110), 1000);
    assert_eq!(inv_lerp_fx(0, 110, 500), 1000);
    assert_eq!(inv_lerp_fx(0, 110, -20), 0);
}

#[test]
fn integer_sqrt_ceiling() {
    assert_eq!(sqrt_ceil(0), 0);
    assert_eq!(sqrt_ceil(1), 1);
    assert_eq!(sqrt_ceil(2), 2);
    assert_eq!(sqrt_ceil(4), 2);
    assert_eq!(sqrt_ceil(10), 4);
    assert_eq!(sqrt_ceil(1_500_625), 1225);
    assert_eq!(sqrt_ceil(980_000), 990);
}

#[test]
fn normalize_axes_exact() {
    let r = normalize_or_zero(Vec2Fx { x: 5, y: 0 });
    assert_eq!((r.x, r.y), (1000, 0));
    let r = normalize_or_zero(Vec2Fx { x: -70_000, y: 0 });
    assert_eq!((r.x, r.y), (-1000, 0));
    let r = normalize_or_zero(Vec2Fx { x: 0, y: -3 });
    assert_eq!((r.x, r.y), (0, -1000));
    let r = normalize_or_zero(Vec2Fx { x: 0, y: 0 });
    assert_eq!((r.x, r.y), (0, 0));
}

#[test]
fn normalize_stays_in_unit_disc() {
    for &(x, y) in &[(1i64, 1i64), (700, 700), (99_999, 1), (-40_000, 65_000), (3, -99_999)] {
        let r = normalize_or_zero(Vec2Fx { x, y });
        assert!(r.x * r.x + r.y * r.y <= 1_000_000);
    }
    let r = normalize_or_zero(Vec2Fx { x: 700, y: 700 });
    assert_eq!((r.x, r.y), (707, 707));
}

#[test]
fn court_regions() {
    assert!(CourtRegion::TopLeft.is_left());
    assert!(CourtRegion::BottomLeft.is_bottom());
    assert!(CourtRegion::TopRight.is_top());
    assert!(CourtRegion::BottomRight.is_right());
    assert!(CourtRegion::OutOfBounds.is_out_of_bounds());
    assert!(!CourtRegion::TopLeft.is_out_of_bounds());
    assert_eq!(CourtRegion::TopLeft.get_player_id(), 1);
    assert_eq!(CourtRegion::BottomRight.get_player_id(), 2);
    assert_eq!(left_region(true), CourtRegion::BottomLeft);
    assert_eq!(left_region(false), CourtRegion::TopLeft);
    assert_eq!(right_region(true), CourtRegion::BottomRight);
    assert_eq!(right_region(false), CourtRegion::TopRight);
}

#[test]
fn player_identity_and_sides() {
    assert!(is_left_player_id(1));
    assert!(!is_left_player_id(2));
    let left = Player::new(1, Vec2Fx { x: 1000, y: 0 }, 10, 11);
    assert!(left.is_left());
    assert_eq!(left.get_sign(), -1);
    assert_eq!(left.side, -1);
    let right = Player::new(2, Vec2Fx { x: -1000, y: 0 }, 12, 13);
    assert!(!right.is_left());
    assert_eq!(right.get_sign(), 1);
    assert_eq!(right.side, 1);
}

#[test]
fn player_bundle_defaults() {
    let b = PlayerBundle::new(1, Vec2Fx { x: 1000, y: 0 }, 7, 8);
    assert_eq!(b.player.id, 1);
    assert_eq!(b.player.side, -1);
    assert_eq!(PlayerBundle::new(2, Vec2Fx { x: -1000, y: 0 }, 7, 8).player.side, 1);
    assert_eq!(b.movement.speed, 550_000);
    assert_eq!(b.movement.charging_speed, 125_000);
    assert_eq!(b.movement.time_to_max_speed, 110);
    assert_eq!(b.swing.duration, 150);
    assert_eq!(b.swing.cooldown, 350);
    assert_eq!(b.swing.status, PlayerActionStatus::Idle);
    assert_eq!(b.score.points, 0);
}

#[test]
fn swing_timer_and_cooldown() {
    let mut s = PlayerSwing::new(150, 350);
    assert!(s.timer_finished());
    s.status = PlayerActionStatus::Active(800);
    s.timer_remaining = 100;
    assert!(!s.timer_finished());
    s.start_cooldown();
    assert_eq!(s.status, PlayerActionStatus::Cooldown);
    assert_eq!(s.timer_remaining, 350);
    s.tick_timer(100);
    assert_eq!(s.timer_remaining, 250);
    s.tick_timer(300);
    assert_eq!(s.timer_remaining, 0);
    assert!(s.timer_finished());
}

#[test]
fn initial_placement_by_serve_region() {
    // The left player spawns a quarter view-width left of centre; serving
    // from a top region keeps the top row.
    let (pos, dir) = initial_player_placement(1, 1_000_000, CourtRegion::TopLeft);
    assert_eq!((pos.x, pos.y), (-250_000, 150_000));
    assert_eq!((dir.x, dir.y), (1000, 0));
    // The non-serving player spawns on the row opposite its usual one when
    // the serve comes from a top region.
    let (pos2, dir2) = initial_player_placement(2, 1_000_000, CourtRegion::TopLeft);
    assert_eq!((pos2.x, pos2.y), (250_000, -150_000));
    assert_eq!((dir2.x, dir2.y), (-1000, 0));
    // A bottom-region serve flips the serving player to the bottom row.
    let (pos3, _) = initial_player_placement(1, 1_000_000, CourtRegion::BottomLeft);
    assert_eq!(pos3.y, -150_000);
}

#[test]
fn shadow_follows_scale() {
    let r = follow_scale_step(Vec2Fx { x: 1100, y: 900 }, Vec2Fx { x: 1000, y: 500 });
    assert_eq!((r.x, r.y), (1100, 450));
}
