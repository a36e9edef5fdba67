use zenva_101_lib::Enemy;

#[test]
fn move_to_moves_by_step_towards_larger_target() {
    assert_eq!(Enemy::move_to(0, 100, 30), 30);
}

#[test]
fn move_to_moves_by_step_towards_smaller_target() {
    assert_eq!(Enemy::move_to(100, 0, 30), 70);
}

#[test]
fn move_to_clamps_at_target_from_below() {
    assert_eq!(Enemy::move_to(90, 100, 50), 100);
}

#[test]
fn move_to_clamps_at_target_from_above() {
    assert_eq!(Enemy::move_to(10, 0, 50), 0);
}

#[test]
fn move_to_stays_on_target() {
    assert_eq!(Enemy::move_to(40, 40, 7), 40);
}

#[test]
fn move_to_zero_step_stays() {
    assert_eq!(Enemy::move_to(5, 9, 0), 5);
}

#[test]
fn move_to_extreme_values() {
    assert_eq!(Enemy::move_to(i64::MIN, i64::MAX, u64::MAX), i64::MAX);
    assert_eq!(Enemy::move_to(i64::MAX, i64::MIN, u64::MAX), i64::MIN);
}

#[test]
fn move_to_never_overshoots_on_samples() {
    for current in [-50i64, -1, 0, 3, 99, 100, 250] {
        for target in [-20i64, 0, 100] {
            for step in [0u64, 1, 7, 50, 1000] {
                let n = Enemy::move_to(current, target, step);
                let (lo, hi) = if current <= target { (current, target) } else { (target, current) };
                assert!(lo <= n && n <= hi);
                assert!((n - target).abs() <= (current - target).abs());
            }
        }
    }
}

#[test]
fn ready_sets_patrol() {
    let mut e = Enemy::new();
    e.move_distance = 100_000;
    e.ready(20_000);
    assert_eq!(e.start_position, 20_000);
    assert_eq!(e.target_position, 120_000);
}

#[test]
fn enemy_patrol_flips_both_ways() {
    // start 0, move distance 100 units, speed 50 units/s; positions in thousandths
    let mut e = Enemy::new();
    e.speed = 50;
    e.move_distance = 100_000;
    e.ready(0);
    assert_eq!(e.target_position, 100_000);
    let mut x = e.process(0, 1000);
    assert_eq!(x, 50_000);
    assert_eq!(e.target_position, 100_000);
    x = e.process(x, 1000);
    assert_eq!(x, 100_000);
    assert_eq!(e.target_position, 0);
    x = e.process(x, 1000);
    assert_eq!(x, 50_000);
    x = e.process(x, 1000);
    assert_eq!(x, 0);
    assert_eq!(e.target_position, 100_000);
    x = e.process(x, 1000);
    assert_eq!(x, 50_000);
    assert_eq!(e.target_position, 100_000);
}

#[test]
fn enemy_moves_exactly_at_frame_rate() {
    // speed 50 units/s, 17 ms frames, positions in thousandths of a unit
    let mut e = Enemy::new();
    e.speed = 50;
    e.move_distance = 100_000;
    e.ready(0);
    let mut x = 0;
    for _ in 0..100 {
        x = e.process(x, 17);
    }
    assert_eq!(x, 85_000);
    assert_eq!(e.target_position, 100_000);
}

#[test]
fn enemy_default_speed_covers_distance_in_a_second() {
    let mut e = Enemy::new();
    e.speed = 100;
    e.move_distance = 100_000;
    e.ready(0);
    let mut x = 0;
    for _ in 0..40 {
        x = e.process(x, 25);
    }
    assert_eq!(x, 100_000);
    assert_eq!(e.target_position, 0);
}

#[test]
fn enemy_kills_only_player() {
    let e = Enemy::new();
    assert!(e.on_body_entered("Player"));
    assert!(!e.on_body_entered("player"));
    assert!(!e.on_body_entered("Player2"));
    assert!(!e.on_body_entered(""));
}
