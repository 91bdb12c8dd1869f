use re_rolling::combat::Knockback;
use re_rolling::geom::Vec2;
use re_rolling::health::{EnemyHealth, PlayerHealth};

#[test]
fn lose_health_returns_amount_actually_lost() {
    let mut h = PlayerHealth::new(4);
    assert_eq!(h.current, 4);
    assert_eq!(h.max, 4);
    assert_eq!(h.lose_health(1), 1);
    assert_eq!(h.current, 3);
    assert_eq!(h.lose_health(9), 3);
    assert_eq!(h.current, 0);
    assert_eq!(h.lose_health(1), 0);
    assert_eq!(h.current, 0);
    assert!(h.current <= h.max);
}

#[test]
fn enemy_ledger_clamps_the_same_way() {
    let mut h = EnemyHealth::new(10);
    assert_eq!(h.lose_health(4), 4);
    assert_eq!(h.lose_health(20), 6);
    assert_eq!(h.current, 0);
    assert_eq!(h.max, 10);
}

#[test]
fn with_current_clamps_to_max() {
    let h = PlayerHealth::new(4).with_current(9);
    assert_eq!(h.current, 4);
    let h2 = PlayerHealth::new(4).with_current(2);
    assert_eq!(h2.current, 2);
    assert_eq!(h2.missing(), 2);
}

#[test]
fn knockback_is_active_iff_time_remains() {
    let mut k = Knockback::new();
    assert!(!k.is_active());
    k.start(6, Vec2 { x: 10_000, y: 0 });
    assert!(k.is_active());
    assert_eq!(k.remaining_time, 60);
    k.tick(60);
    assert!(!k.is_active());
    assert_eq!(k.remaining_time, 0);
}

#[test]
fn knockback_integrates_to_exactly_the_armed_offset() {
    let offset = Vec2 { x: 10_000, y: -7_333 };
    let mut k = Knockback::new();
    k.start(6, offset);
    let mut traveled = Vec2 { x: 0, y: 0 };
    for dt in [7u32, 13, 25, 100] {
        let d = k.tick(dt);
        traveled = Vec2 { x: traveled.x + d.x, y: traveled.y + d.y };
    }
    assert_eq!(traveled, offset);
    assert!(!k.is_active());
}

#[test]
fn knockback_single_tick_covers_whole_window() {
    let offset = Vec2 { x: -25_000, y: 1 };
    let mut k = Knockback::new();
    k.start(10, offset);
    assert_eq!(k.remaining_time, 100);
    let d = k.tick(100);
    assert_eq!(d, offset);
    assert!(!k.is_active());
}
