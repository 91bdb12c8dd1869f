use re_rolling::game::{Facing, GameTimers, Lifetime, OnceTimer, Stopwatch, update_sprite_facing};
use re_rolling::geom::Vec2;

#[test]
fn stopwatch_only_runs_while_unpaused() {
    let mut sw = Stopwatch::new();
    sw.tick(100);
    assert_eq!(sw.elapsed, 100);
    sw.pause();
    sw.tick(100);
    assert_eq!(sw.elapsed, 100);
    sw.unpause();
    sw.tick(50);
    assert_eq!(sw.elapsed, 150);
    sw.reset();
    assert_eq!(sw.elapsed, 0);
}

#[test]
fn once_timer_finishes_at_its_duration() {
    let mut t = OnceTimer::new(1200);
    assert!(!t.finished());
    t.tick(1199);
    assert!(!t.finished());
    t.tick(1);
    assert!(t.finished());
    // Clamped: more time keeps it finished at the duration.
    t.tick(500);
    assert_eq!(t.elapsed, 1200);
    t.reset();
    assert!(!t.finished());
}

#[test]
fn session_clocks_start_paused() {
    let timers = GameTimers::default();
    assert!(timers.game_time.paused);
    assert!(timers.reset_time.paused);
    assert_eq!(timers.reset_time.duration, 1200);
}

#[test]
fn lifetime_expires_exactly_when_spent() {
    let mut l = Lifetime::new(300);
    assert!(!l.tick(299));
    assert!(l.tick(1));
    assert_eq!(l.remaining, 0);
    assert!(l.tick(10));
}

#[test]
fn sprite_flip_follows_horizontal_facing() {
    assert_eq!(Facing::default().dir, Vec2 { x: 1000, y: 0 });
    assert!(!update_sprite_facing(&Facing::default(), true));
    assert!(update_sprite_facing(&Facing { dir: Vec2 { x: -4, y: 9 } }, false));
    // A purely vertical facing keeps the current flip state.
    assert!(update_sprite_facing(&Facing { dir: Vec2 { x: 0, y: -1000 } }, true));
    assert!(!update_sprite_facing(&Facing { dir: Vec2 { x: 0, y: -1000 } }, false));
}
