use re_rolling::enemies::spawner::{
    difficulty_tier, increase_difficulty, spawn_enemies, update_enemy_count, EnemyCount, Spawner,
    FULL_TURN_MDEG,
};

#[test]
fn difficulty_tiers_at_the_fixture_times() {
    // Elapsed times of 10 s, 65 s, 125 s and 305 s, in time units.
    assert_eq!(difficulty_tier(10 * 600), (50, 600));
    assert_eq!(difficulty_tier(65 * 600), (100, 300));
    assert_eq!(difficulty_tier(125 * 600), (150, 180));
    assert_eq!(difficulty_tier(305 * 600), (300, 60));
}

#[test]
fn difficulty_is_idempotent_at_a_fixed_time() {
    for t in [0u64, 5999, 36_000, 36_001, 72_001, 500_000] {
        assert_eq!(difficulty_tier(t), difficulty_tier(t));
    }
}

#[test]
fn difficulty_steps_exactly_at_the_thresholds() {
    assert_eq!(difficulty_tier(36_000), (50, 600));
    assert_eq!(difficulty_tier(36_001), (100, 300));
    assert_eq!(difficulty_tier(72_000), (100, 300));
    assert_eq!(difficulty_tier(72_001), (150, 180));
    assert_eq!(difficulty_tier(180_000), (150, 180));
    assert_eq!(difficulty_tier(180_001), (300, 60));
}

#[test]
fn increase_difficulty_moves_the_spawner_onto_the_tier() {
    let mut s = Spawner::new(50, 600);
    increase_difficulty(&mut s, 65 * 600);
    assert_eq!(s.max_enemies, 100);
    assert_eq!(s.spawn_interval, 300);
    assert_eq!(s.cooldown.period, 300);
}

#[test]
fn spawn_fires_only_under_the_cap_when_the_cooldown_elapses() {
    let mut s = Spawner::new(2, 600);
    // Cooldown not elapsed yet: no spawn.
    assert!(spawn_enemies(&mut s, 0, 300).is_none());
    // Cooldown elapses: one spawn, with an angle inside a full turn.
    let angle = spawn_enemies(&mut s, 0, 300);
    assert!(angle.is_some());
    assert!(angle.unwrap() < FULL_TURN_MDEG);
    // At the cap: the cooldown elapses but nothing spawns.
    assert!(spawn_enemies(&mut s, 2, 600).is_none());
    // Paused spawner never fires.
    s.toggle();
    assert!(spawn_enemies(&mut s, 0, 6000).is_none());
    s.toggle();
    assert!(spawn_enemies(&mut s, 0, 600).is_some());
}

#[test]
fn enemy_count_reconciles_from_diffs() {
    let mut c = EnemyCount(5);
    update_enemy_count(&mut c, 2, 1);
    assert_eq!(c.0, 6);
    update_enemy_count(&mut c, 0, 6);
    assert_eq!(c.0, 0);
}
