use re_rolling::combat::HitBox;
use re_rolling::game::GameTimers;
use re_rolling::geom::Vec2;
use re_rolling::health::PlayerHealth;
use re_rolling::physics::{CollisionGroups, GROUP_HIT, GROUP_PLAYER};
use re_rolling::player::{
    deal_player_hit_damage, flicker_player_during_invuln, PlayerInput, PostHitInvulnerability,
};
use re_rolling::weapons::{ProjectileKind, ProjectileSpawn};
use re_rolling::world::{ProjectileFlight, World, WorldCommand};

fn idle_input() -> PlayerInput {
    PlayerInput::default()
}

fn no_pairs() -> Vec<(u64, u64)> {
    Vec::new()
}

fn linear_spawn(pos: Vec2, damage: u8, die_on_hit: bool) -> ProjectileSpawn {
    ProjectileSpawn {
        kind: ProjectileKind::Linear,
        pos,
        dir: Vec2 { x: 1000, y: 0 },
        spread_mdeg: 0,
        speed: 200,
        hit_box: HitBox { damage, knockback: None },
        hit_box_size: Vec2 { x: 2000, y: 4000 },
        lifetime: 1200,
        die_on_hit,
        sprite_index: 1,
    }
}

#[test]
fn one_enemy_contact_starts_the_invulnerability_window() {
    let mut w = World::new();
    assert_eq!(w.player.health, PlayerHealth { current: 4, max: 4 });
    w.apply_enemy_spawn(Vec2 { x: 50_000, y: 0 });
    assert_eq!(w.enemy_count.0, 1);

    // The enemy's hit-box shape (handle 4) overlaps the player's hurt
    // box (handle 2).
    let pairs = vec![(4u64, 2u64)];
    w.tick(10, &idle_input(), &pairs);

    // One point of damage, the hurt box cleared, the window open, and a
    // knockback away from the enemy.
    assert_eq!(w.player.health, PlayerHealth { current: 3, max: 4 });
    assert_eq!(w.player.hurt_box_groups, CollisionGroups::new(0, 0));
    assert!(w.player.invuln.remaining > 0);
    assert!(w.player.knockback.remaining_time > 0);
}

#[test]
fn invulnerability_suppresses_hits_and_expires_after_one_second() {
    let mut w = World::new();
    w.apply_enemy_spawn(Vec2 { x: 50_000, y: 0 });
    let pairs = vec![(4u64, 2u64)];
    w.tick(10, &idle_input(), &pairs);
    assert_eq!(w.player.health.current, 3);

    // While the filter is cleared, the same contact registers nothing.
    w.tick(10, &idle_input(), &pairs);
    assert_eq!(w.player.health.current, 3);

    // One second later the window has expired and the filter is back.
    w.tick(600, &idle_input(), &no_pairs());
    assert_eq!(w.player.invuln.remaining, 0);
    assert_eq!(w.player.hurt_box_groups, CollisionGroups::new(GROUP_PLAYER, GROUP_HIT));
    assert!(w.player.visible);
}

#[test]
fn simultaneous_contacts_cost_one_point_in_all() {
    let mut w = World::new();
    w.apply_enemy_spawn(Vec2 { x: 50_000, y: 0 });
    w.apply_enemy_spawn(Vec2 { x: -50_000, y: 0 });
    // Both enemies' hit boxes (handles 4 and 7) touch the player's hurt
    // box in the same tick.
    let pairs = vec![(4u64, 2u64), (7u64, 2u64)];
    w.tick(10, &idle_input(), &pairs);
    assert_eq!(w.player.health.current, 3);
}

#[test]
fn a_lethal_projectile_kills_tags_and_despawns_the_enemy() {
    let mut w = World::new();
    w.apply_enemy_spawn(Vec2 { x: 100_000, y: 0 });
    // A projectile (handle 6) with lethal damage overlapping the enemy's
    // hurt box (handle 5).
    w.apply_projectile_spawn(linear_spawn(Vec2 { x: 100_000, y: 0 }, 10, true), Vec2 {
        x: 1000,
        y: 0,
    });
    assert_eq!(w.projectiles.len(), 1);
    let pairs = vec![(6u64, 5u64)];
    let cmds = w.tick(10, &idle_input(), &pairs);

    assert_eq!(w.enemies.len(), 0);
    assert_eq!(w.enemy_count.0, 0);
    assert!(cmds.iter().any(|c| matches!(c, WorldCommand::DeathVfx { .. })));
    // The projectile died on its first qualifying hit.
    assert_eq!(w.projectiles.len(), 0);
}

#[test]
fn a_surviving_enemy_keeps_its_knockback_and_loses_health() {
    let mut w = World::new();
    w.apply_enemy_spawn(Vec2 { x: 100_000, y: 0 });
    let mut spawn = linear_spawn(Vec2 { x: 90_000, y: 0 }, 4, true);
    spawn.hit_box = HitBox {
        damage: 4,
        knockback: Some(re_rolling::combat::KnockbackSpec {
            direction: re_rolling::combat::KnockbackDirection::AttackerFacing,
            frames: 6,
            distance: 10,
        }),
    };
    w.apply_projectile_spawn(spawn, Vec2 { x: 1000, y: 0 });
    let pairs = vec![(6u64, 5u64)];
    w.tick(10, &idle_input(), &pairs);

    assert_eq!(w.enemies.len(), 1);
    assert_eq!(w.enemies[0].health.current, 6);
    assert!(w.enemies[0].knockback.remaining_time > 0);
}

#[test]
fn grenade_detonation_replaces_it_with_the_area_effect() {
    let mut w = World::new();
    w.apply_enemy_spawn(Vec2 { x: 100_000, y: 0 });
    let mut spawn = linear_spawn(Vec2 { x: 100_000, y: 0 }, 20, true);
    spawn.kind = ProjectileKind::Grenade;
    w.apply_projectile_spawn(spawn, Vec2 { x: 1000, y: 0 });
    // The grenade (handle 6) hits the enemy hurt box (handle 5).
    let pairs = vec![(6u64, 5u64)];
    w.tick(10, &idle_input(), &pairs);

    // Exactly one area effect stands in the grenade's place.
    assert_eq!(w.projectiles.len(), 1);
    assert!(matches!(w.projectiles[0].flight, ProjectileFlight::Area));
    assert_eq!(w.projectiles[0].hit_box.damage, 40);
    // The area effect burns out on its own lifetime.
    w.tick(480, &idle_input(), &no_pairs());
    assert_eq!(w.projectiles.len(), 0);
}

#[test]
fn grenade_fuse_detonates_without_a_hit() {
    let mut w = World::new();
    let mut spawn = linear_spawn(Vec2 { x: 0, y: 0 }, 20, true);
    spawn.kind = ProjectileKind::Grenade;
    w.apply_projectile_spawn(spawn, Vec2 { x: 1000, y: 0 });
    // The 360-unit fuse runs out during the second tick.
    w.tick(200, &idle_input(), &no_pairs());
    assert!(matches!(w.projectiles[0].flight, ProjectileFlight::Lobbed(_)));
    w.tick(200, &idle_input(), &no_pairs());
    assert_eq!(w.projectiles.len(), 1);
    assert!(matches!(w.projectiles[0].flight, ProjectileFlight::Area));
}

#[test]
fn population_never_passes_the_active_cap() {
    let mut w = World::new();
    for i in 0..60 {
        w.apply_enemy_spawn(Vec2 { x: 10_000 + i, y: 0 });
    }
    // The opening tier caps the population at 50.
    assert_eq!(w.enemy_count.0, 50);
    assert_eq!(w.enemies.len(), 50);
    assert!(w.enemy_count.0 <= w.spawner.max_enemies);
}

#[test]
fn spawn_commands_come_only_below_the_cap() {
    let mut w = World::new();
    // A full spawn interval elapses: the spawner asks for one enemy.
    let cmds = w.tick(600, &idle_input(), &no_pairs());
    assert!(cmds.iter().any(|c| matches!(c, WorldCommand::SpawnEnemy { angle_mdeg } if *angle_mdeg < 360_000)));
}

#[test]
fn player_death_pauses_the_clock_and_arms_the_reset() {
    let mut h = PlayerHealth { current: 1, max: 4 };
    let mut timers = GameTimers::new();
    timers.game_time.unpause();
    deal_player_hit_damage(&mut h, &mut timers, 1);
    assert_eq!(h.current, 0);
    assert!(timers.game_time.paused);
    assert!(!timers.reset_time.paused);
    // No hits: nothing changes.
    let before = (h, timers);
    deal_player_hit_damage(&mut h, &mut timers, 0);
    assert_eq!((h, timers), before);
}

#[test]
fn reset_restores_the_player_and_clears_the_field() {
    let mut w = World::new();
    w.apply_enemy_spawn(Vec2 { x: 50_000, y: 0 });
    // Drain the player.
    for _ in 0..4 {
        let pairs = vec![(4u64, 2u64)];
        w.tick(10, &idle_input(), &pairs);
        // Let any invulnerability window lapse between contacts.
        w.tick(600, &idle_input(), &no_pairs());
    }
    assert_eq!(w.player.health.current, 0);
    assert!(w.timers.game_time.paused);
    // Run the reset countdown out, ask for the reset.
    w.tick(1200, &idle_input(), &no_pairs());
    let reset_input = PlayerInput { reset_game: true, ..PlayerInput::default() };
    w.tick(10, &reset_input, &no_pairs());
    assert_eq!(w.player.health.current, 4);
    assert_eq!(w.player.pos, Vec2 { x: 0, y: 0 });
    assert_eq!(w.enemies.len(), 0);
    assert!(!w.timers.game_time.paused);
}

#[test]
fn flicker_follows_the_ten_hertz_duty_cycle() {
    let active = PostHitInvulnerability { remaining: 300 };
    let idle = PostHitInvulnerability { remaining: 0 };
    // Even tenth-of-a-second buckets are visible, odd ones hidden.
    assert!(flicker_player_during_invuln(&active, 30));
    assert!(!flicker_player_during_invuln(&active, 90));
    assert!(flicker_player_during_invuln(&active, 150));
    assert!(!flicker_player_during_invuln(&active, 90 + 600));
    // Without a window the player is always visible.
    assert!(flicker_player_during_invuln(&idle, 90));
}

#[test]
fn the_match_clock_advances_with_every_tick() {
    let mut w = World::new();
    w.tick(50, &idle_input(), &no_pairs());
    assert_eq!(w.timers.game_time.elapsed, 50);
    // The reset countdown stays paused at zero until the player dies.
    assert_eq!(w.timers.reset_time.elapsed, 0);
    w.tick(10, &idle_input(), &no_pairs());
    assert_eq!(w.timers.game_time.elapsed, 60);
}

#[test]
fn a_trigger_pull_through_the_pipeline_emits_the_burst() {
    let mut w = World::new();
    let shoot = PlayerInput { shoot: true, ..PlayerInput::default() };
    let cmds = w.tick(10, &shoot, &no_pairs());
    let bursts: Vec<_> = cmds
        .iter()
        .filter(|c| matches!(c, WorldCommand::SpawnProjectile(_)))
        .collect();
    // The pistol fires one projectile per pull and spends one ammo.
    assert_eq!(bursts.len(), 1);
    assert_eq!(w.player.weapon.ammo, 15);
    // The fire-rate cooldown suppresses the next pull.
    let cmds2 = w.tick(10, &shoot, &no_pairs());
    assert!(cmds2.iter().all(|c| !matches!(c, WorldCommand::SpawnProjectile(_))));
    assert_eq!(w.player.weapon.ammo, 15);
}
