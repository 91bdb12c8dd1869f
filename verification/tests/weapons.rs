use re_rolling::combat::KnockbackDirection;
use re_rolling::geom::Vec2;
use re_rolling::weapons::{
    fire_weapon, projectile_params, ProjectileKind, Weapon, WeaponChoice, RELOAD_UNITS,
};

const ALL_CHOICES: [WeaponChoice; 6] = [
    WeaponChoice::Pistol,
    WeaponChoice::RayGun,
    WeaponChoice::Shotgun,
    WeaponChoice::Boomerang,
    WeaponChoice::Smg,
    WeaponChoice::GrenadeLauncher,
];

#[test]
fn weapon_stats_table_holds_the_fixed_rows() {
    let rows: [(WeaponChoice, u8, u32, u8, u32); 6] = [
        (WeaponChoice::Pistol, 16, 180, 1, 0),
        (WeaponChoice::RayGun, 12, 300, 1, 0),
        (WeaponChoice::Shotgun, 8, 480, 10, 75_000),
        (WeaponChoice::Boomerang, 8, 600, 1, 0),
        (WeaponChoice::Smg, 64, 60, 1, 30_000),
        (WeaponChoice::GrenadeLauncher, 5, 600, 1, 0),
    ];
    for (choice, max_ammo, fire_rate, per_shot, spread) in rows {
        let stats = choice.get_weapon_stats();
        assert_eq!(stats.max_ammo, max_ammo);
        assert_eq!(stats.fire_rate, fire_rate);
        assert_eq!(stats.projectiles_per_shot, per_shot);
        assert_eq!(stats.spread, spread);
    }
}

#[test]
fn projectile_table_holds_the_fixed_rows() {
    let p = projectile_params(WeaponChoice::Pistol);
    assert_eq!(p.damage, 4);
    assert_eq!(p.knockback.frames, 6);
    assert_eq!(p.knockback.distance, 10);
    assert!(matches!(p.knockback.direction, KnockbackDirection::AttackerFacing));
    assert!(p.die_on_hit);
    assert_eq!(p.lifetime, 1200);

    let b = projectile_params(WeaponChoice::Boomerang);
    assert_eq!(b.damage, 3);
    assert_eq!(b.knockback.frames, 12);
    assert_eq!(b.knockback.distance, 14);
    assert!(matches!(b.knockback.direction, KnockbackDirection::AwayFromAttacker));
    assert!(!b.die_on_hit);

    let g = projectile_params(WeaponChoice::GrenadeLauncher);
    assert_eq!(g.damage, 20);
    assert_eq!(g.knockback.distance, 40);

    let s = projectile_params(WeaponChoice::Shotgun);
    assert_eq!(s.speed_min, 100);
    assert_eq!(s.speed_max, 200);
    assert_eq!(s.lifetime, 300);
}

#[test]
fn one_trigger_pull_spawns_the_burst_and_costs_one_ammo() {
    let mut w = Weapon::new(WeaponChoice::Shotgun);
    assert_eq!(w.ammo, 8);
    let spawns = fire_weapon(
        &mut w,
        0,
        true,
        true,
        Vec2 { x: 3000, y: 0 },
        Vec2 { x: 1000, y: 0 },
        Vec2 { x: 0, y: 0 },
    );
    assert_eq!(spawns.len(), 10);
    assert_eq!(w.ammo, 7);
    assert!(!w.reloading);
    assert_eq!(w.cooldown, 480);
    for s in &spawns {
        assert!(matches!(s.kind, ProjectileKind::Linear));
        assert_eq!(s.dir, Vec2 { x: 1000, y: 0 });
        assert_eq!(s.pos, Vec2 { x: 10_000, y: 0 });
        assert!(s.speed >= 100 && s.speed <= 200);
        assert!(2 * s.spread_mdeg.unsigned_abs() <= 75_000);
        assert_eq!(s.hit_box.damage, 8);
    }
}

#[test]
fn firing_is_gated_by_cooldown_ammo_intent_and_life() {
    let mut w = Weapon::new(WeaponChoice::Pistol);
    let aim = Vec2 { x: 1000, y: 0 };
    let facing = Vec2 { x: 1000, y: 0 };
    let origin = Vec2 { x: 0, y: 0 };
    // No intent to shoot.
    assert!(fire_weapon(&mut w, 0, false, true, aim, facing, origin).is_empty());
    // Dead player.
    assert!(fire_weapon(&mut w, 0, true, false, aim, facing, origin).is_empty());
    // Cooldown pending after a shot.
    assert_eq!(fire_weapon(&mut w, 0, true, true, aim, facing, origin).len(), 1);
    assert!(fire_weapon(&mut w, 10, true, true, aim, facing, origin).is_empty());
    // Cooldown elapsed again.
    assert_eq!(fire_weapon(&mut w, 480, true, true, aim, facing, origin).len(), 1);
}

#[test]
fn emptying_the_magazine_arms_a_reload_to_a_different_weapon() {
    let mut w = Weapon::new(WeaponChoice::Boomerang);
    let aim = Vec2 { x: 0, y: 2000 };
    let facing = Vec2 { x: 1000, y: 0 };
    let origin = Vec2 { x: 0, y: 0 };
    for _ in 0..8 {
        let spawns = fire_weapon(&mut w, 600, true, true, aim, facing, origin);
        assert_eq!(spawns.len(), 1);
    }
    assert_eq!(w.ammo, 0);
    assert!(w.reloading);
    assert_eq!(w.cooldown, RELOAD_UNITS);
    // While the reload cooldown runs, nothing fires.
    assert!(fire_weapon(&mut w, 100, true, true, aim, facing, origin).is_empty());
    assert!(w.reloading);
    // The tick the reload completes swaps to a different choice and
    // consumes the tick.
    let spawns = fire_weapon(&mut w, RELOAD_UNITS, true, true, aim, facing, origin);
    assert!(spawns.is_empty());
    assert!(!w.reloading);
    assert_ne!(w.equipped, WeaponChoice::Boomerang);
    assert_eq!(w.ammo, w.stats.max_ammo);
    assert_eq!(w.stats, w.equipped.get_weapon_stats());
}

#[test]
fn reload_never_hands_back_the_depleted_choice() {
    for choice in ALL_CHOICES {
        for _ in 0..50 {
            assert_ne!(WeaponChoice::random_excluding(choice), choice);
        }
    }
}

#[test]
fn zero_aim_falls_back_to_facing() {
    let mut w = Weapon::new(WeaponChoice::Pistol);
    let spawns = fire_weapon(
        &mut w,
        0,
        true,
        true,
        Vec2 { x: 0, y: 0 },
        Vec2 { x: 0, y: -1000 },
        Vec2 { x: 5000, y: 5000 },
    );
    assert_eq!(spawns.len(), 1);
    assert_eq!(spawns[0].dir, Vec2 { x: 0, y: -1000 });
    assert_eq!(spawns[0].pos, Vec2 { x: 5000, y: -5000 });
    assert_eq!(spawns[0].spread_mdeg, 0);
}
