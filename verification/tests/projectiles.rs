use re_rolling::geom::{dist2_u64, Vec2};
use re_rolling::weapons::{
    explosion_spawn, update_projectile_movement, Boomerang, Grenade, BOOMERANG_CAPTURE_MPX,
    BOOMERANG_RETURN_UNITS, EXPLOSION_DAMAGE, EXPLOSION_LIFETIME_UNITS, EXPLOSION_RADIUS_MPX,
    GRENADE_FUSE_UNITS, LOB_SPEED_PX,
};

#[test]
fn repeated_hits_detonate_a_grenade_exactly_once() {
    let mut g = Grenade::new();
    assert_eq!(g.explode_timer, GRENADE_FUSE_UNITS);
    let mut detonations = 0;
    for _ in 0..4 {
        if g.on_hit() {
            detonations += 1;
        }
    }
    assert_eq!(detonations, 1);
    assert!(g.exploded);
}

#[test]
fn fuse_expiry_detonates_a_grenade_exactly_once() {
    let mut g = Grenade::new();
    let mut detonations = 0;
    // Mixed fuse ticks and late hits: 100 + 300 covers the 360-unit fuse.
    if g.tick(100) {
        detonations += 1;
    }
    if g.tick(300) {
        detonations += 1;
    }
    if g.tick(500) {
        detonations += 1;
    }
    if g.on_hit() {
        detonations += 1;
    }
    assert_eq!(detonations, 1);
}

#[test]
fn hit_before_fuse_wins_and_latches() {
    let mut g = Grenade::new();
    assert!(g.on_hit());
    assert!(!g.tick(1000));
    assert!(!g.on_hit());
}

#[test]
fn explosion_carries_the_fixed_area_effect() {
    let ex = explosion_spawn(Vec2 { x: 7, y: -9 });
    assert_eq!(ex.pos, Vec2 { x: 7, y: -9 });
    assert_eq!(ex.hit_box.damage, EXPLOSION_DAMAGE);
    assert!(ex.hit_box.knockback.is_none());
    assert_eq!(ex.radius, EXPLOSION_RADIUS_MPX);
    assert_eq!(ex.lifetime, EXPLOSION_LIFETIME_UNITS);
}

#[test]
fn boomerang_distance_never_grows_once_returning() {
    let dir = Vec2 { x: 1000, y: 0 };
    let mut b = Boomerang::new(dir);
    assert_eq!(b.return_time, BOOMERANG_RETURN_UNITS);
    assert_eq!(b.speed, LOB_SPEED_PX);
    let player = Vec2 { x: 0, y: 0 };
    let mut pos = Vec2 { x: 0, y: 0 };

    // Outbound phase: the boomerang flies straight out.
    let (p1, gone1) = b.fly(pos, player, 200);
    assert!(!gone1);
    assert_eq!(p1, Vec2 { x: 50_000, y: 0 });
    pos = p1;
    let (p2, gone2) = b.fly(pos, player, 200);
    assert!(!gone2);
    assert_eq!(p2, Vec2 { x: 100_000, y: 0 });
    pos = p2;

    // Return phase: distance to the player is non-increasing each tick.
    let mut last = dist2_u64(pos, player);
    loop {
        let (p, gone) = b.fly(pos, player, 120);
        let d = dist2_u64(p, player);
        assert!(d <= last);
        if gone {
            // Removed the tick it is already inside the capture radius,
            // with its position untouched.
            assert!(last < BOOMERANG_CAPTURE_MPX * BOOMERANG_CAPTURE_MPX);
            assert_eq!(p, pos);
            break;
        }
        pos = p;
        last = d;
    }
    assert!(dist2_u64(pos, player) < BOOMERANG_CAPTURE_MPX * BOOMERANG_CAPTURE_MPX);
}

#[test]
fn linear_projectile_moves_at_direction_times_speed() {
    let pos = Vec2 { x: 0, y: 0 };
    let dir = Vec2 { x: 0, y: 1000 };
    // 200 px/s for a tenth of a second: 20 pixels, in milli-pixels.
    let p = update_projectile_movement(pos, dir, 200, 60);
    assert_eq!(p, Vec2 { x: 0, y: 20_000 });
}
