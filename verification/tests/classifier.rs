use re_rolling::combat::{check_hits, ClassifiedEvent, HitBox, Scene, ShapeRec};
use re_rolling::health::PlayerHealth;

fn two_actor_scene() -> Scene {
    // Actor 1 owns hit-box shape 10; actor 2 owns hurt-box shape 20.
    Scene {
        shapes: vec![
            ShapeRec {
                id: 10,
                parent: Some(1),
                hit_box: Some(HitBox { damage: 4, knockback: None }),
                hurt_box: false,
            },
            ShapeRec { id: 20, parent: Some(2), hit_box: None, hurt_box: true },
        ],
        body_ids: vec![1, 2],
        enemy_ids: vec![],
        player: 1,
        player_health: PlayerHealth { current: 4, max: 4 },
    }
}

#[test]
fn hit_box_over_hurt_box_yields_one_hit_event() {
    let scene = two_actor_scene();
    let r = scene.classify(10, 20);
    match r {
        Some(ClassifiedEvent::Hit(ev)) => {
            assert_eq!(ev.attacker, 1);
            assert_eq!(ev.defender, 2);
            assert_eq!(ev.damage, 4);
            assert!(ev.knockback.is_none());
        }
        _ => panic!("expected a hit event"),
    }
}

#[test]
fn classification_ignores_shape_order() {
    let scene = two_actor_scene();
    assert_eq!(scene.classify(10, 20), scene.classify(20, 10));
}

#[test]
fn unresolvable_owner_skips_the_pair() {
    let mut scene = two_actor_scene();
    // Shape 30 has a parent with no rigid-body role: no owner resolves.
    scene.shapes.push(ShapeRec { id: 30, parent: Some(99), hit_box: None, hurt_box: true });
    assert_eq!(scene.classify(10, 30), None);
    assert_eq!(scene.classify(30, 10), None);
}

#[test]
fn world_geometry_pairs_yield_nothing() {
    let scene = two_actor_scene();
    // Two plain owners, neither hit/hurt semantics nor a player-enemy pair.
    assert_eq!(scene.classify(1, 2), None);
}

#[test]
fn player_contact_with_enemy_yields_player_hit() {
    let mut scene = two_actor_scene();
    scene.enemy_ids = vec![2];
    let r = scene.classify(1, 2);
    match r {
        Some(ClassifiedEvent::PlayerHit(ev)) => assert_eq!(ev.enemy, 2),
        _ => panic!("expected a player hit event"),
    }
    // The same contact reported the other way round resolves identically.
    assert_eq!(scene.classify(2, 1), r);
}

#[test]
fn dead_player_registers_no_player_hit() {
    let mut scene = two_actor_scene();
    scene.enemy_ids = vec![2];
    scene.player_health = PlayerHealth { current: 0, max: 4 };
    assert_eq!(scene.classify(1, 2), None);
}

#[test]
fn batch_produces_exactly_one_event_per_qualifying_pair() {
    let mut scene = two_actor_scene();
    scene.enemy_ids = vec![2];
    let pairs = vec![(10, 20), (1, 2), (5, 6), (20, 10)];
    let events = check_hits(&scene, &pairs);
    // The unknown pair (5, 6) is skipped; each other pair gives one event.
    assert_eq!(events.len(), 3);
    assert!(matches!(events[0], ClassifiedEvent::Hit(_)));
    assert!(matches!(events[1], ClassifiedEvent::PlayerHit(_)));
    assert!(matches!(events[2], ClassifiedEvent::Hit(_)));
}

#[test]
fn negative_damage_clamps_at_construction() {
    let hb = HitBox::new(-5);
    assert_eq!(hb.damage, 0);
    let hb2 = HitBox::new(1000);
    assert_eq!(hb2.damage, 255);
    let hb3 = HitBox::new(40);
    assert_eq!(hb3.damage, 40);
}
