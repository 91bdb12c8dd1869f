//! Hit semantics: knockback, hit boxes, and the collision event classifier.
//!
//! The physics collaborator reports which shapes began to overlap; this
//! module resolves each shape to its owning actor and turns qualifying
//! pairs into semantic events, and it owns the timed velocity override
//! that a knockback imposes on the defender.
use vstd::prelude::*;

use crate::FRAME_TIME_UNITS;
use crate::geom::Vec2;
use crate::geom::abs1;
use crate::geom::in_world;
use crate::geom::lemma_mul_div_le;
use crate::geom::mul_div_toward_zero;
use crate::geom::scaled_toward_zero;
use crate::geom::spec_normalize;
use crate::geom::spec_zero;
use crate::geom::COORD_LIMIT;
use crate::geom::DIR_SCALE;
use crate::health::PlayerHealth;

verus! {

/// A stable handle to an entity of the scene.
pub type EntityId = u64;

/// Which way a knockback pushes the defender.
#[derive(Clone, Copy, Debug, PartialEq, Eq, Structural)]
pub enum KnockbackDirection {
    /// Push along the line from the attacker to the defender.
    AwayFromAttacker,
    /// Push the way the attacker is facing.
    AttackerFacing,
}

impl KnockbackDirection {
    /// The unit direction (at scale `DIR_SCALE`) the defender is pushed.
    pub open spec fn spec_direction(self, atk_pos: Vec2, def_pos: Vec2, atk_facing: Vec2) -> Vec2 {
        match self {
            KnockbackDirection::AwayFromAttacker => spec_normalize(
                Vec2 { x: (def_pos.x - atk_pos.x) as i64, y: (def_pos.y - atk_pos.y) as i64 },
            ),
            KnockbackDirection::AttackerFacing => atk_facing,
        }
    }

    /// Resolves the push direction: away from the attacker it is the
    /// normalised offset between the two positions (zero if they
    /// coincide); facing is taken from the attacker unchanged.
    pub fn compute_direction(&self, atk_pos: Vec2, def_pos: Vec2, atk_facing: Vec2) -> (r: Vec2)
        requires
            in_world(atk_pos),
            in_world(def_pos),
            abs1(atk_facing.x as int) <= DIR_SCALE,
            abs1(atk_facing.y as int) <= DIR_SCALE,
        ensures
            r == self.spec_direction(atk_pos, def_pos, atk_facing),
            abs1(r.x as int) <= DIR_SCALE,
            abs1(r.y as int) <= DIR_SCALE,
    {
        match self {
            KnockbackDirection::AwayFromAttacker => {
                let diff = def_pos.sub(atk_pos);
                diff.normalize_or_zero()
            },
            KnockbackDirection::AttackerFacing => atk_facing,
        }
    }
}

/// How a hit throws the defender: direction policy, duration in 60 Hz
/// logic frames, and total distance in pixels.
#[derive(Clone, Copy, Debug, PartialEq, Eq, Structural)]
pub struct KnockbackSpec {
    pub direction: KnockbackDirection,
    pub frames: u8,
    pub distance: u32,
}

impl KnockbackSpec {
    /// A knockback must last at least one frame and fit in the world,
    /// so that the implied average velocity is well defined.
    pub open spec fn wf(self) -> bool {
        1 <= self.frames && self.distance <= 1_000_000
    }
}

/// Attacker semantics carried by a collision shape: damage dealt on a
/// qualifying overlap, plus an optional knockback.
#[derive(Clone, Copy, Debug, PartialEq, Eq, Structural)]
pub struct HitBox {
    pub damage: u8,
    pub knockback: Option<KnockbackSpec>,
}

impl HitBox {
    /// Builds a hit box; a negative damage value is clamped to zero at
    /// construction time (and one beyond the ledger's range saturates).
    pub fn new(damage: i32) -> (r: Self)
        ensures
            r.damage == if damage < 0 { 0 } else if damage > 255 { 255 } else { damage },
            r.knockback is None,
    {
        let clamped: u8 = if damage < 0 {
            0
        } else if damage > 255 {
            255
        } else {
            damage as u8
        };
        HitBox { damage: clamped, knockback: None }
    }

    /// The same hit box carrying a knockback.
    pub fn with_knockback(self, knockback: KnockbackSpec) -> (r: Self)
        ensures
            r.damage == self.damage,
            r.knockback == Some(knockback),
    {
        HitBox { damage: self.damage, knockback: Some(knockback) }
    }
}

/// A resolved hit: an attacker's hit box overlapped a defender's hurt box.
#[derive(Clone, Copy, Debug, PartialEq, Eq, Structural)]
pub struct HitEvent {
    pub attacker: EntityId,
    pub defender: EntityId,
    pub damage: u8,
    pub knockback: Option<KnockbackSpec>,
}

/// A resolved body contact between an enemy and the living player.
#[derive(Clone, Copy, Debug, PartialEq, Eq, Structural)]
pub struct PlayerHitEvent {
    pub enemy: EntityId,
}

/// A timed velocity override imposed on an actor by a hit.
///
/// The remaining offset still to traverse and the remaining time encode
/// the override velocity as the exact ratio `remaining_offset /
/// remaining_time`; each tick hands out the slice of the offset that the
/// elapsed time covers, so the slices sum to the full offset with no
/// rounding drift.
#[derive(Clone, Copy, Debug, PartialEq, Eq, Structural)]
pub struct Knockback {
    /// Displacement, in milli-pixels, still to traverse.
    pub remaining_offset: Vec2,
    /// Time units left in the override window.
    pub remaining_time: u32,
}

impl Knockback {
    /// The offset fits in the world box, and an expired knockback has
    /// nothing left to traverse.
    pub open spec fn wf(self) -> bool {
        &&& abs1(self.remaining_offset.x as int) <= COORD_LIMIT
        &&& abs1(self.remaining_offset.y as int) <= COORD_LIMIT
        &&& (self.remaining_time == 0 ==> self.remaining_offset == spec_zero())
    }

    /// An idle knockback: nothing to traverse, no time remaining.
    pub fn new() -> (r: Self)
        ensures
            r.remaining_time == 0,
            r.remaining_offset == spec_zero(),
            r.wf(),
    {
        Knockback { remaining_offset: Vec2 { x: 0, y: 0 }, remaining_time: 0 }
    }

    /// A knockback is active exactly while time remains in its window.
    pub fn is_active(&self) -> (r: bool)
        ensures
            r == (self.remaining_time > 0),
    {
        self.remaining_time > 0
    }

    /// Arms the override: the window lasts `frames` logic frames and the
    /// full `offset` (milli-pixels) is traversed over it.
    pub fn start(&mut self, frames: u8, offset: Vec2)
        requires
            frames >= 1,
            abs1(offset.x as int) <= COORD_LIMIT,
            abs1(offset.y as int) <= COORD_LIMIT,
        ensures
            final(self).remaining_time == frames * FRAME_TIME_UNITS,
            final(self).remaining_offset == offset,
            final(self).wf(),
    {
        self.remaining_time = (frames as u32) * FRAME_TIME_UNITS;
        self.remaining_offset = offset;
    }

    /// One tick of the override: the state afterwards and the
    /// displacement handed to the physics collaborator for this tick.
    pub open spec fn spec_tick(self, dt: u32) -> (Knockback, Vec2) {
        if self.remaining_time == 0 {
            (self, spec_zero())
        } else if dt >= self.remaining_time {
            (Knockback { remaining_offset: spec_zero(), remaining_time: 0 }, self.remaining_offset)
        } else {
            let mx = scaled_toward_zero(
                self.remaining_offset.x as int,
                dt as int,
                self.remaining_time as int,
            );
            let my = scaled_toward_zero(
                self.remaining_offset.y as int,
                dt as int,
                self.remaining_time as int,
            );
            (
                Knockback {
                    remaining_offset: Vec2 {
                        x: (self.remaining_offset.x - mx) as i64,
                        y: (self.remaining_offset.y - my) as i64,
                    },
                    remaining_time: (self.remaining_time - dt) as u32,
                },
                Vec2 { x: mx as i64, y: my as i64 },
            )
        }
    }

    /// A tick conserves the offset: the displacement handed out plus what
    /// remains equals what there was, and well-formedness is preserved.
    pub proof fn lemma_tick_conserves(self, dt: u32)
        requires
            self.wf(),
        ensures
            ({
                let (k2, d) = self.spec_tick(dt);
                &&& k2.wf()
                &&& d.x + k2.remaining_offset.x == self.remaining_offset.x
                &&& d.y + k2.remaining_offset.y == self.remaining_offset.y
                &&& abs1(d.x as int) <= abs1(self.remaining_offset.x as int)
                &&& abs1(d.y as int) <= abs1(self.remaining_offset.y as int)
                &&& k2.remaining_time == if dt >= self.remaining_time {
                    0int
                } else {
                    self.remaining_time - dt
                }
            }),
    {
        if self.remaining_time > 0 && dt < self.remaining_time {
            let t = self.remaining_time as int;
            let x = self.remaining_offset.x as int;
            let y = self.remaining_offset.y as int;
            lemma_mul_div_le(abs1(x), dt as int, t);
            lemma_mul_div_le(abs1(y), dt as int, t);
        }
    }

    /// Advances the override by `dt` time units and returns the
    /// displacement, in milli-pixels, to apply to the actor this tick.
    pub fn tick(&mut self, dt: u32) -> (displacement: Vec2)
        requires
            old(self).wf(),
        ensures
            *final(self) == old(self).spec_tick(dt).0,
            displacement == old(self).spec_tick(dt).1,
            final(self).wf(),
    {
        proof {
            self.lemma_tick_conserves(dt);
        }
        if self.remaining_time == 0 {
            Vec2 { x: 0, y: 0 }
        } else if dt >= self.remaining_time {
            let d = self.remaining_offset;
            self.remaining_offset = Vec2 { x: 0, y: 0 };
            self.remaining_time = 0;
            d
        } else {
            let t = self.remaining_time;
            proof {
                assert(abs1(self.remaining_offset.x as int) * (dt as int) <= i64::MAX)
                    by (nonlinear_arith)
                    requires
                        abs1(self.remaining_offset.x as int) <= 1_000_000_000,
                        dt <= u32::MAX,
                ;
                assert(abs1(self.remaining_offset.y as int) * (dt as int) <= i64::MAX)
                    by (nonlinear_arith)
                    requires
                        abs1(self.remaining_offset.y as int) <= 1_000_000_000,
                        dt <= u32::MAX,
                ;
            }
            let mx = mul_div_toward_zero(self.remaining_offset.x, dt as u64, t as u64);
            let my = mul_div_toward_zero(self.remaining_offset.y, dt as u64, t as u64);
            self.remaining_offset = Vec2 {
                x: self.remaining_offset.x - mx,
                y: self.remaining_offset.y - my,
            };
            self.remaining_time = t - dt;
            Vec2 { x: mx, y: my }
        }
    }
}

/// Arms a defender's knockback from a hit's specification: the push
/// direction is resolved by the specification's policy, the full offset
/// is that direction times the specified distance, and the override
/// window is the specified number of logic frames.
pub fn apply_hit_knockback(
    knockback: &mut Knockback,
    spec: KnockbackSpec,
    atk_pos: Vec2,
    def_pos: Vec2,
    atk_facing: Vec2,
)
    requires
        spec.wf(),
        in_world(atk_pos),
        in_world(def_pos),
        abs1(atk_facing.x as int) <= DIR_SCALE,
        abs1(atk_facing.y as int) <= DIR_SCALE,
    ensures
        ({
            let dir = spec.direction.spec_direction(atk_pos, def_pos, atk_facing);
            &&& final(knockback).remaining_time == spec.frames * FRAME_TIME_UNITS
            &&& final(knockback).remaining_offset.x == dir.x * spec.distance
            &&& final(knockback).remaining_offset.y == dir.y * spec.distance
            &&& final(knockback).wf()
        }),
{
    let dir = spec.direction.compute_direction(atk_pos, def_pos, atk_facing);
    proof {
        assert(abs1(dir.x as int) * spec.distance <= 1_000_000_000 && abs1(dir.y as int)
            * spec.distance <= 1_000_000_000) by (nonlinear_arith)
            requires
                0 <= abs1(dir.x as int) <= 1000,
                0 <= abs1(dir.y as int) <= 1000,
                spec.distance <= 1_000_000u32,
        ;
        assert(-1_000_000_000 <= dir.x * spec.distance <= 1_000_000_000 && -1_000_000_000 <= dir.y
            * spec.distance <= 1_000_000_000) by (nonlinear_arith)
            requires
                -1000 <= dir.x <= 1000,
                -1000 <= dir.y <= 1000,
                spec.distance <= 1_000_000u32,
        ;
    }
    let offset = dir.scale(spec.distance as i64);
    knockback.start(spec.frames, offset);
}

/// A collision shape as the classifier sees it: its owning-actor data
/// and the combat semantics it carries.
#[derive(Clone, Copy, Debug, PartialEq, Eq, Structural)]
pub struct ShapeRec {
    /// The shape entity itself.
    pub id: EntityId,
    /// Its immediate parent entity, if it has one.
    pub parent: Option<EntityId>,
    /// Attacker semantics, if the shape is a hit box.
    pub hit_box: Option<HitBox>,
    /// Defender marker: the shape is a hurt box.
    pub hurt_box: bool,
}

/// A semantic combat event produced by the classifier.
#[derive(Clone, Copy, Debug, PartialEq, Eq, Structural)]
pub enum ClassifiedEvent {
    Hit(HitEvent),
    PlayerHit(PlayerHitEvent),
}

/// First shape of `s` with the given id, if any.
pub open spec fn spec_find_shape(s: Seq<ShapeRec>, e: EntityId) -> Option<ShapeRec>
    decreases s.len(),
{
    if s.len() == 0 {
        None
    } else if s[0].id == e {
        Some(s[0])
    } else {
        spec_find_shape(s.drop_first(), e)
    }
}

/// Linear scan for an id in a handle list.
pub(crate) fn contains_id(ids: &Vec<EntityId>, e: EntityId) -> (r: bool)
    ensures
        r == ids@.contains(e),
{
    let mut i: usize = 0;
    while i < ids.len()
        invariant
            i <= ids@.len(),
            forall|j: int| 0 <= j < i ==> ids@[j] != e,
        decreases ids@.len() - i,
    {
        if ids[i] == e {
            return true;
        }
        i = i + 1;
    }
    false
}

/// The scene snapshot the classifier works on: an arena of shapes, the
/// set of entities that carry a rigid-body role, the player actor with a
/// snapshot of its vitality, and the entities tagged as enemies.
pub struct Scene {
    pub shapes: Vec<ShapeRec>,
    pub body_ids: Vec<EntityId>,
    pub enemy_ids: Vec<EntityId>,
    pub player: EntityId,
    pub player_health: PlayerHealth,
}

impl Scene {
    /// The entity carries a rigid-body role.
    pub open spec fn spec_has_body(self, e: EntityId) -> bool {
        self.body_ids@.contains(e)
    }

    /// The shape record for `e`, if the arena holds one.
    pub open spec fn spec_shape(self, e: EntityId) -> Option<ShapeRec> {
        spec_find_shape(self.shapes@, e)
    }

    /// Attacker semantics carried by shape `e`, if any.
    pub open spec fn spec_hit_box(self, e: EntityId) -> Option<HitBox> {
        match self.spec_shape(e) {
            Some(s) => s.hit_box,
            None => None,
        }
    }

    /// Whether shape `e` is a hurt box.
    pub open spec fn spec_hurt_box(self, e: EntityId) -> bool {
        match self.spec_shape(e) {
            Some(s) => s.hurt_box,
            None => false,
        }
    }

    /// The actor owning shape `e`: the shape itself if it carries a
    /// rigid-body role, else its immediate parent if that does; no
    /// deeper ownership chain is searched.
    pub open spec fn spec_owner_of(self, e: EntityId) -> Option<EntityId> {
        if self.spec_has_body(e) {
            Some(e)
        } else {
            match self.spec_shape(e) {
                Some(s) => match s.parent {
                    Some(p) => if self.spec_has_body(p) {
                        Some(p)
                    } else {
                        None
                    },
                    None => None,
                },
                None => None,
            }
        }
    }

    /// The event (at most one) that a collision between shapes `e1` and
    /// `e2` produces. A pair with an unresolvable owner produces none; a
    /// hit box over a hurt box produces a hit; a body contact between
    /// the living player and an enemy produces a player hit; anything
    /// else (world geometry and the like) is ignored.
    pub open spec fn spec_classify(self, e1: EntityId, e2: EntityId) -> Option<ClassifiedEvent> {
        match (self.spec_owner_of(e1), self.spec_owner_of(e2)) {
            (Some(o1), Some(o2)) => {
                if self.spec_hit_box(e1) is Some && self.spec_hurt_box(e2) {
                    Some(
                        ClassifiedEvent::Hit(
                            HitEvent {
                                attacker: o1,
                                defender: o2,
                                damage: self.spec_hit_box(e1)->Some_0.damage,
                                knockback: self.spec_hit_box(e1)->Some_0.knockback,
                            },
                        ),
                    )
                } else if self.spec_hit_box(e1) is None && self.spec_hit_box(e2) is Some
                    && self.spec_hurt_box(e1) {
                    Some(
                        ClassifiedEvent::Hit(
                            HitEvent {
                                attacker: o2,
                                defender: o1,
                                damage: self.spec_hit_box(e2)->Some_0.damage,
                                knockback: self.spec_hit_box(e2)->Some_0.knockback,
                            },
                        ),
                    )
                } else if self.spec_hit_box(e1) is None && self.spec_hit_box(e2) is None && o1
                    == self.player && self.player_health.current > 0 && self.enemy_ids@.contains(
                    o2,
                ) {
                    Some(ClassifiedEvent::PlayerHit(PlayerHitEvent { enemy: o2 }))
                } else if self.spec_hit_box(e1) is None && self.spec_hit_box(e2) is None && o2
                    == self.player && self.player_health.current > 0 && self.enemy_ids@.contains(
                    o1,
                ) {
                    Some(ClassifiedEvent::PlayerHit(PlayerHitEvent { enemy: o1 }))
                } else {
                    None
                }
            },
            _ => None,
        }
    }

    /// Linear scan of the shape arena.
    fn find_shape(&self, e: EntityId) -> (r: Option<ShapeRec>)
        ensures
            r == self.spec_shape(e),
    {
        let mut i: usize = 0;
        proof {
            assert(self.shapes@.skip(0) =~= self.shapes@);
        }
        while i < self.shapes.len()
            invariant
                i <= self.shapes@.len(),
                spec_find_shape(self.shapes@, e) == spec_find_shape(
                    self.shapes@.skip(i as int),
                    e,
                ),
            decreases self.shapes@.len() - i,
        {
            proof {
                assert(self.shapes@.skip(i as int)[0] == self.shapes@[i as int]);
                assert(self.shapes@.skip(i as int).drop_first() =~= self.shapes@.skip(i as int + 1));
            }
            if self.shapes[i].id == e {
                return Some(self.shapes[i]);
            }
            i = i + 1;
        }
        None
    }

    /// Resolves a shape to its owning actor, checking the shape itself
    /// and its immediate parent for a rigid-body role.
    pub fn owner_of(&self, e: EntityId) -> (r: Option<EntityId>)
        ensures
            r == self.spec_owner_of(e),
    {
        if contains_id(&self.body_ids, e) {
            return Some(e);
        }
        match self.find_shape(e) {
            Some(s) => match s.parent {
                Some(p) => if contains_id(&self.body_ids, p) {
                    Some(p)
                } else {
                    None
                },
                None => None,
            },
            None => None,
        }
    }

    /// Classifies one collision-begin pair into at most one semantic
    /// event, as `spec_classify` describes.
    pub fn classify(&self, e1: EntityId, e2: EntityId) -> (r: Option<ClassifiedEvent>)
        ensures
            r == self.spec_classify(e1, e2),
    {
        let o1 = match self.owner_of(e1) {
            Some(o) => o,
            None => {
                return None;
            },
        };
        let o2 = match self.owner_of(e2) {
            Some(o) => o,
            None => {
                return None;
            },
        };
        let h1 = match self.find_shape(e1) {
            Some(s) => s.hit_box,
            None => None,
        };
        let h2 = match self.find_shape(e2) {
            Some(s) => s.hit_box,
            None => None,
        };
        let u1 = match self.find_shape(e1) {
            Some(s) => s.hurt_box,
            None => false,
        };
        let u2 = match self.find_shape(e2) {
            Some(s) => s.hurt_box,
            None => false,
        };
        match h1 {
            Some(hb) => {
                if u2 {
                    Some(
                        ClassifiedEvent::Hit(
                            HitEvent {
                                attacker: o1,
                                defender: o2,
                                damage: hb.damage,
                                knockback: hb.knockback,
                            },
                        ),
                    )
                } else {
                    None
                }
            },
            None => match h2 {
                Some(hb) => {
                    if u1 {
                        Some(
                            ClassifiedEvent::Hit(
                                HitEvent {
                                    attacker: o2,
                                    defender: o1,
                                    damage: hb.damage,
                                    knockback: hb.knockback,
                                },
                            ),
                        )
                    } else {
                        None
                    }
                },
                None => {
                    if o1 == self.player && self.player_health.current > 0 && contains_id(&self.enemy_ids, o2) {
                        Some(ClassifiedEvent::PlayerHit(PlayerHitEvent { enemy: o2 }))
                    } else if o2 == self.player && self.player_health.current > 0
                        && contains_id(&self.enemy_ids, o1) {
                        Some(ClassifiedEvent::PlayerHit(PlayerHitEvent { enemy: o1 }))
                    } else {
                        None
                    }
                },
            },
        }
    }
}

/// The semantic events of a batch of collision-begin pairs, in report
/// order: each pair contributes the at most one event `spec_classify`
/// gives it.
pub open spec fn spec_classify_batch(scene: Scene, pairs: Seq<(EntityId, EntityId)>) -> Seq<
    ClassifiedEvent,
>
    decreases pairs.len(),
{
    if pairs.len() == 0 {
        Seq::empty()
    } else {
        let rest = spec_classify_batch(scene, pairs.drop_first());
        match scene.spec_classify(pairs[0].0, pairs[0].1) {
            Some(ev) => seq![ev] + rest,
            None => rest,
        }
    }
}

/// Turns the tick's batch of collision-begin pairs into semantic events,
/// in the order the physics collaborator reported the pairs. Exactly one
/// event is produced per qualifying pair; pairs with unresolvable
/// ownership or without combat semantics produce none.
pub fn check_hits(scene: &Scene, pairs: &Vec<(EntityId, EntityId)>) -> (r: Vec<ClassifiedEvent>)
    ensures
        r@ == spec_classify_batch(*scene, pairs@),
{
    let mut out: Vec<ClassifiedEvent> = Vec::new();
    let mut i: usize = 0;
    proof {
        assert(pairs@.skip(0) =~= pairs@);
        assert(out@ + spec_classify_batch(*scene, pairs@) =~= spec_classify_batch(*scene, pairs@));
    }
    while i < pairs.len()
        invariant
            i <= pairs@.len(),
            out@ + spec_classify_batch(*scene, pairs@.skip(i as int)) == spec_classify_batch(
                *scene,
                pairs@,
            ),
        decreases pairs@.len() - i,
    {
        proof {
            assert(pairs@.skip(i as int)[0] == pairs@[i as int]);
            assert(pairs@.skip(i as int).drop_first() =~= pairs@.skip(i as int + 1));
        }
        match scene.classify(pairs[i].0, pairs[i].1) {
            Some(ev) => {
                out.push(ev);
                proof {
                    assert(out@ + spec_classify_batch(*scene, pairs@.skip(i as int + 1))
                        =~= spec_classify_batch(*scene, pairs@));
                }
            },
            None => (),
        }
        i = i + 1;
    }
    proof {
        assert(pairs@.skip(pairs@.len() as int).len() == 0);
        assert(out@ =~= spec_classify_batch(*scene, pairs@));
    }
    out
}

/// Which event a pair produces does not depend on the order in which the
/// physics collaborator names the two shapes, as long as at most one of
/// the two shapes carries a hit box.
pub proof fn lemma_classify_order_independent(scene: Scene, a: EntityId, b: EntityId)
    requires
        !(scene.spec_hit_box(a) is Some && scene.spec_hit_box(b) is Some),
    ensures
        scene.spec_classify(a, b) == scene.spec_classify(b, a),
{
}

/// The knockback state left after ticking through the durations in `dts`.
pub open spec fn knockback_after(k: Knockback, dts: Seq<u32>) -> Knockback
    decreases dts.len(),
{
    if dts.len() == 0 {
        k
    } else {
        knockback_after(k.spec_tick(dts[0]).0, dts.drop_first())
    }
}

/// Total x-displacement handed out while ticking through `dts`.
pub open spec fn knockback_travel_x(k: Knockback, dts: Seq<u32>) -> int
    decreases dts.len(),
{
    if dts.len() == 0 {
        0
    } else {
        k.spec_tick(dts[0]).1.x + knockback_travel_x(k.spec_tick(dts[0]).0, dts.drop_first())
    }
}

/// Total y-displacement handed out while ticking through `dts`.
pub open spec fn knockback_travel_y(k: Knockback, dts: Seq<u32>) -> int
    decreases dts.len(),
{
    if dts.len() == 0 {
        0
    } else {
        k.spec_tick(dts[0]).1.y + knockback_travel_y(k.spec_tick(dts[0]).0, dts.drop_first())
    }
}

/// Sum of a sequence of tick durations.
pub open spec fn total_units(dts: Seq<u32>) -> int
    decreases dts.len(),
{
    if dts.len() == 0 {
        0
    } else {
        dts[0] + total_units(dts.drop_first())
    }
}

/// A sum of durations is never negative.
pub proof fn lemma_total_units_nonneg(dts: Seq<u32>)
    ensures
        total_units(dts) >= 0,
    decreases dts.len(),
{
    if dts.len() > 0 {
        lemma_total_units_nonneg(dts.drop_first());
    }
}

/// Integrating the override over any sequence of ticks that covers the
/// whole window reconstructs the armed offset exactly, and the knockback
/// is inactive afterwards.
pub proof fn lemma_knockback_round_trip(k: Knockback, dts: Seq<u32>)
    requires
        k.wf(),
        total_units(dts) >= k.remaining_time,
    ensures
        knockback_travel_x(k, dts) == k.remaining_offset.x,
        knockback_travel_y(k, dts) == k.remaining_offset.y,
        knockback_after(k, dts).remaining_time == 0,
    decreases dts.len(),
{
    if dts.len() == 0 {
        assert(k.remaining_time == 0);
    } else {
        k.lemma_tick_conserves(dts[0]);
        let (k2, d) = k.spec_tick(dts[0]);
        lemma_total_units_nonneg(dts.drop_first());
        lemma_knockback_round_trip(k2, dts.drop_first());
    }
}

} // verus!
