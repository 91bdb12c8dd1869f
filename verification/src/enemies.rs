//! Enemy actors: the chase behaviour, death tagging, and despawn
//! bookkeeping.
use vstd::prelude::*;

use crate::combat::EntityId;
use crate::combat::Knockback;
use crate::geom::abs1;
use crate::geom::in_world;
use crate::geom::spec_normalize;
use crate::geom::Vec2;
use crate::geom::DIR_SCALE;
use crate::health::EnemyHealth;

pub mod spawner;

verus! {

/// A fresh enemy's vitality.
pub const ENEMY_MAX_HEALTH: u8 = 10;

/// How fast an enemy chases the player, in pixels per second.
pub const ENEMY_CHASE_SPEED: u32 = 50;

/// A live enemy actor and the shapes it owns.
#[derive(Clone, Copy, Debug, PartialEq, Eq, Structural)]
pub struct EnemyActor {
    /// The actor entity, which carries the rigid-body role.
    pub id: EntityId,
    /// Child shape that strikes the player on contact.
    pub hit_box_id: EntityId,
    /// Child shape that receives projectile hits.
    pub hurt_box_id: EntityId,
    pub pos: Vec2,
    /// Requested velocity, in milli-pixels per second.
    pub velocity: Vec2,
    pub facing: Vec2,
    pub health: EnemyHealth,
    pub knockback: Knockback,
    /// The death tag: set once vitality reaches zero, never cleared.
    pub dead: bool,
}

impl EnemyActor {
    /// Position, facing, velocity and combat state stay inside the
    /// ranges the movement arithmetic is proved for.
    pub open spec fn wf(self) -> bool {
        &&& in_world(self.pos)
        &&& abs1(self.velocity.x as int) <= 1_000_000
        &&& abs1(self.velocity.y as int) <= 1_000_000
        &&& abs1(self.facing.x as int) <= DIR_SCALE
        &&& abs1(self.facing.y as int) <= DIR_SCALE
        &&& self.health.wf()
        &&& self.knockback.wf()
    }

    /// A freshly spawned chaser at `pos` with the given shape handles:
    /// full vitality, facing along the positive x axis, at rest.
    pub fn new(id: EntityId, hit_box_id: EntityId, hurt_box_id: EntityId, pos: Vec2) -> (r: Self)
        requires
            in_world(pos),
        ensures
            r.id == id,
            r.hit_box_id == hit_box_id,
            r.hurt_box_id == hurt_box_id,
            r.pos == pos,
            r.health.current == ENEMY_MAX_HEALTH,
            r.health.max == ENEMY_MAX_HEALTH,
            !r.dead,
            r.knockback.remaining_time == 0,
            r.wf(),
    {
        EnemyActor {
            id,
            hit_box_id,
            hurt_box_id,
            pos,
            velocity: Vec2 { x: 0, y: 0 },
            facing: Vec2 { x: DIR_SCALE, y: 0 },
            health: EnemyHealth::new(ENEMY_MAX_HEALTH),
            knockback: Knockback::new(),
            dead: false,
        }
    }

    /// The chase behaviour: unless a knockback override is active, the
    /// enemy asks to move straight at the player at its chase speed and
    /// faces that way.
    pub fn follow_player_ai(&mut self, player_pos: Vec2)
        requires
            old(self).wf(),
            in_world(player_pos),
        ensures
            final(self).wf(),
            *final(self) == (EnemyActor {
                velocity: final(self).velocity,
                facing: final(self).facing,
                ..*old(self)
            }),
            old(self).knockback.remaining_time > 0 ==> *final(self) == *old(self),
            old(self).knockback.remaining_time == 0 ==> {
                let dir = spec_normalize(
                    Vec2 {
                        x: (player_pos.x - old(self).pos.x) as i64,
                        y: (player_pos.y - old(self).pos.y) as i64,
                    },
                );
                &&& final(self).facing == dir
                &&& final(self).velocity.x == dir.x * ENEMY_CHASE_SPEED
                &&& final(self).velocity.y == dir.y * ENEMY_CHASE_SPEED
            },
    {
        if self.knockback.is_active() {
            return ;
        }
        let dir = player_pos.sub(self.pos).normalize_or_zero();
        proof {
            assert(abs1(dir.x as int) * ENEMY_CHASE_SPEED <= 1_000_000 && abs1(dir.y as int)
                * ENEMY_CHASE_SPEED <= 1_000_000) by (nonlinear_arith)
                requires
                    0 <= abs1(dir.x as int) <= 1000,
                    0 <= abs1(dir.y as int) <= 1000,
            ;
            assert(-1_000_000 <= dir.x * ENEMY_CHASE_SPEED <= 1_000_000 && -1_000_000 <= dir.y
                * ENEMY_CHASE_SPEED <= 1_000_000) by (nonlinear_arith)
                requires
                    -1000 <= dir.x <= 1000,
                    -1000 <= dir.y <= 1000,
            ;
        }
        self.velocity = dir.scale(ENEMY_CHASE_SPEED as i64);
        self.facing = dir;
    }

    /// Death tagging: an enemy whose vitality has reached zero is tagged
    /// dead. The tag latches — re-tagging a dead actor changes nothing —
    /// and despawning is left to a later pipeline stage.
    pub fn trigger_death(&mut self)
        ensures
            final(self).dead == (old(self).dead || old(self).health.current == 0),
            *final(self) == (EnemyActor { dead: final(self).dead, ..*old(self) }),
    {
        if self.health.current == 0 {
            self.dead = true;
        }
    }
}

} // verus!
