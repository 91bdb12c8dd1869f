//! The simulation context: every per-actor combat state in one place,
//! advanced once per tick by an explicit pipeline in a fixed order —
//! clocks, intent and movement, weapon fire, projectile flight, hit
//! classification, damage and knockback, detonations, lifetimes, death
//! tagging and despawn, and population bookkeeping.
//!
//! Work only a collaborator can do comes back as commands: creating the
//! entities a trigger pull or a spawn decision asked for (the
//! collaborator resolves the sampled spread or spawn angle into a unit
//! direction, which trigonometry this core does not carry) and playing
//! death effects.
use vstd::prelude::*;

use crate::combat::check_hits;
use crate::combat::ClassifiedEvent;
use crate::combat::EntityId;
use crate::combat::HitEvent;
use crate::combat::Knockback;
use crate::combat::KnockbackDirection;
use crate::combat::Scene;
use crate::combat::ShapeRec;
use crate::enemies::EnemyActor;
use crate::enemies::spawner::increase_difficulty;
use crate::enemies::spawner::spawn_enemies;
use crate::enemies::spawner::update_enemy_count;
use crate::enemies::spawner::EnemyCount;
use crate::enemies::spawner::Spawner;
use crate::game::spec_timers_after;
use crate::game::GameTimers;
use crate::game::Lifetime;
use crate::geom::abs1;
use crate::geom::clamp_to_world;
use crate::geom::in_world;
use crate::geom::spec_normalize;
use crate::geom::spec_zero;
use crate::geom::Vec2;
use crate::geom::COORD_LIMIT;
use crate::geom::DIR_SCALE;
use crate::health::PlayerHealth;
use crate::physics::CollisionGroups;
use crate::physics::GROUP_HIT;
use crate::physics::GROUP_PLAYER;
use crate::player::apply_post_hit_invuln;
use crate::player::deal_player_hit_damage;
use crate::player::flicker_player_during_invuln;
use crate::player::update_player_aim;
use crate::player::update_player_movement;
use crate::player::update_post_hit_invuln;
use crate::player::PlayerAim;
use crate::player::PlayerInput;
use crate::player::PostHitInvulnerability;
use crate::enemies::spawner::spec_difficulty_tier;
use crate::enemies::spawner::FULL_TURN_MDEG;
use crate::weapons::explosion_spawn;
use crate::weapons::fire_weapon;
use crate::weapons::spec_fire_outcome;
use crate::weapons::update_projectile_movement;
use crate::weapons::Boomerang;
use crate::weapons::Grenade;
use crate::weapons::ProjectileKind;
use crate::weapons::ProjectileSpawn;
use crate::weapons::Weapon;
use crate::weapons::WeaponChoice;
use crate::MAX_TICK_UNITS;

verus! {

/// The player's walking speed, in pixels per second.
pub const PLAYER_WALK_SPEED: u32 = 100;

/// A fresh player's vitality.
pub const PLAYER_MAX_HEALTH: u8 = 4;

/// Knockback a body contact gives the player: frames of override.
pub const PLAYER_HIT_KNOCKBACK_FRAMES: u8 = 10;

/// Knockback a body contact gives the player: distance in pixels.
pub const PLAYER_HIT_KNOCKBACK_DISTANCE: u32 = 25;

/// Work this core asks its collaborators to perform after a tick.
#[derive(Clone, Copy, Debug, PartialEq, Eq, Structural)]
pub enum WorldCommand {
    /// Create one enemy on the spawn circle at the sampled angle (in
    /// milli-degrees); the collaborator realises the angle as a unit
    /// direction and hands the position back through `apply_enemy_spawn`.
    SpawnEnemy { angle_mdeg: u32 },
    /// Create one projectile; the collaborator rotates the spawn's base
    /// direction by the sampled spread and hands the result back
    /// through `apply_projectile_spawn`.
    SpawnProjectile(ProjectileSpawn),
    /// Play a death effect where an enemy fell.
    DeathVfx { pos: Vec2 },
}

/// The projectile spawns among a command list, in order.
pub open spec fn projectile_commands(cmds: Seq<WorldCommand>) -> Seq<ProjectileSpawn>
    decreases cmds.len(),
{
    if cmds.len() == 0 {
        Seq::empty()
    } else {
        let rest = projectile_commands(cmds.drop_first());
        match cmds[0] {
            WorldCommand::SpawnProjectile(sp) => seq![sp] + rest,
            _ => rest,
        }
    }
}

/// The enemy-spawn angles among a command list, in order.
pub open spec fn enemy_spawn_commands(cmds: Seq<WorldCommand>) -> Seq<u32>
    decreases cmds.len(),
{
    if cmds.len() == 0 {
        Seq::empty()
    } else {
        let rest = enemy_spawn_commands(cmds.drop_first());
        match cmds[0] {
            WorldCommand::SpawnEnemy { angle_mdeg } => seq![angle_mdeg] + rest,
            _ => rest,
        }
    }
}

/// How many death effects a command list asks for.
pub open spec fn death_command_count(cmds: Seq<WorldCommand>) -> int
    decreases cmds.len(),
{
    if cmds.len() == 0 {
        0
    } else {
        (match cmds[0] {
            WorldCommand::DeathVfx { .. } => 1int,
            _ => 0int,
        }) + death_command_count(cmds.drop_first())
    }
}

/// Appending one command extends exactly the projection of its kind and
/// leaves the other two projections alone.
pub proof fn lemma_commands_push(cmds: Seq<WorldCommand>, c: WorldCommand)
    ensures
        projectile_commands(cmds.push(c)) == (match c {
            WorldCommand::SpawnProjectile(sp) => projectile_commands(cmds).push(sp),
            _ => projectile_commands(cmds),
        }),
        enemy_spawn_commands(cmds.push(c)) == (match c {
            WorldCommand::SpawnEnemy { angle_mdeg } => enemy_spawn_commands(cmds).push(angle_mdeg),
            _ => enemy_spawn_commands(cmds),
        }),
        death_command_count(cmds.push(c)) == death_command_count(cmds) + (match c {
            WorldCommand::DeathVfx { .. } => 1int,
            _ => 0int,
        }),
    decreases cmds.len(),
{
    let all = cmds.push(c);
    assert(all.len() == cmds.len() + 1);
    if cmds.len() == 0 {
        assert(all[0] == c);
        assert(all.drop_first() =~= cmds);
        assert(projectile_commands(cmds) =~= Seq::<ProjectileSpawn>::empty());
        assert(enemy_spawn_commands(cmds) =~= Seq::<u32>::empty());
        assert(death_command_count(cmds) == 0);
        match c {
            WorldCommand::SpawnProjectile(sp) => {
                assert(projectile_commands(all) =~= projectile_commands(cmds).push(sp));
            },
            WorldCommand::SpawnEnemy { angle_mdeg } => {
                assert(enemy_spawn_commands(all) =~= enemy_spawn_commands(cmds).push(angle_mdeg));
            },
            WorldCommand::DeathVfx { .. } => {
                assert(death_command_count(all) == 1);
            },
        }
    } else {
        assert(all[0] == cmds[0]);
        assert(all.drop_first() =~= cmds.drop_first().push(c));
        lemma_commands_push(cmds.drop_first(), c);
        match c {
            WorldCommand::SpawnProjectile(sp) => {
                assert(projectile_commands(all) =~= projectile_commands(cmds).push(sp));
            },
            WorldCommand::SpawnEnemy { angle_mdeg } => {
                assert(enemy_spawn_commands(all) =~= enemy_spawn_commands(cmds).push(angle_mdeg));
            },
            WorldCommand::DeathVfx { .. } => {},
        }
    }
}

/// Whether this tick performs the reset transition: the reset countdown
/// (as it stands after the tick's clock advance) has run out and the
/// player asks for the reset.
pub open spec fn spec_reset_fires(timers: GameTimers, dt: u32, input: PlayerInput) -> bool {
    let t = spec_timers_after(timers, dt);
    t.reset_time.elapsed >= t.reset_time.duration && input.reset_game
}

/// The weapon-stage obligation of one tick, witnessed by the weapon
/// `w0` the firing stage saw: on a reset tick `w0` is the fresh random
/// weapon the reset handed out, otherwise it is the pre-tick weapon;
/// either way `spec_fire_outcome` ties `w0`, the weapon the tick leaves
/// behind, and the tick's projectile commands to the intent snapshot —
/// evaluated at the state the firing stage runs in (after a reset the
/// player stands at the origin at full vitality).
pub open spec fn spec_tick_fire_outcome(
    pre: World,
    post_weapon: Weapon,
    spawns: Seq<ProjectileSpawn>,
    dt: u32,
    input: PlayerInput,
    w0: Weapon,
) -> bool {
    let resets = spec_reset_fires(pre.timers, dt, input);
    let alive_mid = if resets {
        pre.player.health.max > 0
    } else {
        pre.player.health.current > 0
    };
    let facing_mid = if pre.player.knockback.remaining_time == 0 && alive_mid && input.movement
        != spec_zero() {
        spec_normalize(input.movement)
    } else {
        pre.player.facing
    };
    let origin_mid = if resets {
        spec_zero()
    } else {
        pre.player.pos
    };
    &&& spec_fire_outcome(
        w0,
        post_weapon,
        spawns,
        dt,
        input.shoot,
        alive_mid,
        input.aim,
        facing_mid,
        origin_mid,
    )
    &&& (!resets ==> w0 == pre.player.weapon)
    &&& (resets ==> w0.stats == w0.equipped.spec_stats() && w0.ammo == w0.stats.max_ammo
        && !w0.reloading && w0.cooldown == 0)
}

/// Kind-specific projectile state.
#[derive(Clone, Copy, Debug, PartialEq, Eq, Structural)]
pub enum ProjectileFlight {
    /// Straight flight until the lifetime budget runs out.
    Linear,
    /// A fused charge in straight flight.
    Lobbed(Grenade),
    /// Out-and-return flight.
    Returning(Boomerang),
    /// A detonation's stationary area-effect attacker.
    Area,
}

/// A live projectile entity: its own shape carries the rigid-body role
/// and the hit box.
#[derive(Clone, Copy, Debug, PartialEq, Eq, Structural)]
pub struct ProjectileActor {
    pub id: EntityId,
    pub flight: ProjectileFlight,
    pub pos: Vec2,
    /// Flight direction, a unit vector at scale `DIR_SCALE`.
    pub dir: Vec2,
    /// Flight speed, in pixels per second.
    pub speed: u32,
    pub hit_box: crate::combat::HitBox,
    /// Budget for linear and area projectiles.
    pub lifetime: Lifetime,
    pub die_on_hit: bool,
}

impl ProjectileActor {
    /// Position, direction, speed and knockback stay inside the ranges
    /// the movement and override arithmetic is proved for.
    pub open spec fn wf(self) -> bool {
        &&& in_world(self.pos)
        &&& abs1(self.dir.x as int) <= DIR_SCALE
        &&& abs1(self.dir.y as int) <= DIR_SCALE
        &&& self.speed <= 250
        &&& (self.hit_box.knockback is Some ==> self.hit_box.knockback->Some_0.wf())
        &&& (self.flight is Returning ==> self.flight->Returning_0.wf())
    }
}

/// The player actor and every per-player combat state.
#[derive(Clone, Copy, Debug, PartialEq, Eq, Structural)]
pub struct PlayerActor {
    /// The actor entity, which carries the rigid-body role.
    pub id: EntityId,
    /// The child hurt-box shape, kept for invulnerability toggling.
    pub hurt_box: EntityId,
    pub pos: Vec2,
    /// Requested velocity, in milli-pixels per second.
    pub velocity: Vec2,
    pub facing: Vec2,
    pub aim: PlayerAim,
    pub walk_speed: u32,
    pub health: PlayerHealth,
    pub knockback: Knockback,
    pub invuln: PostHitInvulnerability,
    pub weapon: Weapon,
    /// The hurt-box shape's current collision filter.
    pub hurt_box_groups: CollisionGroups,
    /// What the renderer should show this tick (flicker contract).
    pub visible: bool,
}

impl PlayerActor {
    /// Position, motion and combat state stay inside the ranges the
    /// movement and override arithmetic is proved for.
    pub open spec fn wf(self) -> bool {
        &&& in_world(self.pos)
        &&& abs1(self.velocity.x as int) <= 1_000_000
        &&& abs1(self.velocity.y as int) <= 1_000_000
        &&& abs1(self.facing.x as int) <= DIR_SCALE
        &&& abs1(self.facing.y as int) <= DIR_SCALE
        &&& self.walk_speed <= 1000
        &&& self.health.wf()
        &&& self.knockback.wf()
        &&& self.weapon.wf()
        &&& (self.invuln.remaining > 0 ==> self.hurt_box_groups == CollisionGroups::spec_none())
    }
}

/// The whole simulation state between two ticks.
pub struct World {
    pub timers: GameTimers,
    pub player: PlayerActor,
    pub enemies: Vec<EnemyActor>,
    pub projectiles: Vec<ProjectileActor>,
    pub spawner: Spawner,
    /// Live population, reconciled from spawn and death diffs.
    pub enemy_count: EnemyCount,
    /// Source of fresh entity handles.
    pub next_id: EntityId,
}

impl World {
    /// Every actor is well formed, and the reconciled count matches the
    /// enemy arena (death-tagged actors never survive a tick).
    pub open spec fn wf(self) -> bool {
        &&& self.player.wf()
        &&& self.spawner.wf()
        &&& self.enemy_count.0 == self.enemies@.len()
        &&& forall|i: int| 0 <= i < self.enemies@.len() ==> (#[trigger] self.enemies@[i]).wf()
        &&& forall|i: int|
            0 <= i < self.projectiles@.len() ==> (#[trigger] self.projectiles@[i]).wf()
    }

    /// A fresh session: the match clock running from zero, the player
    /// at the origin at full vitality with the default weapon, no
    /// enemies, and the spawner on the opening difficulty tier.
    pub fn new() -> (r: World)
        ensures
            r.wf(),
            r.player.health.current == PLAYER_MAX_HEALTH,
            r.player.health.max == PLAYER_MAX_HEALTH,
            r.player.weapon.equipped is Pistol,
            r.player.weapon.ammo == r.player.weapon.stats.max_ammo,
            !r.timers.game_time.paused,
            r.timers.game_time.elapsed == 0,
            r.timers.reset_time.paused,
            r.enemies@.len() == 0,
            r.projectiles@.len() == 0,
            r.spawner.max_enemies == 50,
            r.spawner.spawn_interval == 600,
            r.player.hurt_box_groups == CollisionGroups::spec_player_hurt(),
    {
        let mut timers = GameTimers::new();
        timers.game_time.unpause();
        World {
            timers,
            player: PlayerActor {
                id: 1,
                hurt_box: 2,
                pos: Vec2 { x: 0, y: 0 },
                velocity: Vec2 { x: 0, y: 0 },
                facing: Vec2 { x: DIR_SCALE, y: 0 },
                aim: PlayerAim(Vec2 { x: DIR_SCALE, y: 0 }),
                walk_speed: PLAYER_WALK_SPEED,
                health: PlayerHealth::new(PLAYER_MAX_HEALTH),
                knockback: Knockback::new(),
                invuln: PostHitInvulnerability::new(),
                weapon: Weapon::new(WeaponChoice::Pistol),
                hurt_box_groups: CollisionGroups::new(GROUP_PLAYER, GROUP_HIT),
                visible: true,
            },
            enemies: Vec::new(),
            projectiles: Vec::new(),
            spawner: Spawner::new(50, 600),
            enemy_count: EnemyCount(0),
            next_id: 3,
        }
    }

    /// Applies a `SpawnEnemy` command: creates one enemy at the position
    /// the collaborator computed from the sampled angle. The population
    /// cap is enforced here too, so the live count never passes the
    /// spawner's current cap.
    pub fn apply_enemy_spawn(&mut self, pos: Vec2)
        requires
            old(self).wf(),
            in_world(pos),
        ensures
            final(self).wf(),
            old(self).enemy_count.0 < old(self).spawner.max_enemies ==> {
                &&& final(self).enemies@.len() == old(self).enemies@.len() + 1
                &&& final(self).enemy_count.0 == old(self).enemy_count.0 + 1
                &&& final(self).enemy_count.0 <= final(self).spawner.max_enemies
                &&& final(self).enemies@.last().pos == pos
                &&& final(self).enemies@.last().health.current
                    == crate::enemies::ENEMY_MAX_HEALTH
            },
            old(self).enemy_count.0 >= old(self).spawner.max_enemies
                ==> final(self).enemies@.len() == old(self).enemies@.len(),
            final(self).spawner == old(self).spawner,
            final(self).player == old(self).player,
            final(self).timers == old(self).timers,
    {
        if self.enemy_count.0 >= self.spawner.max_enemies {
            return ;
        }
        let id = self.next_id;
        let hit_box_id = if self.next_id <= u64::MAX - 1 {
            self.next_id + 1
        } else {
            self.next_id
        };
        let hurt_box_id = if self.next_id <= u64::MAX - 2 {
            self.next_id + 2
        } else {
            self.next_id
        };
        if self.next_id <= u64::MAX - 3 {
            self.next_id = self.next_id + 3;
        }
        let enemy = EnemyActor::new(id, hit_box_id, hurt_box_id, pos);
        self.enemies.push(enemy);
        update_enemy_count(&mut self.enemy_count, 1, 0);
    }

    /// Applies a `SpawnProjectile` command: creates the projectile with
    /// the flight direction the collaborator resolved from the spawn's
    /// base direction and sampled spread (they agree when the spread is
    /// zero); the collaborator shifts the spawn's muzzle point the same
    /// way before handing the command back. Grenades and boomerangs fly
    /// at their fixed lob speed.
    pub fn apply_projectile_spawn(&mut self, spawn: ProjectileSpawn, dir: Vec2)
        requires
            old(self).wf(),
            abs1(dir.x as int) <= DIR_SCALE,
            abs1(dir.y as int) <= DIR_SCALE,
            spawn.speed <= 250,
            spawn.hit_box.knockback is Some ==> spawn.hit_box.knockback->Some_0.wf(),
        ensures
            final(self).wf(),
            final(self).projectiles@.len() == old(self).projectiles@.len() + 1,
            ({
                let p = final(self).projectiles@.last();
                &&& p.hit_box == spawn.hit_box
                &&& p.die_on_hit == spawn.die_on_hit
                &&& p.dir == dir
                &&& p.pos.x == crate::geom::clamp_world_coord(spawn.pos.x as int)
                &&& p.pos.y == crate::geom::clamp_world_coord(spawn.pos.y as int)
                &&& (spawn.kind is Linear ==> p.flight is Linear && p.speed == spawn.speed
                    && p.lifetime.remaining == spawn.lifetime)
                &&& (spawn.kind is Grenade ==> p.flight == ProjectileFlight::Lobbed(
                    Grenade { explode_timer: crate::weapons::GRENADE_FUSE_UNITS, exploded: false },
                ) && p.speed == crate::weapons::LOB_SPEED_PX)
                &&& (spawn.kind is Boomerang ==> p.flight == ProjectileFlight::Returning(
                    Boomerang {
                        dir,
                        speed: crate::weapons::LOB_SPEED_PX,
                        return_time: crate::weapons::BOOMERANG_RETURN_UNITS,
                    },
                ))
            }),
            final(self).enemies == old(self).enemies,
            final(self).player == old(self).player,
            final(self).timers == old(self).timers,
            final(self).spawner == old(self).spawner,
            final(self).enemy_count == old(self).enemy_count,
    {
        let id = self.next_id;
        if self.next_id <= u64::MAX - 1 {
            self.next_id = self.next_id + 1;
        }
        let pos = clamp_to_world(spawn.pos);
        let (flight, speed): (ProjectileFlight, u32) = match spawn.kind {
            ProjectileKind::Linear => (ProjectileFlight::Linear, spawn.speed),
            ProjectileKind::Grenade => (
                ProjectileFlight::Lobbed(Grenade::new()),
                crate::weapons::LOB_SPEED_PX,
            ),
            ProjectileKind::Boomerang => (
                ProjectileFlight::Returning(Boomerang::new(dir)),
                crate::weapons::LOB_SPEED_PX,
            ),
        };
        let actor = ProjectileActor {
            id,
            flight,
            pos,
            dir,
            speed,
            hit_box: spawn.hit_box,
            lifetime: Lifetime::new(spawn.lifetime),
            die_on_hit: spawn.die_on_hit,
        };
        self.projectiles.push(actor);
    }

    /// An actor's transform data, for knockback direction resolution.
    fn find_attacker(&self, id: EntityId) -> (r: Option<(Vec2, Vec2)>)
        requires
            self.wf(),
        ensures
            r is Some ==> in_world((r->0).0) && abs1((r->0).1.x as int) <= DIR_SCALE && abs1(
                (r->0).1.y as int,
            ) <= DIR_SCALE,
    {
        if id == self.player.id {
            return Some((self.player.pos, self.player.facing));
        }
        let mut i: usize = 0;
        while i < self.enemies.len()
            invariant
                self.wf(),
            decreases self.enemies@.len() - i,
        {
            if self.enemies[i].id == id {
                return Some((self.enemies[i].pos, self.enemies[i].facing));
            }
            i = i + 1;
        }
        let mut i: usize = 0;
        while i < self.projectiles.len()
            invariant
                self.wf(),
            decreases self.projectiles@.len() - i,
        {
            if self.projectiles[i].id == id {
                return Some((self.projectiles[i].pos, self.projectiles[i].dir));
            }
            i = i + 1;
        }
        None
    }

    /// Index of the live enemy actor with the given entity handle.
    fn find_enemy_index(&self, id: EntityId) -> (r: Option<usize>)
        ensures
            r is Some ==> r->0 < self.enemies@.len() && self.enemies@[r->0 as int].id == id,
    {
        let mut i: usize = 0;
        while i < self.enemies.len()
            invariant
                i <= self.enemies@.len(),
            decreases self.enemies@.len() - i,
        {
            if self.enemies[i].id == id {
                return Some(i);
            }
            i = i + 1;
        }
        None
    }

    /// Index of the projectile with the given entity handle.
    fn find_projectile_index(&self, id: EntityId) -> (r: Option<usize>)
        ensures
            r is Some ==> r->0 < self.projectiles@.len() && self.projectiles@[r->0 as int].id
                == id,
    {
        let mut i: usize = 0;
        while i < self.projectiles.len()
            invariant
                i <= self.projectiles@.len(),
            decreases self.projectiles@.len() - i,
        {
            if self.projectiles[i].id == id {
                return Some(i);
            }
            i = i + 1;
        }
        None
    }

    /// The reset transition: once the countdown armed by the player's
    /// death has run out and the player asks for a reset, the match
    /// clock restarts, the player returns to the origin at full
    /// vitality with a random weapon, and every enemy is death-tagged
    /// (to be despawned by the despawn stage of the same tick).
    fn maybe_reset(&mut self, input: &PlayerInput)
        requires
            old(self).wf(),
        ensures
            final(self).wf(),
            final(self).enemies@.len() == old(self).enemies@.len(),
            final(self).enemy_count == old(self).enemy_count,
            ({
                let fires = old(self).timers.reset_time.elapsed >= old(self).timers.reset_time.duration && input.reset_game;
                &&& (!fires ==> *final(self) == *old(self))
                &&& (fires ==> {
                    &&& final(self).timers.game_time.elapsed == 0
                    &&& !final(self).timers.game_time.paused
                    &&& final(self).timers.reset_time.elapsed == 0
                    &&& final(self).timers.reset_time.paused
                    &&& final(self).timers.reset_time.duration == old(self).timers.reset_time.duration
                    &&& final(self).player == (PlayerActor {
                        pos: spec_zero(),
                        health: PlayerHealth {
                            current: old(self).player.health.max,
                            max: old(self).player.health.max,
                        },
                        weapon: final(self).player.weapon,
                        ..old(self).player
                    })
                    &&& final(self).player.weapon.stats
                        == final(self).player.weapon.equipped.spec_stats()
                    &&& final(self).player.weapon.ammo == final(self).player.weapon.stats.max_ammo
                    &&& !final(self).player.weapon.reloading
                    &&& final(self).player.weapon.cooldown == 0
                    &&& forall|i: int|
                        0 <= i < final(self).enemies@.len() ==> #[trigger] final(self).enemies@[i]
                            == (EnemyActor { dead: true, ..old(self).enemies@[i] })
                    &&& final(self).projectiles == old(self).projectiles
                    &&& final(self).spawner == old(self).spawner
                    &&& final(self).next_id == old(self).next_id
                })
            }),
    {
        if !self.timers.reset_time.finished() {
            return ;
        }
        if !input.reset_game {
            return ;
        }
        self.timers.game_time.reset();
        self.timers.game_time.unpause();
        self.timers.reset_time.reset();
        self.timers.reset_time.pause();
        self.player.pos = Vec2 { x: 0, y: 0 };
        let max = self.player.health.max;
        self.player.health = PlayerHealth { current: max, max };
        self.player.weapon = Weapon::new(WeaponChoice::random());
        let mut i: usize = 0;
        while i < self.enemies.len()
            invariant
                self.wf(),
                self.enemies@.len() == old(self).enemies@.len(),
                self.enemy_count == old(self).enemy_count,
                self.timers.game_time.elapsed == 0,
                !self.timers.game_time.paused,
                self.timers.reset_time.elapsed == 0,
                self.timers.reset_time.paused,
                self.timers.reset_time.duration == old(self).timers.reset_time.duration,
                self.player == (PlayerActor {
                    pos: spec_zero(),
                    health: PlayerHealth {
                        current: old(self).player.health.max,
                        max: old(self).player.health.max,
                    },
                    weapon: self.player.weapon,
                    ..old(self).player
                }),
                self.player.weapon.stats == self.player.weapon.equipped.spec_stats(),
                self.player.weapon.ammo == self.player.weapon.stats.max_ammo,
                !self.player.weapon.reloading,
                self.player.weapon.cooldown == 0,
                self.projectiles == old(self).projectiles,
                self.spawner == old(self).spawner,
                self.next_id == old(self).next_id,
                forall|j: int|
                    0 <= j < i ==> #[trigger] self.enemies@[j] == (EnemyActor {
                        dead: true,
                        ..old(self).enemies@[j]
                    }),
                forall|j: int|
                    i <= j < self.enemies@.len() ==> #[trigger] self.enemies@[j] == old(self).enemies@[j],
            decreases self.enemies@.len() - i,
        {
            let mut e = self.enemies[i];
            e.dead = true;
            proof {
                assert(self.enemies@[i as int].wf());
            }
            *vstd::std_specs::vec::vec_index_mut(&mut self.enemies, i) = e;
            proof {
                assert(forall|j: int|
                    0 <= j < self.enemies@.len() ==> (#[trigger] self.enemies@[j]).wf());
            }
            i = i + 1;
        }
    }

    /// The physics-step substitute for the player and the enemies: an
    /// active knockback overrides the requested velocity and hands out
    /// its displacement slice; otherwise the requested velocity is
    /// integrated. Positions stay inside the playable box.
    fn step_bodies(&mut self, dt: u32)
        requires
            old(self).wf(),
            dt <= MAX_TICK_UNITS,
        ensures
            final(self).wf(),
            final(self).enemies@.len() == old(self).enemies@.len(),
            final(self).enemy_count == old(self).enemy_count,
            final(self).player == (PlayerActor {
                pos: final(self).player.pos,
                knockback: final(self).player.knockback,
                ..old(self).player
            }),
            final(self).timers == old(self).timers,
            final(self).spawner == old(self).spawner,
            final(self).projectiles == old(self).projectiles,
            final(self).next_id == old(self).next_id,
    {
        if self.player.knockback.is_active() {
            proof {
                self.player.knockback.lemma_tick_conserves(dt);
            }
            let d = self.player.knockback.tick(dt);
            self.player.pos = clamp_to_world(self.player.pos.add(d));
        } else {
            self.player.pos = crate::geom::advance(self.player.pos, self.player.velocity, dt);
        }
        let mut i: usize = 0;
        while i < self.enemies.len()
            invariant
                self.wf(),
                in_world(self.player.pos),
                dt <= MAX_TICK_UNITS,
                self.enemies@.len() == old(self).enemies@.len(),
                self.enemy_count == old(self).enemy_count,
                self.player == (PlayerActor {
                    pos: self.player.pos,
                    knockback: self.player.knockback,
                    ..old(self).player
                }),
                self.timers == old(self).timers,
                self.spawner == old(self).spawner,
                self.projectiles == old(self).projectiles,
                self.next_id == old(self).next_id,
            decreases self.enemies@.len() - i,
        {
            let mut e = self.enemies[i];
            proof {
                assert(self.enemies@[i as int].wf());
            }
            e.follow_player_ai(self.player.pos);
            if e.knockback.is_active() {
                proof {
                    e.knockback.lemma_tick_conserves(dt);
                }
                let d = e.knockback.tick(dt);
                e.pos = clamp_to_world(e.pos.add(d));
            } else {
                e.pos = crate::geom::advance(e.pos, e.velocity, dt);
            }
            *vstd::std_specs::vec::vec_index_mut(&mut self.enemies, i) = e;
            proof {
                assert(forall|j: int|
                    0 <= j < self.enemies@.len() ==> (#[trigger] self.enemies@[j]).wf());
            }
            i = i + 1;
        }
    }

    /// Projectile flight: linear projectiles and grenades fly straight,
    /// area effects stand still, and boomerangs fly out and home back,
    /// despawning the tick they reach the player's capture radius.
    fn step_projectiles(&mut self, dt: u32)
        requires
            old(self).wf(),
            dt <= MAX_TICK_UNITS,
        ensures
            final(self).wf(),
            final(self).enemies == old(self).enemies,
            final(self).enemy_count == old(self).enemy_count,
            final(self).player == old(self).player,
            final(self).timers == old(self).timers,
            final(self).spawner == old(self).spawner,
            final(self).next_id == old(self).next_id,
    {
        let mut kept: Vec<ProjectileActor> = Vec::new();
        let mut i: usize = 0;
        while i < self.projectiles.len()
            invariant
                self.wf(),
                dt <= MAX_TICK_UNITS,
                self.enemies == old(self).enemies,
                self.enemy_count == old(self).enemy_count,
                self.player == old(self).player,
                self.timers == old(self).timers,
                self.spawner == old(self).spawner,
                self.next_id == old(self).next_id,
                forall|j: int| 0 <= j < kept@.len() ==> (#[trigger] kept@[j]).wf(),
            decreases self.projectiles@.len() - i,
        {
            let mut p = self.projectiles[i];
            proof {
                assert(self.projectiles@[i as int].wf());
            }
            let mut despawn = false;
            match p.flight {
                ProjectileFlight::Linear => {
                    p.pos = update_projectile_movement(p.pos, p.dir, p.speed, dt);
                },
                ProjectileFlight::Lobbed(_) => {
                    p.pos = update_projectile_movement(p.pos, p.dir, p.speed, dt);
                },
                ProjectileFlight::Returning(b0) => {
                    let mut b = b0;
                    let (new_pos, gone) = b.fly(p.pos, self.player.pos, dt);
                    p.pos = new_pos;
                    p.flight = ProjectileFlight::Returning(b);
                    despawn = gone;
                },
                ProjectileFlight::Area => (),
            }
            if !despawn {
                kept.push(p);
            }
            i = i + 1;
        }
        self.projectiles = kept;
    }

    /// The scene snapshot handed to the classifier: the player's hurt
    /// box, each enemy's hit and hurt boxes (children of the enemy
    /// actor), and each projectile's own shape carrying its hit box.
    fn build_scene(&self) -> (s: Scene) {
        let mut shapes: Vec<ShapeRec> = Vec::new();
        let mut body_ids: Vec<EntityId> = Vec::new();
        let mut enemy_ids: Vec<EntityId> = Vec::new();
        shapes.push(
            ShapeRec {
                id: self.player.hurt_box,
                parent: Some(self.player.id),
                hit_box: None,
                hurt_box: false,
            },
        );
        body_ids.push(self.player.id);
        let mut i: usize = 0;
        while i < self.enemies.len()
            decreases self.enemies@.len() - i,
        {
            let e = self.enemies[i];
            shapes.push(
                ShapeRec { id: e.hit_box_id, parent: Some(e.id), hit_box: None, hurt_box: false },
            );
            shapes.push(
                ShapeRec { id: e.hurt_box_id, parent: Some(e.id), hit_box: None, hurt_box: true },
            );
            body_ids.push(e.id);
            enemy_ids.push(e.id);
            i = i + 1;
        }
        let mut i: usize = 0;
        while i < self.projectiles.len()
            decreases self.projectiles@.len() - i,
        {
            let p = self.projectiles[i];
            shapes.push(
                ShapeRec { id: p.id, parent: None, hit_box: Some(p.hit_box), hurt_box: false },
            );
            body_ids.push(p.id);
            i = i + 1;
        }
        Scene {
            shapes,
            body_ids,
            enemy_ids,
            player: self.player.id,
            player_health: self.player.health,
        }
    }

    /// Models the physics collaborator's filter contract: while the
    /// player's hurt-box filter is cleared, contacts naming that shape
    /// are not reported.
    fn filter_pairs(&self, pairs: &Vec<(EntityId, EntityId)>) -> (r: Vec<(EntityId, EntityId)>) {
        let suppressed = self.player.hurt_box_groups.memberships == 0
            && self.player.hurt_box_groups.filters == 0;
        let mut out: Vec<(EntityId, EntityId)> = Vec::new();
        let mut i: usize = 0;
        while i < pairs.len()
            decreases pairs@.len() - i,
        {
            let (a, b) = pairs[i];
            if !(suppressed && (a == self.player.hurt_box || b == self.player.hurt_box)) {
                out.push((a, b));
            }
            i = i + 1;
        }
        out
    }

    /// Damage and knockback resolution for one tick's semantic events,
    /// in report order: hits damage the defender and arm its knockback,
    /// detonate grenade attackers (replacing them with their area
    /// effect), and despawn die-on-hit attackers; any number of player
    /// hits costs the player one point of vitality in all, arms the
    /// player's knockback away from the striking enemy, and — when the
    /// player survives damaged — opens the invulnerability window.
    fn resolve_events(&mut self, events: &Vec<ClassifiedEvent>)
        requires
            old(self).wf(),
        ensures
            final(self).wf(),
            final(self).enemies@.len() == old(self).enemies@.len(),
            final(self).enemy_count == old(self).enemy_count,
            final(self).player.weapon == old(self).player.weapon,
            final(self).player.pos == old(self).player.pos,
            final(self).player.facing == old(self).player.facing,
            final(self).player.aim == old(self).player.aim,
            final(self).player.visible == old(self).player.visible,
            final(self).player.health.max == old(self).player.health.max,
            final(self).player.health.current <= old(self).player.health.current,
            old(self).player.health.current <= final(self).player.health.current + 1,
            final(self).player.health.current < old(self).player.health.current && final(self).player.health.current > 0 && final(self).player.health.current < final(self).player.health.max ==> final(self).player.invuln.remaining
                == crate::player::POST_HIT_INVULN_UNITS && final(self).player.hurt_box_groups
                == CollisionGroups::spec_none(),
            final(self).timers.game_time.elapsed == old(self).timers.game_time.elapsed,
            final(self).timers.reset_time.elapsed == old(self).timers.reset_time.elapsed,
            final(self).timers.reset_time.duration == old(self).timers.reset_time.duration,
            final(self).player.health.current > 0 ==> final(self).timers == old(self).timers,
            final(self).spawner == old(self).spawner,
    {
        let mut n_player_hits: usize = 0;
        let mut i: usize = 0;
        while i < events.len()
            invariant
                self.wf(),
                n_player_hits <= i,
                self.enemies@.len() == old(self).enemies@.len(),
                self.enemy_count == old(self).enemy_count,
                self.enemies == old(self).enemies,
                self.projectiles == old(self).projectiles,
                self.next_id == old(self).next_id,
                self.timers == old(self).timers,
                self.spawner == old(self).spawner,
                self.player == (PlayerActor { knockback: self.player.knockback, ..old(self).player }),
            decreases events@.len() - i,
        {
            match events[i] {
                ClassifiedEvent::PlayerHit(ev) => {
                    n_player_hits = n_player_hits + 1;
                    match self.find_enemy_index(ev.enemy) {
                        Some(idx) => {
                            let e = self.enemies[idx];
                            proof {
                                assert(self.enemies@[idx as int].wf());
                            }
                            crate::combat::apply_hit_knockback(
                                &mut self.player.knockback,
                                crate::combat::KnockbackSpec {
                                    direction: KnockbackDirection::AwayFromAttacker,
                                    frames: PLAYER_HIT_KNOCKBACK_FRAMES,
                                    distance: PLAYER_HIT_KNOCKBACK_DISTANCE,
                                },
                                e.pos,
                                self.player.pos,
                                e.facing,
                            );
                        },
                        None => (),
                    }
                },
                ClassifiedEvent::Hit(_) => (),
            }
            i = i + 1;
        }

        deal_player_hit_damage(&mut self.player.health, &mut self.timers, n_player_hits);
        if n_player_hits > 0 {
            apply_post_hit_invuln(
                &mut self.player.invuln,
                &mut self.player.hurt_box_groups,
                &self.player.health,
            );
        }

        let mut remove_ids: Vec<EntityId> = Vec::new();
        let mut i: usize = 0;
        while i < events.len()
            invariant
                self.wf(),
                self.enemies@.len() == old(self).enemies@.len(),
                self.enemy_count == old(self).enemy_count,
                self.player.weapon == old(self).player.weapon,
                self.player.pos == old(self).player.pos,
                self.player.facing == old(self).player.facing,
                self.player.aim == old(self).player.aim,
                self.player.visible == old(self).player.visible,
                self.player.health.max == old(self).player.health.max,
                self.player.health.current <= old(self).player.health.current,
                old(self).player.health.current <= self.player.health.current + 1,
                self.player.health.current < old(self).player.health.current
                    && self.player.health.current > 0 && self.player.health.current
                    < self.player.health.max ==> self.player.invuln.remaining
                    == crate::player::POST_HIT_INVULN_UNITS && self.player.hurt_box_groups
                    == CollisionGroups::spec_none(),
                self.timers.game_time.elapsed == old(self).timers.game_time.elapsed,
                self.timers.reset_time.elapsed == old(self).timers.reset_time.elapsed,
                self.timers.reset_time.duration == old(self).timers.reset_time.duration,
                self.player.health.current > 0 ==> self.timers == old(self).timers,
                self.spawner == old(self).spawner,
            decreases events@.len() - i,
        {
            match events[i] {
                ClassifiedEvent::Hit(ev) => {
                    self.resolve_one_hit(&ev, &mut remove_ids);
                },
                ClassifiedEvent::PlayerHit(_) => (),
            }
            i = i + 1;
        }

        let mut kept: Vec<ProjectileActor> = Vec::new();
        let mut i: usize = 0;
        while i < self.projectiles.len()
            invariant
                self.wf(),
                self.enemies@.len() == old(self).enemies@.len(),
                self.enemy_count == old(self).enemy_count,
                self.player.weapon == old(self).player.weapon,
                self.player.pos == old(self).player.pos,
                self.player.facing == old(self).player.facing,
                self.player.aim == old(self).player.aim,
                self.player.visible == old(self).player.visible,
                self.player.health.max == old(self).player.health.max,
                self.player.health.current <= old(self).player.health.current,
                old(self).player.health.current <= self.player.health.current + 1,
                self.player.health.current < old(self).player.health.current
                    && self.player.health.current > 0 && self.player.health.current
                    < self.player.health.max ==> self.player.invuln.remaining
                    == crate::player::POST_HIT_INVULN_UNITS && self.player.hurt_box_groups
                    == CollisionGroups::spec_none(),
                self.timers.game_time.elapsed == old(self).timers.game_time.elapsed,
                self.timers.reset_time.elapsed == old(self).timers.reset_time.elapsed,
                self.timers.reset_time.duration == old(self).timers.reset_time.duration,
                self.player.health.current > 0 ==> self.timers == old(self).timers,
                self.spawner == old(self).spawner,
                forall|j: int| 0 <= j < kept@.len() ==> (#[trigger] kept@[j]).wf(),
            decreases self.projectiles@.len() - i,
        {
            let p = self.projectiles[i];
            proof {
                assert(self.projectiles@[i as int].wf());
            }
            if !crate::combat::contains_id(&remove_ids, p.id) {
                kept.push(p);
            }
            i = i + 1;
        }
        self.projectiles = kept;
    }

    /// One hit event's effect on the world: the defender loses the hit's
    /// damage and is thrown by its knockback; a grenade attacker
    /// detonates (once) into its area effect; a die-on-hit attacker is
    /// marked for despawn.
    fn resolve_one_hit(&mut self, ev: &HitEvent, remove_ids: &mut Vec<EntityId>)
        requires
            old(self).wf(),
        ensures
            final(self).wf(),
            final(self).enemies@.len() == old(self).enemies@.len(),
            final(self).enemy_count == old(self).enemy_count,
            final(self).player == old(self).player,
            final(self).timers == old(self).timers,
            final(self).spawner == old(self).spawner,
    {
        match self.find_enemy_index(ev.defender) {
            Some(idx) => {
                let mut e = self.enemies[idx];
                proof {
                    assert(self.enemies@[idx as int].wf());
                }
                e.health.lose_health(ev.damage);
                match ev.knockback {
                    Some(spec) => {
                        if spec.frames >= 1 && spec.distance <= 1_000_000 {
                            match self.find_attacker(ev.attacker) {
                                Some((atk_pos, atk_facing)) => {
                                    crate::combat::apply_hit_knockback(
                                        &mut e.knockback,
                                        spec,
                                        atk_pos,
                                        e.pos,
                                        atk_facing,
                                    );
                                },
                                None => (),
                            }
                        }
                    },
                    None => (),
                }
                *vstd::std_specs::vec::vec_index_mut(&mut self.enemies, idx) = e;
                proof {
                    assert(forall|j: int|
                        0 <= j < self.enemies@.len() ==> (#[trigger] self.enemies@[j]).wf());
                }
            },
            None => (),
        }
        match self.find_projectile_index(ev.attacker) {
            Some(pidx) => {
                let mut p = self.projectiles[pidx];
                proof {
                    assert(self.projectiles@[pidx as int].wf());
                }
                let mut replaced = false;
                match p.flight {
                    ProjectileFlight::Lobbed(g0) => {
                        let mut g = g0;
                        let detonated = g.on_hit();
                        if detonated {
                            let ex = explosion_spawn(p.pos);
                            let id = self.next_id;
                            if self.next_id <= u64::MAX - 1 {
                                self.next_id = self.next_id + 1;
                            }
                            p = ProjectileActor {
                                id,
                                flight: ProjectileFlight::Area,
                                pos: ex.pos,
                                dir: Vec2 { x: 0, y: 0 },
                                speed: 0,
                                hit_box: ex.hit_box,
                                lifetime: Lifetime::new(ex.lifetime),
                                die_on_hit: false,
                            };
                            replaced = true;
                        } else {
                            p.flight = ProjectileFlight::Lobbed(g);
                        }
                    },
                    _ => (),
                }
                *vstd::std_specs::vec::vec_index_mut(&mut self.projectiles, pidx) = p;
                proof {
                    assert(forall|j: int|
                        0 <= j < self.projectiles@.len() ==> (
                        #[trigger] self.projectiles@[j]).wf());
                }
                if !replaced && p.die_on_hit {
                    remove_ids.push(p.id);
                }
            },
            None => (),
        }
    }

    /// Grenade fuses burn down; a spent fuse detonates the grenade into
    /// its area effect (the latch admits one detonation only).
    fn update_grenades(&mut self, dt: u32)
        requires
            old(self).wf(),
        ensures
            final(self).wf(),
            final(self).enemies == old(self).enemies,
            final(self).enemy_count == old(self).enemy_count,
            final(self).player == old(self).player,
            final(self).timers == old(self).timers,
            final(self).spawner == old(self).spawner,
    {
        let mut i: usize = 0;
        while i < self.projectiles.len()
            invariant
                self.wf(),
                self.enemies == old(self).enemies,
                self.enemy_count == old(self).enemy_count,
                self.player == old(self).player,
                self.timers == old(self).timers,
                self.spawner == old(self).spawner,
            decreases self.projectiles@.len() - i,
        {
            let mut p = self.projectiles[i];
            proof {
                assert(self.projectiles@[i as int].wf());
            }
            match p.flight {
                ProjectileFlight::Lobbed(g0) => {
                    let mut g = g0;
                    let detonated = g.tick(dt);
                    if detonated {
                        let ex = explosion_spawn(p.pos);
                        let id = self.next_id;
                        if self.next_id <= u64::MAX - 1 {
                            self.next_id = self.next_id + 1;
                        }
                        p = ProjectileActor {
                            id,
                            flight: ProjectileFlight::Area,
                            pos: ex.pos,
                            dir: Vec2 { x: 0, y: 0 },
                            speed: 0,
                            hit_box: ex.hit_box,
                            lifetime: Lifetime::new(ex.lifetime),
                            die_on_hit: false,
                        };
                    } else {
                        p.flight = ProjectileFlight::Lobbed(g);
                    }
                },
                _ => (),
            }
            *vstd::std_specs::vec::vec_index_mut(&mut self.projectiles, i) = p;
            proof {
                assert(forall|j: int|
                    0 <= j < self.projectiles@.len() ==> (#[trigger] self.projectiles@[j]).wf());
            }
            i = i + 1;
        }
    }

    /// Lifetime budgets burn down for linear projectiles and area
    /// effects; the spent ones despawn.
    fn update_lifetimes(&mut self, dt: u32)
        requires
            old(self).wf(),
        ensures
            final(self).wf(),
            final(self).enemies == old(self).enemies,
            final(self).enemy_count == old(self).enemy_count,
            final(self).player == old(self).player,
            final(self).timers == old(self).timers,
            final(self).spawner == old(self).spawner,
            final(self).next_id == old(self).next_id,
    {
        let mut kept: Vec<ProjectileActor> = Vec::new();
        let mut i: usize = 0;
        while i < self.projectiles.len()
            invariant
                self.wf(),
                self.enemies == old(self).enemies,
                self.enemy_count == old(self).enemy_count,
                self.player == old(self).player,
                self.timers == old(self).timers,
                self.spawner == old(self).spawner,
                self.next_id == old(self).next_id,
                forall|j: int| 0 <= j < kept@.len() ==> (#[trigger] kept@[j]).wf(),
            decreases self.projectiles@.len() - i,
        {
            let mut p = self.projectiles[i];
            proof {
                assert(self.projectiles@[i as int].wf());
            }
            let mut expired = false;
            match p.flight {
                ProjectileFlight::Linear => {
                    expired = p.lifetime.tick(dt);
                },
                ProjectileFlight::Area => {
                    expired = p.lifetime.tick(dt);
                },
                _ => (),
            }
            if !expired {
                kept.push(p);
            }
            i = i + 1;
        }
        self.projectiles = kept;
    }

    /// Death tagging and despawn: an enemy whose vitality has run out is
    /// tagged dead (idempotently), and every dead enemy leaves the
    /// arena, each asking the renderer for a death effect; the live
    /// count is reconciled from the diff.
    fn despawn_dead(&mut self, cmds: &mut Vec<WorldCommand>)
        requires
            old(self).wf(),
        ensures
            final(self).wf(),
            final(self).enemies@.len() <= old(self).enemies@.len(),
            final(self).enemy_count.0 <= old(self).enemy_count.0,
            final(self).player == old(self).player,
            final(self).timers == old(self).timers,
            final(self).spawner == old(self).spawner,
            final(self).projectiles == old(self).projectiles,
            final(self).next_id == old(self).next_id,
            forall|j: int|
                0 <= j < final(self).enemies@.len() ==> !(#[trigger] final(self).enemies@[j]).dead
                    && final(self).enemies@[j].health.current > 0,
            projectile_commands(final(cmds)@) == projectile_commands(old(cmds)@),
            enemy_spawn_commands(final(cmds)@) == enemy_spawn_commands(old(cmds)@),
            death_command_count(final(cmds)@) == death_command_count(old(cmds)@) + (old(self).enemies@.len() - final(self).enemies@.len()),
    {
        let mut kept: Vec<EnemyActor> = Vec::new();
        let mut died: u32 = 0;
        let mut i: usize = 0;
        while i < self.enemies.len()
            invariant
                self.wf(),
                i <= self.enemies@.len(),
                kept@.len() + died == i,
                self.enemies@.len() == old(self).enemies@.len(),
                self.enemies == old(self).enemies,
                self.enemy_count == old(self).enemy_count,
                self.player == old(self).player,
                self.timers == old(self).timers,
                self.spawner == old(self).spawner,
                self.projectiles == old(self).projectiles,
                self.next_id == old(self).next_id,
                forall|j: int|
                    0 <= j < kept@.len() ==> (#[trigger] kept@[j]).wf() && !kept@[j].dead
                        && kept@[j].health.current > 0,
                projectile_commands(cmds@) == projectile_commands(old(cmds)@),
                enemy_spawn_commands(cmds@) == enemy_spawn_commands(old(cmds)@),
                death_command_count(cmds@) == death_command_count(old(cmds)@) + died,
            decreases self.enemies@.len() - i,
        {
            let mut e = self.enemies[i];
            proof {
                assert(self.enemies@[i as int].wf());
            }
            e.trigger_death();
            if e.dead {
                proof {
                    lemma_commands_push(cmds@, WorldCommand::DeathVfx { pos: e.pos });
                }
                cmds.push(WorldCommand::DeathVfx { pos: e.pos });
                died = died + 1;
            } else {
                kept.push(e);
            }
            i = i + 1;
        }
        self.enemies = kept;
        update_enemy_count(&mut self.enemy_count, 0, died);
    }

    /// One simulation tick, in the pipeline's fixed order: clocks and
    /// reset; difficulty; the invulnerability countdown; player intent,
    /// weapon fire and movement; projectile flight; classification of
    /// the physics collaborator's collision-begin pairs (contacts on a
    /// cleared hurt box are not reported); damage, knockback,
    /// detonations and despawns; lifetimes; death tagging, despawn and
    /// population reconciliation; the spawn decision; and presentation
    /// state. Entity creation the collaborators must finish (rotating a
    /// sampled spread or spawn angle into a direction, loading sprites)
    /// comes back as commands.
    ///
    /// The contract pins each stage's outcome: the clocks advance (or
    /// restart on a reset), the spawner sits on the difficulty tier of
    /// the match clock, the weapon tick's full outcome relates the
    /// weapon to the emitted projectile commands, the player loses at
    /// most one point of vitality, every enemy that leaves the arena
    /// leaves exactly one death effect behind and none that stays is
    /// dead, at most one enemy spawn is requested and only under the
    /// cap, and the visibility flag follows the flicker duty cycle.
    #[verifier::rlimit(60)]
    pub fn tick(&mut self, dt: u32, input: &PlayerInput, collisions: &Vec<(EntityId, EntityId)>)
        -> (cmds: Vec<WorldCommand>)
        requires
            old(self).wf(),
            dt <= MAX_TICK_UNITS,
            abs1(input.movement.x as int) <= DIR_SCALE,
            abs1(input.movement.y as int) <= DIR_SCALE,
            abs1(input.aim.x as int) <= 2 * COORD_LIMIT,
            abs1(input.aim.y as int) <= 2 * COORD_LIMIT,
        ensures
            final(self).wf(),
            final(self).enemy_count.0 <= old(self).enemy_count.0,
            final(self).player.health.max == old(self).player.health.max,
            final(self).enemies@.len() + death_command_count(cmds@) == old(self).enemies@.len(),
            forall|j: int|
                0 <= j < final(self).enemies@.len() ==> !(#[trigger] final(self).enemies@[j]).dead
                    && final(self).enemies@[j].health.current > 0,
            final(self).spawner.max_enemies == spec_difficulty_tier(
                final(self).timers.game_time.elapsed,
            ).0,
            final(self).spawner.spawn_interval == spec_difficulty_tier(
                final(self).timers.game_time.elapsed,
            ).1,
            enemy_spawn_commands(cmds@).len() <= 1,
            forall|k: int|
                0 <= k < enemy_spawn_commands(cmds@).len() ==> #[trigger] enemy_spawn_commands(
                    cmds@,
                )[k] < FULL_TURN_MDEG,
            enemy_spawn_commands(cmds@).len() == 1 <==> (final(self).enemy_count.0 < final(self).spawner.max_enemies && !old(self).spawner.cooldown.paused
                && old(self).spawner.cooldown.elapsed + dt >= final(self).spawner.spawn_interval),
            final(self).player.visible == (final(self).player.invuln.remaining == 0 || ((final(self).timers.game_time.elapsed % (crate::TIME_UNITS_PER_SECOND as u64))
                / crate::player::FLICKER_BUCKET_UNITS) % 2 == 0),
            final(self).timers.reset_time.duration == old(self).timers.reset_time.duration,
            final(self).timers.game_time.elapsed == (if spec_reset_fires(
                old(self).timers,
                dt,
                *input,
            ) {
                0int
            } else {
                spec_timers_after(old(self).timers, dt).game_time.elapsed as int
            }),
            final(self).timers.reset_time.elapsed == (if spec_reset_fires(
                old(self).timers,
                dt,
                *input,
            ) {
                0int
            } else {
                spec_timers_after(old(self).timers, dt).reset_time.elapsed as int
            }),
            final(self).player.health.current > 0 ==> final(self).timers.game_time.paused == (
            if spec_reset_fires(old(self).timers, dt, *input) {
                false
            } else {
                old(self).timers.game_time.paused
            }) && final(self).timers.reset_time.paused == (if spec_reset_fires(
                old(self).timers,
                dt,
                *input,
            ) {
                true
            } else {
                old(self).timers.reset_time.paused
            }),
            !spec_reset_fires(old(self).timers, dt, *input) ==> final(self).player.health.current
                <= old(self).player.health.current && old(self).player.health.current <= final(self).player.health.current + 1,
            spec_reset_fires(old(self).timers, dt, *input) ==> final(self).player.health.current
                + 1 >= final(self).player.health.max,
            !spec_reset_fires(old(self).timers, dt, *input) && final(self).player.health.current
                < old(self).player.health.current && final(self).player.health.current > 0
                && final(self).player.health.current < final(self).player.health.max ==> final(self).player.invuln.remaining == crate::player::POST_HIT_INVULN_UNITS && final(self).player.hurt_box_groups == CollisionGroups::spec_none(),
            exists|w0: Weapon|
                #[trigger] spec_tick_fire_outcome(
                    *old(self),
                    final(self).player.weapon,
                    projectile_commands(cmds@),
                    dt,
                    *input,
                    w0,
                ),
    {
        let mut cmds: Vec<WorldCommand> = Vec::new();
        let ghost resets = spec_reset_fires(old(self).timers, dt, *input);

        self.timers.tick(dt);
        proof {
            assert(self.timers == spec_timers_after(old(self).timers, dt));
        }
        self.maybe_reset(input);
        increase_difficulty(&mut self.spawner, self.timers.game_time.elapsed);
        update_post_hit_invuln(&mut self.player.invuln, &mut self.player.hurt_box_groups, dt);

        let ghost alive_mid = if resets {
            old(self).player.health.max > 0
        } else {
            old(self).player.health.current > 0
        };
        let ghost facing_mid = if old(self).player.knockback.remaining_time == 0 && alive_mid
            && input.movement != spec_zero() {
            spec_normalize(input.movement)
        } else {
            old(self).player.facing
        };
        let ghost origin_mid = if resets {
            spec_zero()
        } else {
            old(self).player.pos
        };

        update_player_movement(
            input,
            self.player.walk_speed,
            &self.player.knockback,
            &self.player.health,
            &mut self.player.velocity,
            &mut self.player.facing,
        );
        update_player_aim(&mut self.player.aim, input);
        proof {
            assert(self.player.facing == facing_mid);
            assert(self.player.pos == origin_mid);
        }

        let ghost w0 = self.player.weapon;
        let alive = self.player.health.current > 0;
        proof {
            assert(alive == alive_mid);
        }
        let spawns = fire_weapon(
            &mut self.player.weapon,
            dt,
            input.shoot,
            alive,
            input.aim,
            self.player.facing,
            self.player.pos,
        );
        let mut i: usize = 0;
        proof {
            assert(projectile_commands(cmds@) =~= spawns@.subrange(0, 0));
            assert(enemy_spawn_commands(cmds@) =~= Seq::<u32>::empty());
            assert(death_command_count(cmds@) == 0);
        }
        while i < spawns.len()
            invariant
                i <= spawns@.len(),
                projectile_commands(cmds@) == spawns@.subrange(0, i as int),
                enemy_spawn_commands(cmds@) == Seq::<u32>::empty(),
                death_command_count(cmds@) == 0,
            decreases spawns@.len() - i,
        {
            proof {
                lemma_commands_push(cmds@, WorldCommand::SpawnProjectile(spawns@[i as int]));
                assert(spawns@.subrange(0, i as int).push(spawns@[i as int]) =~= spawns@.subrange(
                    0,
                    i as int + 1,
                ));
            }
            cmds.push(WorldCommand::SpawnProjectile(spawns[i]));
            i = i + 1;
        }
        proof {
            assert(spawns@.subrange(0, spawns@.len() as int) =~= spawns@);
            assert(projectile_commands(cmds@) == spawns@);
        }

        self.step_bodies(dt);
        self.step_projectiles(dt);

        let scene = self.build_scene();
        let pairs = self.filter_pairs(collisions);
        let events = check_hits(&scene, &pairs);
        self.resolve_events(&events);

        self.update_grenades(dt);
        self.update_lifetimes(dt);
        self.despawn_dead(&mut cmds);

        match spawn_enemies(&mut self.spawner, self.enemy_count.0, dt) {
            Some(angle) => {
                proof {
                    lemma_commands_push(cmds@, WorldCommand::SpawnEnemy { angle_mdeg: angle });
                }
                cmds.push(WorldCommand::SpawnEnemy { angle_mdeg: angle });
            },
            None => (),
        }

        self.player.visible = flicker_player_during_invuln(
            &self.player.invuln,
            self.timers.game_time.elapsed,
        );
        proof {
            assert(spec_tick_fire_outcome(
                *old(self),
                self.player.weapon,
                projectile_commands(cmds@),
                dt,
                *input,
                w0,
            ));
        }
        cmds
    }
}

} // verus!
