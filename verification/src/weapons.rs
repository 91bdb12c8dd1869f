//! The weapon state machine and the projectile lifecycle.
//!
//! A weapon cools down, fires bursts of typed projectiles, and reloads
//! by swapping to a different randomly chosen weapon once its ammo is
//! spent. Projectiles are straight-line shots, a boomerang that flies
//! out and homes back to the player, or a grenade that detonates once,
//! on its first qualifying hit or when its fuse runs out.
use vstd::prelude::*;

use crate::combat::HitBox;
use crate::combat::KnockbackDirection;
use crate::combat::KnockbackSpec;
use crate::geom::abs1;
use crate::geom::dist2;
use crate::geom::dist2_u64;
use crate::geom::in_world;
use crate::geom::spec_advance;
use crate::geom::spec_normalize;
use crate::geom::spec_zero;
use crate::geom::step_toward;
use crate::geom::Vec2;
use crate::geom::DIR_SCALE;
use crate::random::rand_u32_below;
use crate::random::rand_u8_below;
use crate::MAX_TICK_UNITS;

verus! {

/// Cooldown imposed while a reload (weapon reassignment) is pending:
/// two seconds.
pub const RELOAD_UNITS: u32 = 1200;

/// How far in front of the shooter a projectile appears, in pixels.
pub const MUZZLE_OFFSET_PX: i64 = 10;

/// A grenade's fuse: six tenths of a second.
pub const GRENADE_FUSE_UNITS: u32 = 360;

/// Flight speed of grenades and boomerangs, in pixels per second.
pub const LOB_SPEED_PX: u32 = 150;

/// A boomerang flies outward this long before homing back: 0.8 seconds.
pub const BOOMERANG_RETURN_UNITS: u32 = 480;

/// A returning boomerang despawns within this distance of the player:
/// twenty pixels, in milli-pixels.
pub const BOOMERANG_CAPTURE_MPX: u64 = 20_000;

/// Damage dealt by a grenade's area effect.
pub const EXPLOSION_DAMAGE: u8 = 40;

/// Radius of the area-effect hit box, in milli-pixels (fifty pixels).
pub const EXPLOSION_RADIUS_MPX: u32 = 50_000;

/// How long the area-effect hit box lives: 0.8 seconds.
pub const EXPLOSION_LIFETIME_UNITS: u32 = 480;

/// The player's armory.
#[derive(Clone, Copy, Debug, PartialEq, Eq, Structural)]
pub enum WeaponChoice {
    Pistol,
    RayGun,
    Shotgun,
    Boomerang,
    Smg,
    GrenadeLauncher,
}

impl Default for WeaponChoice {
    /// A fresh player holds the pistol.
    fn default() -> (r: Self)
        ensures
            r is Pistol,
    {
        WeaponChoice::Pistol
    }
}

/// Firing behaviour of a weapon choice: magazine size, time between
/// shots (in time units), projectiles per trigger pull, and the full
/// spread cone in milli-degrees.
#[derive(Clone, Copy, Debug, PartialEq, Eq, Structural)]
pub struct WeaponStats {
    pub max_ammo: u8,
    pub fire_rate: u32,
    pub projectiles_per_shot: u8,
    pub spread: u32,
}

impl WeaponChoice {
    /// Position of the choice in the armory's fixed order.
    pub open spec fn spec_index(self) -> int {
        match self {
            WeaponChoice::Pistol => 0,
            WeaponChoice::RayGun => 1,
            WeaponChoice::Shotgun => 2,
            WeaponChoice::Boomerang => 3,
            WeaponChoice::Smg => 4,
            WeaponChoice::GrenadeLauncher => 5,
        }
    }

    /// The choice at a position of the armory's fixed order.
    fn from_index(i: u8) -> (r: Self)
        requires
            i < 6,
        ensures
            r.spec_index() == i,
    {
        match i {
            0 => WeaponChoice::Pistol,
            1 => WeaponChoice::RayGun,
            2 => WeaponChoice::Shotgun,
            3 => WeaponChoice::Boomerang,
            4 => WeaponChoice::Smg,
            _ => WeaponChoice::GrenadeLauncher,
        }
    }

    /// A weapon choice drawn uniformly at random.
    pub fn random() -> (r: Self) {
        Self::from_index(rand_u8_below(6))
    }

    /// A weapon choice drawn uniformly among the five others: the draw
    /// never hands back the choice being replaced.
    pub fn random_excluding(current: Self) -> (r: Self)
        ensures
            r != current,
    {
        let cur: u8 = match current {
            WeaponChoice::Pistol => 0,
            WeaponChoice::RayGun => 1,
            WeaponChoice::Shotgun => 2,
            WeaponChoice::Boomerang => 3,
            WeaponChoice::Smg => 4,
            WeaponChoice::GrenadeLauncher => 5,
        };
        let d = rand_u8_below(5);
        let idx = if d >= cur {
            d + 1
        } else {
            d
        };
        Self::from_index(idx)
    }

    /// The firing behaviour table, one fixed row per weapon choice.
    pub open spec fn spec_stats(self) -> WeaponStats {
        match self {
            WeaponChoice::Pistol => WeaponStats {
                max_ammo: 16,
                fire_rate: 180,
                projectiles_per_shot: 1,
                spread: 0,
            },
            WeaponChoice::RayGun => WeaponStats {
                max_ammo: 12,
                fire_rate: 300,
                projectiles_per_shot: 1,
                spread: 0,
            },
            WeaponChoice::Shotgun => WeaponStats {
                max_ammo: 8,
                fire_rate: 480,
                projectiles_per_shot: 10,
                spread: 75_000,
            },
            WeaponChoice::Boomerang => WeaponStats {
                max_ammo: 8,
                fire_rate: 600,
                projectiles_per_shot: 1,
                spread: 0,
            },
            WeaponChoice::Smg => WeaponStats {
                max_ammo: 64,
                fire_rate: 60,
                projectiles_per_shot: 1,
                spread: 30_000,
            },
            WeaponChoice::GrenadeLauncher => WeaponStats {
                max_ammo: 5,
                fire_rate: 600,
                projectiles_per_shot: 1,
                spread: 0,
            },
        }
    }

    /// Looks the choice's row up in the firing behaviour table.
    pub fn get_weapon_stats(&self) -> (r: WeaponStats)
        ensures
            r == self.spec_stats(),
    {
        match self {
            WeaponChoice::Pistol => WeaponStats {
                max_ammo: 16,
                fire_rate: 180,
                projectiles_per_shot: 1,
                spread: 0,
            },
            WeaponChoice::RayGun => WeaponStats {
                max_ammo: 12,
                fire_rate: 300,
                projectiles_per_shot: 1,
                spread: 0,
            },
            WeaponChoice::Shotgun => WeaponStats {
                max_ammo: 8,
                fire_rate: 480,
                projectiles_per_shot: 10,
                spread: 75_000,
            },
            WeaponChoice::Boomerang => WeaponStats {
                max_ammo: 8,
                fire_rate: 600,
                projectiles_per_shot: 1,
                spread: 0,
            },
            WeaponChoice::Smg => WeaponStats {
                max_ammo: 64,
                fire_rate: 60,
                projectiles_per_shot: 1,
                spread: 30_000,
            },
            WeaponChoice::GrenadeLauncher => WeaponStats {
                max_ammo: 5,
                fire_rate: 600,
                projectiles_per_shot: 1,
                spread: 0,
            },
        }
    }
}

/// The per-actor firing state machine.
#[derive(Clone, Copy, Debug, PartialEq, Eq, Structural)]
pub struct Weapon {
    pub equipped: WeaponChoice,
    pub stats: WeaponStats,
    pub reloading: bool,
    pub ammo: u8,
    /// Time units until the next shot is allowed.
    pub cooldown: u32,
}

impl Weapon {
    /// The stats always belong to the equipped choice, ammo never
    /// exceeds the magazine, and a reload is pending only on an empty
    /// magazine.
    pub open spec fn wf(self) -> bool {
        &&& self.stats == self.equipped.spec_stats()
        &&& self.ammo <= self.stats.max_ammo
        &&& (self.reloading ==> self.ammo == 0)
    }

    /// A fresh weapon of the given choice, fully loaded and ready.
    pub fn new(choice: WeaponChoice) -> (r: Self)
        ensures
            r.equipped == choice,
            r.stats == choice.spec_stats(),
            r.ammo == r.stats.max_ammo,
            !r.reloading,
            r.cooldown == 0,
            r.wf(),
    {
        let stats = choice.get_weapon_stats();
        Weapon { equipped: choice, stats, reloading: false, ammo: stats.max_ammo, cooldown: 0 }
    }
}

/// The movement family of a projectile.
#[derive(Clone, Copy, Debug, PartialEq, Eq, Structural)]
pub enum ProjectileKind {
    Linear,
    Boomerang,
    Grenade,
}

/// The projectile parameter table, one fixed row per weapon choice:
/// damage, knockback, sprite reference, speed range in pixels per
/// second, lifetime budget in time units, hit-box size in milli-pixels,
/// and whether the projectile dies on its first qualifying hit.
#[derive(Clone, Copy, Debug, PartialEq, Eq, Structural)]
pub struct ProjectileParams {
    pub damage: u8,
    pub knockback: KnockbackSpec,
    pub sprite_index: usize,
    pub speed_min: u32,
    pub speed_max: u32,
    pub lifetime: u32,
    pub hit_box_size: Vec2,
    pub die_on_hit: bool,
}

/// The movement family a weapon choice's projectiles belong to.
pub open spec fn spec_projectile_kind(c: WeaponChoice) -> ProjectileKind {
    match c {
        WeaponChoice::Boomerang => ProjectileKind::Boomerang,
        WeaponChoice::GrenadeLauncher => ProjectileKind::Grenade,
        _ => ProjectileKind::Linear,
    }
}

/// The projectile parameter row of a weapon choice.
pub open spec fn spec_projectile_params(c: WeaponChoice) -> ProjectileParams {
    match c {
        WeaponChoice::Pistol => ProjectileParams {
            damage: 4,
            knockback: KnockbackSpec {
                direction: KnockbackDirection::AttackerFacing,
                frames: 6,
                distance: 10,
            },
            sprite_index: 1,
            speed_min: 200,
            speed_max: 200,
            lifetime: 1200,
            hit_box_size: Vec2 { x: 2000, y: 4000 },
            die_on_hit: true,
        },
        WeaponChoice::RayGun => ProjectileParams {
            damage: 5,
            knockback: KnockbackSpec {
                direction: KnockbackDirection::AttackerFacing,
                frames: 6,
                distance: 8,
            },
            sprite_index: 2,
            speed_min: 200,
            speed_max: 200,
            lifetime: 3000,
            hit_box_size: Vec2 { x: 2000, y: 4000 },
            die_on_hit: false,
        },
        WeaponChoice::Shotgun => ProjectileParams {
            damage: 8,
            knockback: KnockbackSpec {
                direction: KnockbackDirection::AttackerFacing,
                frames: 6,
                distance: 20,
            },
            sprite_index: 1,
            speed_min: 100,
            speed_max: 200,
            lifetime: 300,
            hit_box_size: Vec2 { x: 2000, y: 4000 },
            die_on_hit: true,
        },
        WeaponChoice::Boomerang => ProjectileParams {
            damage: 3,
            knockback: KnockbackSpec {
                direction: KnockbackDirection::AwayFromAttacker,
                frames: 12,
                distance: 14,
            },
            sprite_index: 1,
            speed_min: 200,
            speed_max: 200,
            lifetime: 12_000,
            hit_box_size: Vec2 { x: 6000, y: 6000 },
            die_on_hit: false,
        },
        WeaponChoice::Smg => ProjectileParams {
            damage: 2,
            knockback: KnockbackSpec {
                direction: KnockbackDirection::AttackerFacing,
                frames: 6,
                distance: 6,
            },
            sprite_index: 1,
            speed_min: 200,
            speed_max: 200,
            lifetime: 1200,
            hit_box_size: Vec2 { x: 2000, y: 4000 },
            die_on_hit: true,
        },
        WeaponChoice::GrenadeLauncher => ProjectileParams {
            damage: 20,
            knockback: KnockbackSpec {
                direction: KnockbackDirection::AttackerFacing,
                frames: 6,
                distance: 40,
            },
            sprite_index: 4,
            speed_min: 200,
            speed_max: 200,
            lifetime: 6000,
            hit_box_size: Vec2 { x: 4000, y: 4000 },
            die_on_hit: true,
        },
    }
}

/// Looks a weapon choice's projectile parameter row up.
pub fn projectile_params(c: WeaponChoice) -> (r: ProjectileParams)
    ensures
        r == spec_projectile_params(c),
{
    let (damage, direction, frames, distance, sprite_index, speed_min, speed_max): (
        u8,
        KnockbackDirection,
        u8,
        u32,
        usize,
        u32,
        u32,
    ) = match c {
        WeaponChoice::Pistol => (4, KnockbackDirection::AttackerFacing, 6, 10, 1, 200, 200),
        WeaponChoice::RayGun => (5, KnockbackDirection::AttackerFacing, 6, 8, 2, 200, 200),
        WeaponChoice::Shotgun => (8, KnockbackDirection::AttackerFacing, 6, 20, 1, 100, 200),
        WeaponChoice::Boomerang => (3, KnockbackDirection::AwayFromAttacker, 12, 14, 1, 200, 200),
        WeaponChoice::Smg => (2, KnockbackDirection::AttackerFacing, 6, 6, 1, 200, 200),
        WeaponChoice::GrenadeLauncher => (
            20,
            KnockbackDirection::AttackerFacing,
            6,
            40,
            4,
            200,
            200,
        ),
    };
    let (lifetime, hit_box_size, die_on_hit): (u32, Vec2, bool) = match c {
        WeaponChoice::Pistol => (1200, Vec2 { x: 2000, y: 4000 }, true),
        WeaponChoice::RayGun => (3000, Vec2 { x: 2000, y: 4000 }, false),
        WeaponChoice::Shotgun => (300, Vec2 { x: 2000, y: 4000 }, true),
        WeaponChoice::Boomerang => (12_000, Vec2 { x: 6000, y: 6000 }, false),
        WeaponChoice::Smg => (1200, Vec2 { x: 2000, y: 4000 }, true),
        WeaponChoice::GrenadeLauncher => (6000, Vec2 { x: 4000, y: 4000 }, true),
    };
    ProjectileParams {
        damage,
        knockback: KnockbackSpec { direction, frames, distance },
        sprite_index,
        speed_min,
        speed_max,
        lifetime,
        hit_box_size,
        die_on_hit,
    }
}

/// One projectile instance the weapon asks the world to create: where it
/// appears, its base direction, the sampled spread to rotate that
/// direction by, its sampled speed, and the combat semantics it carries.
///
/// `pos` is the muzzle point along the base direction, before the
/// spread rotation; the collaborator that rotates `dir` by
/// `spread_mdeg` re-derives the rotated muzzle point from `pos`, `dir`
/// and `spread_mdeg` (it is `pos - dir * MUZZLE_OFFSET_PX + rotated *
/// MUZZLE_OFFSET_PX`).
#[derive(Clone, Copy, Debug, PartialEq, Eq, Structural)]
pub struct ProjectileSpawn {
    pub kind: ProjectileKind,
    pub pos: Vec2,
    pub dir: Vec2,
    pub spread_mdeg: i32,
    pub speed: u32,
    pub hit_box: HitBox,
    pub hit_box_size: Vec2,
    pub lifetime: u32,
    pub die_on_hit: bool,
    pub sprite_index: usize,
}

/// What every projectile of a trigger pull satisfies: it appears one
/// muzzle length in front of the shooter along the resolved base fire
/// direction (the normalised aim intent, or the facing when the intent
/// is zero — the spread rotation is the collaborator's trigonometry and
/// is applied to `dir` and `pos` alike), carries the equipped choice's
/// parameter row, and its sampled spread and speed lie in the row's
/// ranges.
pub open spec fn spawn_ok(
    s: ProjectileSpawn,
    choice: WeaponChoice,
    aim: Vec2,
    facing: Vec2,
    origin: Vec2,
) -> bool {
    let p = spec_projectile_params(choice);
    let spread = choice.spec_stats().spread;
    let dir = if aim == spec_zero() {
        facing
    } else {
        spec_normalize(aim)
    };
    &&& s.kind == spec_projectile_kind(choice)
    &&& s.dir == dir
    &&& s.pos.x == origin.x + dir.x * MUZZLE_OFFSET_PX
    &&& s.pos.y == origin.y + dir.y * MUZZLE_OFFSET_PX
    &&& s.hit_box.damage == p.damage
    &&& s.hit_box.knockback == Some(p.knockback)
    &&& s.hit_box_size == p.hit_box_size
    &&& s.lifetime == p.lifetime
    &&& s.die_on_hit == p.die_on_hit
    &&& s.sprite_index == p.sprite_index
    &&& p.speed_min <= s.speed <= p.speed_max
    &&& 2 * abs1(s.spread_mdeg as int) <= spread
    &&& (spread == 0 ==> s.spread_mdeg == 0)
}

/// Everything one weapon tick promises, relating the weapon before
/// (`w0`) and after (`w1`) and the burst it spawned. The cooldown burns
/// down first; a pending reload that has cooled swaps to a different
/// random weapon and consumes the tick; otherwise, if the actor is
/// alive, wants to shoot, the cooldown is over and ammo remains, one
/// trigger pull spawns the full burst, costs exactly one ammo, and arms
/// either the fire-rate cooldown or — when the magazine just emptied —
/// the reload; and in every other case the tick changes nothing but the
/// cooldown.
pub open spec fn spec_fire_outcome(
    w0: Weapon,
    w1: Weapon,
    spawns: Seq<ProjectileSpawn>,
    dt: u32,
    want_shoot: bool,
    alive: bool,
    aim: Vec2,
    facing: Vec2,
    origin: Vec2,
) -> bool {
    let cd = if dt <= w0.cooldown {
        w0.cooldown - dt
    } else {
        0int
    };
    let reloads = w0.reloading && cd == 0;
    let fires = !reloads && want_shoot && cd == 0 && w0.ammo > 0 && alive;
    &&& (reloads ==> {
        &&& w1.equipped != w0.equipped
        &&& w1.stats == w1.equipped.spec_stats()
        &&& w1.ammo == w1.stats.max_ammo
        &&& !w1.reloading
        &&& w1.cooldown == 0
        &&& spawns.len() == 0
    })
    &&& (!reloads && !fires ==> {
        &&& w1 == (Weapon { cooldown: cd as u32, ..w0 })
        &&& spawns.len() == 0
    })
    &&& (fires ==> {
        &&& spawns.len() == w0.stats.projectiles_per_shot
        &&& w1.equipped == w0.equipped
        &&& w1.stats == w0.stats
        &&& w1.ammo == w0.ammo - 1
        &&& w1.reloading == (w0.ammo == 1)
        &&& w1.cooldown == if w0.ammo == 1 {
            RELOAD_UNITS as int
        } else {
            w0.stats.fire_rate as int
        }
        &&& forall|i: int|
            0 <= i < spawns.len() ==> spawn_ok(#[trigger] spawns[i], w0.equipped, aim, facing, origin)
    })
}

/// One tick of an actor's weapon, exactly as `spec_fire_outcome`
/// relates the weapon before and after to the spawned burst.
pub fn fire_weapon(
    w: &mut Weapon,
    dt: u32,
    want_shoot: bool,
    alive: bool,
    aim: Vec2,
    facing: Vec2,
    origin: Vec2,
) -> (spawns: Vec<ProjectileSpawn>)
    requires
        old(w).wf(),
        in_world(origin),
        abs1(aim.x as int) <= 2 * crate::geom::COORD_LIMIT,
        abs1(aim.y as int) <= 2 * crate::geom::COORD_LIMIT,
        abs1(facing.x as int) <= DIR_SCALE,
        abs1(facing.y as int) <= DIR_SCALE,
    ensures
        final(w).wf(),
        spec_fire_outcome(
            *old(w),
            *final(w),
            spawns@,
            dt,
            want_shoot,
            alive,
            aim,
            facing,
            origin,
        ),
{
    if dt <= w.cooldown {
        w.cooldown = w.cooldown - dt;
    } else {
        w.cooldown = 0;
    }
    let mut spawns: Vec<ProjectileSpawn> = Vec::new();

    if w.reloading && w.cooldown == 0 {
        let choice = WeaponChoice::random_excluding(w.equipped);
        w.equipped = choice;
        w.stats = choice.get_weapon_stats();
        w.ammo = w.stats.max_ammo;
        w.reloading = false;
        return spawns;
    }

    if !(want_shoot && w.cooldown == 0 && w.ammo > 0 && alive) {
        return spawns;
    }

    let params = projectile_params(w.equipped);
    let kind = match w.equipped {
        WeaponChoice::Boomerang => ProjectileKind::Boomerang,
        WeaponChoice::GrenadeLauncher => ProjectileKind::Grenade,
        _ => ProjectileKind::Linear,
    };
    let aim_dir = if !aim.is_zero() {
        aim.normalize_or_zero()
    } else {
        facing
    };
    proof {
        assert(abs1(aim_dir.x as int) * MUZZLE_OFFSET_PX <= i64::MAX) by (nonlinear_arith)
            requires abs1(aim_dir.x as int) <= 1000,
        ;
        assert(abs1(aim_dir.y as int) * MUZZLE_OFFSET_PX <= i64::MAX) by (nonlinear_arith)
            requires abs1(aim_dir.y as int) <= 1000,
        ;
        assert(abs1(aim_dir.x as int) * MUZZLE_OFFSET_PX <= 10_000 && abs1(aim_dir.y as int)
            * MUZZLE_OFFSET_PX <= 10_000) by (nonlinear_arith)
            requires abs1(aim_dir.x as int) <= 1000 && abs1(aim_dir.y as int) <= 1000,
        ;
    }
    let muzzle = aim_dir.scale(MUZZLE_OFFSET_PX);
    let pos = origin.add(muzzle);

    let n = w.stats.projectiles_per_shot;
    let mut i: u8 = 0;
    while i < n
        invariant
            i <= n,
            spawns@.len() == i as int,
            params == spec_projectile_params(w.equipped),
            kind == spec_projectile_kind(w.equipped),
            w.stats == w.equipped.spec_stats(),
            aim_dir == if aim == spec_zero() {
                facing
            } else {
                spec_normalize(aim)
            },
            pos.x == origin.x + aim_dir.x * MUZZLE_OFFSET_PX,
            pos.y == origin.y + aim_dir.y * MUZZLE_OFFSET_PX,
            forall|j: int|
                0 <= j < spawns@.len() ==> spawn_ok(
                    #[trigger] spawns@[j],
                    w.equipped,
                    aim,
                    facing,
                    origin,
                ),
        decreases n - i,
    {
        let spread_mdeg: i32 = if w.stats.spread > 0 {
            let off = rand_u32_below(w.stats.spread);
            proof {
                assert(w.stats.spread <= 75_000) by {
                    assert(w.stats == w.equipped.spec_stats());
                };
            }
            (off as i32) - ((w.stats.spread / 2) as i32)
        } else {
            0
        };
        let speed: u32 = if params.speed_min < params.speed_max {
            params.speed_min + rand_u32_below(params.speed_max - params.speed_min)
        } else {
            params.speed_min
        };
        let hit_box = HitBox { damage: params.damage, knockback: Some(params.knockback) };
        spawns.push(
            ProjectileSpawn {
                kind,
                pos,
                dir: aim_dir,
                spread_mdeg,
                speed,
                hit_box,
                hit_box_size: params.hit_box_size,
                lifetime: params.lifetime,
                die_on_hit: params.die_on_hit,
                sprite_index: params.sprite_index,
            },
        );
        i = i + 1;
    }

    w.ammo = w.ammo - 1;
    if w.ammo != 0 {
        w.cooldown = w.stats.fire_rate;
    } else {
        w.reloading = true;
        w.cooldown = RELOAD_UNITS;
    }
    spawns
}

/// A grenade's transient state: its fuse and the detonation latch.
#[derive(Clone, Copy, Debug, PartialEq, Eq, Structural)]
pub struct Grenade {
    /// Time units left on the fuse.
    pub explode_timer: u32,
    /// Latched once the grenade has detonated; a detonated grenade
    /// never detonates again.
    pub exploded: bool,
}

/// Something that can set a grenade off: a qualifying hit, or fuse time
/// passing.
#[derive(Clone, Copy, Debug, PartialEq, Eq, Structural)]
pub enum GrenadeTrigger {
    Hit,
    Elapse(u32),
}

/// The grenade state after one trigger, and whether that trigger
/// detonated it: a hit detonates an unexploded grenade at once; elapsed
/// time burns the fuse (clamped at zero) and detonates the grenade the
/// moment the fuse is spent.
pub open spec fn spec_grenade_step(g: Grenade, ev: GrenadeTrigger) -> (Grenade, bool) {
    match ev {
        GrenadeTrigger::Hit => (Grenade { explode_timer: g.explode_timer, exploded: true }, !g.exploded),
        GrenadeTrigger::Elapse(dt) => {
            let t = if dt <= g.explode_timer {
                (g.explode_timer - dt) as u32
            } else {
                0u32
            };
            let det = !g.exploded && t == 0;
            (Grenade { explode_timer: t, exploded: g.exploded || det }, det)
        },
    }
}

/// How many detonations a sequence of triggers produces.
pub open spec fn detonation_count(g: Grenade, evs: Seq<GrenadeTrigger>) -> int
    decreases evs.len(),
{
    if evs.len() == 0 {
        0
    } else {
        let (g2, det) = spec_grenade_step(g, evs[0]);
        (if det {
            1int
        } else {
            0int
        }) + detonation_count(g2, evs.drop_first())
    }
}

/// Total fuse time burnt by a sequence of triggers.
pub open spec fn total_elapse(evs: Seq<GrenadeTrigger>) -> int
    decreases evs.len(),
{
    if evs.len() == 0 {
        0
    } else {
        (match evs[0] {
            GrenadeTrigger::Elapse(dt) => dt as int,
            GrenadeTrigger::Hit => 0,
        }) + total_elapse(evs.drop_first())
    }
}

/// The detonation latch: a grenade detonates at most once over any
/// sequence of qualifying hits and fuse ticks, and a grenade that has
/// already detonated never detonates again.
pub proof fn lemma_grenade_detonates_at_most_once(g: Grenade, evs: Seq<GrenadeTrigger>)
    ensures
        detonation_count(g, evs) <= 1,
        g.exploded ==> detonation_count(g, evs) == 0,
    decreases evs.len(),
{
    if evs.len() > 0 {
        let (g2, det) = spec_grenade_step(g, evs[0]);
        lemma_grenade_detonates_at_most_once(g2, evs.drop_first());
    }
}

/// An unexploded grenade detonates exactly once over a sequence of
/// triggers that contains a qualifying hit, or whose fuse ticks add up
/// to the remaining fuse — whichever comes first, the latch admits one
/// detonation and one only.
pub proof fn lemma_grenade_detonates_exactly_once(g: Grenade, evs: Seq<GrenadeTrigger>)
    requires
        !g.exploded,
        g.explode_timer > 0,
        (exists|i: int| 0 <= i < evs.len() && evs[i] is Hit) || total_elapse(evs)
            >= g.explode_timer,
    ensures
        detonation_count(g, evs) == 1,
    decreases evs.len(),
{
    lemma_grenade_detonates_at_most_once(g, evs);
    if evs.len() == 0 {
        assert(g.explode_timer == 0);
        assert(false);
    } else {
        let (g2, det) = spec_grenade_step(g, evs[0]);
        if det {
            lemma_grenade_detonates_at_most_once(g2, evs.drop_first());
        } else {
            if evs[0] is Hit {
                assert(false);
            }
            if exists|i: int| 0 <= i < evs.len() && evs[i] is Hit {
                let i = choose|i: int| 0 <= i < evs.len() && evs[i] is Hit;
                assert(i >= 1);
                assert(evs.drop_first()[i - 1] is Hit);
            } else {
                assert(total_elapse(evs.drop_first()) >= g2.explode_timer);
            }
            lemma_grenade_detonates_exactly_once(g2, evs.drop_first());
        }
    }
}

impl Grenade {
    /// A freshly launched grenade: full fuse, not yet detonated.
    pub fn new() -> (r: Self)
        ensures
            r.explode_timer == GRENADE_FUSE_UNITS,
            !r.exploded,
    {
        Grenade { explode_timer: GRENADE_FUSE_UNITS, exploded: false }
    }

    /// A qualifying hit: detonates the grenade unless the latch is
    /// already set.
    pub fn on_hit(&mut self) -> (detonated: bool)
        ensures
            (*final(self), detonated) == spec_grenade_step(*old(self), GrenadeTrigger::Hit),
            final(self).exploded,
            detonated == !old(self).exploded,
    {
        let detonated = !self.exploded;
        self.exploded = true;
        detonated
    }

    /// Burns `dt` off the fuse; the grenade detonates the moment the
    /// fuse is spent, unless the latch is already set.
    pub fn tick(&mut self, dt: u32) -> (detonated: bool)
        ensures
            (*final(self), detonated) == spec_grenade_step(*old(self), GrenadeTrigger::Elapse(dt)),
            detonated == (!old(self).exploded && final(self).explode_timer == 0),
            old(self).exploded ==> !detonated,
    {
        if dt <= self.explode_timer {
            self.explode_timer = self.explode_timer - dt;
        } else {
            self.explode_timer = 0;
        }
        let detonated = !self.exploded && self.explode_timer == 0;
        if detonated {
            self.exploded = true;
        }
        detonated
    }
}

/// The area-effect entity a detonation leaves behind: a one-shot
/// attacker with a fixed larger radius, its own damage, and a short
/// lifetime, at the point of detonation.
#[derive(Clone, Copy, Debug, PartialEq, Eq, Structural)]
pub struct ExplosionSpawn {
    pub pos: Vec2,
    pub hit_box: HitBox,
    pub radius: u32,
    pub lifetime: u32,
}

/// Builds the area-effect spawn for a detonation at `pos`.
pub fn explosion_spawn(pos: Vec2) -> (r: ExplosionSpawn)
    ensures
        r.pos == pos,
        r.hit_box.damage == EXPLOSION_DAMAGE,
        r.hit_box.knockback is None,
        r.radius == EXPLOSION_RADIUS_MPX,
        r.lifetime == EXPLOSION_LIFETIME_UNITS,
{
    ExplosionSpawn {
        pos,
        hit_box: HitBox { damage: EXPLOSION_DAMAGE, knockback: None },
        radius: EXPLOSION_RADIUS_MPX,
        lifetime: EXPLOSION_LIFETIME_UNITS,
    }
}

/// A boomerang's transient state: its outbound direction and speed, and
/// how long the outbound phase still lasts.
#[derive(Clone, Copy, Debug, PartialEq, Eq, Structural)]
pub struct Boomerang {
    /// Outbound flight direction, a unit vector at scale `DIR_SCALE`.
    pub dir: Vec2,
    /// Flight speed magnitude, in pixels per second.
    pub speed: u32,
    /// Time units left in the outbound phase.
    pub return_time: u32,
}

impl Boomerang {
    /// The direction is a unit vector and the speed stays in the range
    /// the movement arithmetic is proved for.
    pub open spec fn wf(self) -> bool {
        &&& abs1(self.dir.x as int) <= DIR_SCALE
        &&& abs1(self.dir.y as int) <= DIR_SCALE
        &&& self.speed <= 250
    }

    /// A boomerang just thrown along `dir`.
    pub fn new(dir: Vec2) -> (r: Self)
        requires
            abs1(dir.x as int) <= DIR_SCALE,
            abs1(dir.y as int) <= DIR_SCALE,
        ensures
            r.dir == dir,
            r.speed == LOB_SPEED_PX,
            r.return_time == BOOMERANG_RETURN_UNITS,
            r.wf(),
    {
        Boomerang { dir, speed: LOB_SPEED_PX, return_time: BOOMERANG_RETURN_UNITS }
    }

    /// One tick of boomerang flight: first the outbound clock burns
    /// down; while it lasts the boomerang flies straight out. Once the
    /// return phase has begun, the boomerang despawns the tick it is
    /// already within the capture radius of the player, and otherwise
    /// homes straight toward the player's current position — so its
    /// distance to that position never grows.
    pub fn fly(&mut self, pos: Vec2, player_pos: Vec2, dt: u32) -> (r: (Vec2, bool))
        requires
            old(self).wf(),
            in_world(pos),
            in_world(player_pos),
            dt <= MAX_TICK_UNITS,
        ensures
            final(self).dir == old(self).dir,
            final(self).speed == old(self).speed,
            final(self).wf(),
            final(self).return_time == if dt <= old(self).return_time {
                old(self).return_time - dt
            } else {
                0int
            },
            in_world(r.0),
            final(self).return_time > 0 ==> r.0 == spec_advance(
                pos,
                Vec2 {
                    x: (old(self).dir.x * old(self).speed) as i64,
                    y: (old(self).dir.y * old(self).speed) as i64,
                },
                dt,
            ) && !r.1,
            final(self).return_time == 0 && dist2(pos, player_pos) < BOOMERANG_CAPTURE_MPX
                * BOOMERANG_CAPTURE_MPX ==> r.1 && r.0 == pos,
            final(self).return_time == 0 && dist2(pos, player_pos) >= BOOMERANG_CAPTURE_MPX
                * BOOMERANG_CAPTURE_MPX ==> !r.1 && r.0 == crate::geom::spec_step_toward(
                pos,
                player_pos,
                ((old(self).speed * 1000 * dt) / 600) as u64,
            ) && dist2(r.0, player_pos) <= dist2(pos, player_pos),
    {
        if dt <= self.return_time {
            self.return_time = self.return_time - dt;
        } else {
            self.return_time = 0;
        }
        if self.return_time > 0 {
            let new_pos = update_projectile_movement(pos, self.dir, self.speed, dt);
            (new_pos, false)
        } else {
            let d2 = dist2_u64(pos, player_pos);
            if d2 < BOOMERANG_CAPTURE_MPX * BOOMERANG_CAPTURE_MPX {
                (pos, true)
            } else {
                proof {
                    assert((self.speed as u64) * 1000 * (dt as u64) <= u64::MAX)
                        by (nonlinear_arith)
                        requires
                            self.speed <= 250u32,
                            dt <= 2_160_000u32,
                    ;
                    assert((self.speed as u64) * 1000 * (dt as u64) / 600 <= 1_000_000_000)
                        by (nonlinear_arith)
                        requires
                            self.speed <= 250u32,
                            dt <= 2_160_000u32,
                    ;
                }
                let step: u64 = (self.speed as u64) * 1000 * (dt as u64) / 600;
                let new_pos = step_toward(pos, player_pos, step);
                (new_pos, false)
            }
        }
    }
}

/// Where a linear projectile (or a grenade in flight) is after `dt`
/// time units: it moves at direction times speed, clamped to the world.
pub fn update_projectile_movement(pos: Vec2, dir: Vec2, speed: u32, dt: u32) -> (r: Vec2)
    requires
        in_world(pos),
        abs1(dir.x as int) <= DIR_SCALE,
        abs1(dir.y as int) <= DIR_SCALE,
        speed <= 1000,
        dt <= MAX_TICK_UNITS,
    ensures
        r == spec_advance(
            pos,
            Vec2 { x: (dir.x * speed) as i64, y: (dir.y * speed) as i64 },
            dt,
        ),
        in_world(r),
{
    proof {
        assert(abs1(dir.x as int) * speed <= 1_000_000 && abs1(dir.y as int) * speed <= 1_000_000)
            by (nonlinear_arith)
            requires
                0 <= abs1(dir.x as int) <= 1000,
                0 <= abs1(dir.y as int) <= 1000,
                speed <= 1000u32,
        ;
        assert(-1_000_000 <= dir.x * speed <= 1_000_000 && -1_000_000 <= dir.y * speed
            <= 1_000_000) by (nonlinear_arith)
            requires
                -1000 <= dir.x <= 1000,
                -1000 <= dir.y <= 1000,
                speed <= 1000u32,
        ;
    }
    let vel = dir.scale(speed as i64);
    crate::geom::advance(pos, vel, dt)
}

} // verus!
