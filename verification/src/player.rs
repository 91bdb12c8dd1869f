//! The player actor: per-tick intent, movement, the post-hit
//! invulnerability window, and player-side damage resolution.
use vstd::prelude::*;

use crate::combat::Knockback;
use crate::game::GameTimers;
use crate::geom::abs1;
use crate::geom::spec_normalize;
use crate::geom::spec_zero;
use crate::geom::Vec2;
use crate::geom::DIR_SCALE;
use crate::health::PlayerHealth;
use crate::physics::CollisionGroups;
use crate::TIME_UNITS_PER_SECOND;

verus! {

/// How long the post-hit invulnerability window lasts: one second.
pub const POST_HIT_INVULN_UNITS: u32 = 600;

/// Width of one visibility flicker bucket during invulnerability:
/// a tenth of a second, so the player flickers at 10 Hz.
pub const FLICKER_BUCKET_UNITS: u64 = 60;

/// Which device the aim intent came from this tick.
#[derive(Clone, Copy, Debug, PartialEq, Eq, Structural)]
pub enum AimDevice {
    Inactive,
    Gamepad,
    Mouse(Vec2),
}

/// The input collaborator's normalized per-tick intent snapshot.
#[derive(Clone, Copy, Debug, PartialEq, Eq, Structural)]
pub struct PlayerInput {
    pub movement: Vec2,
    pub aim: Vec2,
    pub aim_device: AimDevice,
    pub shoot: bool,
    pub next_weapon: bool,
    pub prev_weapon: bool,
    pub reset_game: bool,
}

impl Default for PlayerInput {
    /// An idle intent: no movement, no aim, nothing pressed.
    fn default() -> (r: Self)
        ensures
            r.movement == spec_zero(),
            r.aim == spec_zero(),
            r.aim_device is Inactive,
            !r.shoot,
            !r.next_weapon,
            !r.prev_weapon,
            !r.reset_game,
    {
        PlayerInput {
            movement: Vec2 { x: 0, y: 0 },
            aim: Vec2 { x: 0, y: 0 },
            aim_device: AimDevice::Inactive,
            shoot: false,
            next_weapon: false,
            prev_weapon: false,
            reset_game: false,
        }
    }
}

/// The player's smoothed aim direction, as a fixed-point unit vector.
#[derive(Clone, Copy, Debug, PartialEq, Eq, Structural)]
pub struct PlayerAim(pub Vec2);

/// The timed suppression of the player's hurt box after taking damage.
#[derive(Clone, Copy, Debug, PartialEq, Eq, Structural)]
pub struct PostHitInvulnerability {
    pub remaining: u32,
}

impl PostHitInvulnerability {
    /// No window pending.
    pub fn new() -> (r: Self)
        ensures
            r.remaining == 0,
    {
        PostHitInvulnerability { remaining: 0 }
    }

    /// The window is open exactly while time remains on it.
    pub fn is_active(&self) -> (r: bool)
        ensures
            r == (self.remaining > 0),
    {
        self.remaining > 0
    }

    /// Opens the window for its fixed one-second span.
    pub fn start(&mut self)
        ensures
            final(self).remaining == POST_HIT_INVULN_UNITS,
    {
        self.remaining = POST_HIT_INVULN_UNITS;
    }

    /// Burns `dt` off the window, clamped at zero.
    pub fn tick(&mut self, dt: u32)
        ensures
            final(self).remaining == if dt <= old(self).remaining {
                old(self).remaining - dt
            } else {
                0int
            },
    {
        if dt <= self.remaining {
            self.remaining = self.remaining - dt;
        } else {
            self.remaining = 0;
        }
    }
}

/// Reacts to a health change: when the player was damaged but lives
/// (vitality strictly between zero and the maximum), the
/// invulnerability window opens and the hurt box's collision filter is
/// cleared at once, so no further hits register.
pub fn apply_post_hit_invuln(
    invuln: &mut PostHitInvulnerability,
    hurt_box_groups: &mut CollisionGroups,
    health: &PlayerHealth,
)
    ensures
        health.current > 0 && health.current < health.max ==> {
            &&& final(invuln).remaining == POST_HIT_INVULN_UNITS
            &&& *final(hurt_box_groups) == CollisionGroups::spec_none()
        },
        !(health.current > 0 && health.current < health.max) ==> {
            &&& *final(invuln) == *old(invuln)
            &&& *final(hurt_box_groups) == *old(hurt_box_groups)
        },
{
    let missing = health.missing();
    if health.current > 0 && missing > 0 {
        invuln.start();
        *hurt_box_groups = CollisionGroups::new(0, 0);
    }
}

/// Counts the invulnerability window down; the moment it expires the
/// hurt box's normal collision filter is restored.
pub fn update_post_hit_invuln(
    invuln: &mut PostHitInvulnerability,
    hurt_box_groups: &mut CollisionGroups,
    dt: u32,
)
    ensures
        old(invuln).remaining == 0 ==> {
            &&& *final(invuln) == *old(invuln)
            &&& *final(hurt_box_groups) == *old(hurt_box_groups)
        },
        old(invuln).remaining > 0 ==> final(invuln).remaining == if dt <= old(invuln).remaining {
            old(invuln).remaining - dt
        } else {
            0int
        },
        old(invuln).remaining > 0 && final(invuln).remaining == 0 ==> *final(hurt_box_groups)
            == CollisionGroups::spec_player_hurt(),
        old(invuln).remaining > 0 && final(invuln).remaining > 0 ==> *final(hurt_box_groups)
            == *old(hurt_box_groups),
{
    if invuln.is_active() {
        invuln.tick(dt);
        if !invuln.is_active() {
            *hurt_box_groups = CollisionGroups::new(
                crate::physics::GROUP_PLAYER,
                crate::physics::GROUP_HIT,
            );
        }
    }
}

/// Whether the player sprite is visible at the given session time: the
/// renderer flickers the player at 10 Hz while invulnerable (visible in
/// the even tenth-of-a-second buckets) and keeps it visible otherwise.
pub fn flicker_player_during_invuln(invuln: &PostHitInvulnerability, elapsed: u64) -> (visible:
    bool)
    ensures
        invuln.remaining == 0 ==> visible,
        invuln.remaining > 0 ==> visible == (((elapsed % (TIME_UNITS_PER_SECOND as u64))
            / FLICKER_BUCKET_UNITS) % 2 == 0),
{
    let just_units = elapsed % (TIME_UNITS_PER_SECOND as u64);
    let bucket = just_units / FLICKER_BUCKET_UNITS;
    if invuln.is_active() {
        bucket % 2 == 0
    } else {
        true
    }
}

/// Resolves the tick's player-hit events: any number of simultaneous
/// enemy contacts costs one point of vitality in all, and the moment
/// vitality reaches zero the match clock pauses and the reset countdown
/// starts running.
pub fn deal_player_hit_damage(health: &mut PlayerHealth, timers: &mut GameTimers, n_hits: usize)
    ensures
        n_hits == 0 ==> *final(health) == *old(health) && *final(timers) == *old(timers),
        n_hits > 0 ==> {
            &&& final(health).max == old(health).max
            &&& final(health).current == if old(health).current >= 1 {
                old(health).current - 1
            } else {
                0int
            }
        },
        n_hits > 0 && final(health).current == 0 ==> {
            &&& final(timers).game_time.paused
            &&& final(timers).game_time.elapsed == old(timers).game_time.elapsed
            &&& !final(timers).reset_time.paused
            &&& final(timers).reset_time.elapsed == old(timers).reset_time.elapsed
            &&& final(timers).reset_time.duration == old(timers).reset_time.duration
        },
        n_hits > 0 && final(health).current > 0 ==> *final(timers) == *old(timers),
{
    if n_hits > 0 {
        health.lose_health(1);
        if health.current == 0 {
            timers.game_time.pause();
            timers.reset_time.unpause();
        }
    }
}

/// The velocity the player's movement control asks for this tick, in
/// milli-pixels per second. While a knockback override is active the
/// movement control yields and changes nothing; a dead player stands
/// still; otherwise the intent vector is scaled by the walk speed and
/// the facing follows any non-zero movement.
pub fn update_player_movement(
    input: &PlayerInput,
    walk_speed: u32,
    knockback: &Knockback,
    health: &PlayerHealth,
    velocity: &mut Vec2,
    facing: &mut Vec2,
)
    requires
        abs1(input.movement.x as int) <= DIR_SCALE,
        abs1(input.movement.y as int) <= DIR_SCALE,
        walk_speed <= 1000,
        abs1(old(velocity).x as int) <= 1_000_000,
        abs1(old(velocity).y as int) <= 1_000_000,
        abs1(old(facing).x as int) <= DIR_SCALE,
        abs1(old(facing).y as int) <= DIR_SCALE,
    ensures
        abs1(final(velocity).x as int) <= 1_000_000,
        abs1(final(velocity).y as int) <= 1_000_000,
        abs1(final(facing).x as int) <= DIR_SCALE,
        abs1(final(facing).y as int) <= DIR_SCALE,
        knockback.remaining_time > 0 ==> *final(velocity) == *old(velocity) && *final(facing)
            == *old(facing),
        knockback.remaining_time == 0 && health.current == 0 ==> *final(velocity) == spec_zero()
            && *final(facing) == *old(facing),
        knockback.remaining_time == 0 && health.current > 0 ==> {
            &&& final(velocity).x == input.movement.x * walk_speed
            &&& final(velocity).y == input.movement.y * walk_speed
            &&& *final(facing) == if input.movement == spec_zero() {
                *old(facing)
            } else {
                spec_normalize(input.movement)
            }
        },
{
    if knockback.is_active() {
        return ;
    }
    if health.current == 0 {
        *velocity = Vec2 { x: 0, y: 0 };
    } else {
        proof {
            assert(abs1(input.movement.x as int) * walk_speed <= i64::MAX) by (nonlinear_arith)
                requires
                    0 <= abs1(input.movement.x as int) <= 1000,
                    walk_speed <= 1000u32,
            ;
            assert(abs1(input.movement.y as int) * walk_speed <= i64::MAX) by (nonlinear_arith)
                requires
                    0 <= abs1(input.movement.y as int) <= 1000,
                    walk_speed <= 1000u32,
            ;
            assert(-1_000_000 <= input.movement.x * walk_speed <= 1_000_000 && -1_000_000
                <= input.movement.y * walk_speed <= 1_000_000) by (nonlinear_arith)
                requires
                    -1000 <= input.movement.x <= 1000,
                    -1000 <= input.movement.y <= 1000,
                    walk_speed <= 1000u32,
            ;
        }
        *velocity = input.movement.scale(walk_speed as i64);
        if !input.movement.is_zero() {
            *facing = input.movement.normalize_or_zero();
        }
    }
}

/// Steers the smoothed aim: a non-zero aim intent replaces the stored
/// direction with its normalisation; a zero intent keeps the old one.
pub fn update_player_aim(aim: &mut PlayerAim, input: &PlayerInput)
    requires
        abs1(input.aim.x as int) <= 2 * crate::geom::COORD_LIMIT,
        abs1(input.aim.y as int) <= 2 * crate::geom::COORD_LIMIT,
    ensures
        input.aim == spec_zero() ==> *final(aim) == *old(aim),
        input.aim != spec_zero() ==> final(aim).0 == spec_normalize(input.aim),
{
    if !input.aim.is_zero() {
        aim.0 = input.aim.normalize_or_zero();
    }
}

} // verus!
