//! Time-gated enemy creation with a stepped difficulty curve.
use vstd::prelude::*;

use crate::random::rand_u32_below;

verus! {

/// How far from the player enemies appear, in pixels.
pub const SPAWN_DISTANCE_PX: u32 = 300;

/// Milli-degrees in a full turn, the range a spawn angle is drawn from.
pub const FULL_TURN_MDEG: u32 = 360_000;

/// The number of live enemies, reconciled from spawn and death diffs.
#[derive(Clone, Copy, Debug, PartialEq, Eq, Structural)]
pub struct EnemyCount(pub u32);

/// Reconciles the live count from this tick's diffs: the newly
/// death-tagged actors leave, the newly created ones arrive.
pub fn update_enemy_count(count: &mut EnemyCount, spawned: u32, died: u32)
    requires
        died <= old(count).0,
        old(count).0 - died + spawned <= u32::MAX,
    ensures
        final(count).0 == old(count).0 - died + spawned,
{
    count.0 = count.0 - died;
    count.0 = count.0 + spawned;
}

/// A repeating countdown, in time units.
#[derive(Clone, Copy, Debug, PartialEq, Eq, Structural)]
pub struct RepeatingTimer {
    pub period: u32,
    pub elapsed: u32,
    pub paused: bool,
}

impl RepeatingTimer {
    /// A running timer with the given period.
    pub fn new(period: u32) -> (r: Self)
        requires
            period > 0,
        ensures
            r.period == period,
            r.elapsed == 0,
            !r.paused,
    {
        RepeatingTimer { period, elapsed: 0, paused: false }
    }

    /// Advances the timer; reports whether it wrapped around (finished)
    /// during this tick.
    pub fn tick(&mut self, dt: u32) -> (just_finished: bool)
        requires
            old(self).period > 0,
        ensures
            final(self).period == old(self).period,
            final(self).paused == old(self).paused,
            old(self).paused ==> *final(self) == *old(self) && !just_finished,
            !old(self).paused ==> {
                &&& just_finished == (old(self).elapsed + dt >= old(self).period)
                &&& final(self).elapsed == if old(self).elapsed + dt >= old(self).period {
                    (old(self).elapsed + dt) % (old(self).period as int)
                } else {
                    old(self).elapsed + dt
                }
            },
    {
        if self.paused {
            return false;
        }
        let sum: u64 = self.elapsed as u64 + dt as u64;
        if sum >= self.period as u64 {
            self.elapsed = (sum % self.period as u64) as u32;
            true
        } else {
            self.elapsed = sum as u32;
            false
        }
    }

    /// Pauses a running timer, or lets a paused one run again.
    pub fn toggle(&mut self)
        ensures
            final(self).paused == !old(self).paused,
            final(self).period == old(self).period,
            final(self).elapsed == old(self).elapsed,
    {
        self.paused = !self.paused;
    }
}

/// The population spawner: the live-enemy cap, the pause between
/// spawns, and the repeating cooldown that gates them.
#[derive(Clone, Copy, Debug, PartialEq, Eq, Structural)]
pub struct Spawner {
    pub max_enemies: u32,
    /// Time units between spawns.
    pub spawn_interval: u32,
    pub cooldown: RepeatingTimer,
}

impl Spawner {
    /// The cooldown runs at the configured interval, which is never zero.
    pub open spec fn wf(self) -> bool {
        &&& self.spawn_interval > 0
        &&& self.cooldown.period == self.spawn_interval
    }

    /// A spawner with the given cap and interval.
    pub fn new(max_enemies: u32, spawn_interval: u32) -> (r: Self)
        requires
            spawn_interval > 0,
        ensures
            r.max_enemies == max_enemies,
            r.spawn_interval == spawn_interval,
            r.cooldown.elapsed == 0,
            !r.cooldown.paused,
            r.wf(),
    {
        Spawner {
            max_enemies,
            spawn_interval,
            cooldown: RepeatingTimer::new(spawn_interval),
        }
    }

    /// Moves the spawner to a difficulty tier: the cap and the interval
    /// are replaced and the cooldown reruns at the new interval.
    fn set_difficulty(&mut self, max_enemies: u32, spawn_interval: u32)
        requires
            spawn_interval > 0,
        ensures
            final(self).max_enemies == max_enemies,
            final(self).spawn_interval == spawn_interval,
            final(self).cooldown.period == spawn_interval,
            final(self).cooldown.elapsed == old(self).cooldown.elapsed,
            final(self).cooldown.paused == old(self).cooldown.paused,
            final(self).wf(),
    {
        self.max_enemies = max_enemies;
        self.spawn_interval = spawn_interval;
        self.cooldown.period = spawn_interval;
    }

    /// Pauses or resumes spawning.
    pub fn toggle(&mut self)
        ensures
            final(self).cooldown.paused == !old(self).cooldown.paused,
            final(self).max_enemies == old(self).max_enemies,
            final(self).spawn_interval == old(self).spawn_interval,
            final(self).cooldown.period == old(self).cooldown.period,
            final(self).cooldown.elapsed == old(self).cooldown.elapsed,
    {
        self.cooldown.toggle();
    }
}

/// The difficulty curve: a step function from elapsed match time (in
/// time units) to the tier's (population cap, spawn interval). Being a
/// function of the elapsed time alone, re-evaluating it at the same
/// time always yields the same tier.
pub open spec fn spec_difficulty_tier(elapsed: u64) -> (u32, u32) {
    if elapsed > 180_000 {
        (300u32, 60u32)
    } else if elapsed > 72_000 {
        (150u32, 180u32)
    } else if elapsed > 36_000 {
        (100u32, 300u32)
    } else {
        (50u32, 600u32)
    }
}

/// Evaluates the difficulty curve at an elapsed match time.
pub fn difficulty_tier(elapsed: u64) -> (r: (u32, u32))
    ensures
        r == spec_difficulty_tier(elapsed),
        r.1 > 0,
{
    if elapsed > 180_000 {
        (300, 60)
    } else if elapsed > 72_000 {
        (150, 180)
    } else if elapsed > 36_000 {
        (100, 300)
    } else {
        (50, 600)
    }
}

/// The difficulty curve is monotonic: as the match runs on, the
/// population cap never shrinks and the spawn interval never grows.
pub proof fn lemma_difficulty_monotonic(t1: u64, t2: u64)
    requires
        t1 <= t2,
    ensures
        spec_difficulty_tier(t1).0 <= spec_difficulty_tier(t2).0,
        spec_difficulty_tier(t1).1 >= spec_difficulty_tier(t2).1,
{
}

/// Re-reads the difficulty curve for the elapsed match time and moves
/// the spawner onto that tier.
pub fn increase_difficulty(spawner: &mut Spawner, elapsed: u64)
    ensures
        final(spawner).max_enemies == spec_difficulty_tier(elapsed).0,
        final(spawner).spawn_interval == spec_difficulty_tier(elapsed).1,
        final(spawner).cooldown.period == spec_difficulty_tier(elapsed).1,
        final(spawner).cooldown.elapsed == old(spawner).cooldown.elapsed,
        final(spawner).cooldown.paused == old(spawner).cooldown.paused,
        final(spawner).wf(),
{
    let (max_enemies, interval) = difficulty_tier(elapsed);
    spawner.set_difficulty(max_enemies, interval);
}

/// One tick of the spawn gate: the cooldown advances, and if it just
/// elapsed while the live population is under the cap, one enemy is to
/// be created, at a position drawn uniformly on the circle of fixed
/// radius around the player — reported as an angle in milli-degrees.
pub fn spawn_enemies(spawner: &mut Spawner, enemy_count: u32, dt: u32) -> (angle: Option<u32>)
    requires
        old(spawner).wf(),
    ensures
        final(spawner).wf(),
        final(spawner).max_enemies == old(spawner).max_enemies,
        final(spawner).spawn_interval == old(spawner).spawn_interval,
        angle is Some <==> (enemy_count < old(spawner).max_enemies && !old(
            spawner,
        ).cooldown.paused && old(spawner).cooldown.elapsed + dt >= old(spawner).cooldown.period),
        angle is Some ==> angle->0 < FULL_TURN_MDEG,
{
    let just_finished = spawner.cooldown.tick(dt);
    if enemy_count < spawner.max_enemies && just_finished {
        Some(rand_u32_below(FULL_TURN_MDEG))
    } else {
        None
    }
}

} // verus!
