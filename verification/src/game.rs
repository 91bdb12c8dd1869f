//! Session-level state: the match clock, the reset countdown, actor
//! facing, and entity lifetimes.
use vstd::prelude::*;

use crate::geom::Vec2;
use crate::geom::DIR_SCALE;

verus! {

/// The reset countdown armed when the player dies, in time units.
pub const RESET_DELAY_UNITS: u32 = 1200;

/// A pausable clock counting up, in time units.
#[derive(Clone, Copy, Debug, PartialEq, Eq, Structural)]
pub struct Stopwatch {
    pub elapsed: u64,
    pub paused: bool,
}

impl Stopwatch {
    /// A running stopwatch at zero.
    pub fn new() -> (r: Self)
        ensures
            r.elapsed == 0,
            !r.paused,
    {
        Stopwatch { elapsed: 0, paused: false }
    }

    pub fn pause(&mut self)
        ensures
            final(self).paused,
            final(self).elapsed == old(self).elapsed,
    {
        self.paused = true;
    }

    pub fn unpause(&mut self)
        ensures
            !final(self).paused,
            final(self).elapsed == old(self).elapsed,
    {
        self.paused = false;
    }

    /// Back to zero; the pause state is kept.
    pub fn reset(&mut self)
        ensures
            final(self).elapsed == 0,
            final(self).paused == old(self).paused,
    {
        self.elapsed = 0;
    }

    /// Advances the clock unless paused, saturating at the maximum.
    pub fn tick(&mut self, dt: u32)
        ensures
            *final(self) == spec_stopwatch_after(*old(self), dt),
            final(self).paused == old(self).paused,
            final(self).elapsed == if old(self).paused {
                old(self).elapsed as int
            } else if old(self).elapsed + dt <= u64::MAX {
                old(self).elapsed + dt
            } else {
                u64::MAX as int
            },
    {
        if !self.paused {
            if dt as u64 <= u64::MAX - self.elapsed {
                self.elapsed = self.elapsed + dt as u64;
            } else {
                self.elapsed = u64::MAX;
            }
        }
    }
}

/// A pausable one-shot countdown, in time units; finished once the
/// elapsed time reaches its duration.
#[derive(Clone, Copy, Debug, PartialEq, Eq, Structural)]
pub struct OnceTimer {
    pub duration: u32,
    pub elapsed: u32,
    pub paused: bool,
}

impl OnceTimer {
    /// A running timer of the given duration.
    pub fn new(duration: u32) -> (r: Self)
        ensures
            r.duration == duration,
            r.elapsed == 0,
            !r.paused,
    {
        OnceTimer { duration, elapsed: 0, paused: false }
    }

    pub fn pause(&mut self)
        ensures
            *final(self) == (OnceTimer { paused: true, ..*old(self) }),
    {
        self.paused = true;
    }

    pub fn unpause(&mut self)
        ensures
            *final(self) == (OnceTimer { paused: false, ..*old(self) }),
    {
        self.paused = false;
    }

    /// Back to zero; duration and pause state are kept.
    pub fn reset(&mut self)
        ensures
            *final(self) == (OnceTimer { elapsed: 0, ..*old(self) }),
    {
        self.elapsed = 0;
    }

    /// The countdown has run its full duration.
    pub fn finished(&self) -> (r: bool)
        ensures
            r == (self.elapsed >= self.duration),
    {
        self.elapsed >= self.duration
    }

    /// Advances the countdown unless paused, clamped to the duration.
    pub fn tick(&mut self, dt: u32)
        ensures
            *final(self) == spec_once_after(*old(self), dt),
            final(self).duration == old(self).duration,
            final(self).paused == old(self).paused,
            final(self).elapsed == if old(self).paused {
                old(self).elapsed as int
            } else if old(self).elapsed + dt <= old(self).duration {
                old(self).elapsed + dt
            } else {
                old(self).duration as int
            },
    {
        if !self.paused {
            if self.elapsed <= self.duration && dt <= self.duration - self.elapsed {
                self.elapsed = self.elapsed + dt;
            } else {
                self.elapsed = self.duration;
            }
        }
    }
}

/// The stopwatch state one tick later: paused clocks hold still,
/// running ones advance, saturating at the maximum.
pub open spec fn spec_stopwatch_after(s: Stopwatch, dt: u32) -> Stopwatch {
    if s.paused {
        s
    } else if s.elapsed + dt <= u64::MAX {
        Stopwatch { elapsed: (s.elapsed + dt) as u64, paused: false }
    } else {
        Stopwatch { elapsed: u64::MAX, paused: false }
    }
}

/// The countdown state one tick later: paused countdowns hold still,
/// running ones advance, clamped to their duration.
pub open spec fn spec_once_after(t: OnceTimer, dt: u32) -> OnceTimer {
    if t.paused {
        t
    } else if t.elapsed + dt <= t.duration {
        OnceTimer { elapsed: (t.elapsed + dt) as u32, ..t }
    } else {
        OnceTimer { elapsed: t.duration, ..t }
    }
}

/// The session clocks one tick later.
pub open spec fn spec_timers_after(t: GameTimers, dt: u32) -> GameTimers {
    GameTimers {
        game_time: spec_stopwatch_after(t.game_time, dt),
        reset_time: spec_once_after(t.reset_time, dt),
    }
}

/// The session clocks: the match stopwatch (paused while the player is
/// dead) and the reset countdown armed by the player's death.
#[derive(Clone, Copy, Debug, PartialEq, Eq, Structural)]
pub struct GameTimers {
    pub game_time: Stopwatch,
    pub reset_time: OnceTimer,
}

impl GameTimers {
    /// Both clocks paused at zero, the reset countdown at its fixed
    /// delay, as a session starts.
    pub fn new() -> (r: Self)
        ensures
            r.game_time.elapsed == 0,
            r.game_time.paused,
            r.reset_time.duration == RESET_DELAY_UNITS,
            r.reset_time.elapsed == 0,
            r.reset_time.paused,
    {
        GameTimers {
            game_time: Stopwatch { elapsed: 0, paused: true },
            reset_time: OnceTimer { duration: RESET_DELAY_UNITS, elapsed: 0, paused: true },
        }
    }

    /// Advances both clocks by the tick's elapsed time.
    pub fn tick(&mut self, dt: u32)
        ensures
            *final(self) == spec_timers_after(*old(self), dt),
            final(self).game_time.paused == old(self).game_time.paused,
            final(self).reset_time.paused == old(self).reset_time.paused,
            final(self).reset_time.duration == old(self).reset_time.duration,
            !old(self).game_time.paused && old(self).game_time.elapsed + dt <= u64::MAX
                ==> final(self).game_time.elapsed == old(self).game_time.elapsed + dt,
            old(self).game_time.paused ==> final(self).game_time.elapsed == old(
                self,
            ).game_time.elapsed,
            !old(self).reset_time.paused ==> final(self).reset_time.elapsed == if old(
                self,
            ).reset_time.elapsed + dt <= old(self).reset_time.duration {
                old(self).reset_time.elapsed + dt
            } else {
                old(self).reset_time.duration as int
            },
            old(self).reset_time.paused ==> final(self).reset_time.elapsed == old(
                self,
            ).reset_time.elapsed,
    {
        self.game_time.tick(dt);
        self.reset_time.tick(dt);
    }
}

impl Default for GameTimers {
    /// The session-start clocks of `GameTimers::new`.
    fn default() -> (r: Self)
        ensures
            r.game_time.elapsed == 0,
            r.game_time.paused,
            r.reset_time.duration == RESET_DELAY_UNITS,
            r.reset_time.elapsed == 0,
            r.reset_time.paused,
    {
        GameTimers::new()
    }
}

/// The direction an actor faces, as a fixed-point unit vector.
#[derive(Clone, Copy, Debug, PartialEq, Eq, Structural)]
pub struct Facing {
    pub dir: Vec2,
}

impl Default for Facing {
    /// Actors start out facing along the positive x axis.
    fn default() -> (r: Self)
        ensures
            r.dir == (Vec2 { x: DIR_SCALE, y: 0 }),
    {
        Facing { dir: Vec2 { x: DIR_SCALE, y: 0 } }
    }
}

/// The renderer's sprite-mirroring contract: a sprite is flipped while
/// its actor faces leftward; a purely vertical facing keeps the current
/// flip state.
pub fn update_sprite_facing(facing: &Facing, flip_x: bool) -> (r: bool)
    ensures
        facing.dir.x != 0 ==> r == (facing.dir.x < 0),
        facing.dir.x == 0 ==> r == flip_x,
{
    if facing.dir.x != 0 {
        facing.dir.x < 0
    } else {
        flip_x
    }
}

/// A lifetime budget for a transient entity, in time units; the entity
/// despawns when the budget runs out.
#[derive(Clone, Copy, Debug, PartialEq, Eq, Structural)]
pub struct Lifetime {
    pub lifetime: u32,
    pub remaining: u32,
}

impl Lifetime {
    /// A fresh budget of the given length.
    pub fn new(units: u32) -> (r: Self)
        ensures
            r.lifetime == units,
            r.remaining == units,
    {
        Lifetime { lifetime: units, remaining: units }
    }

    /// Burns `dt` of the budget, clamped at zero; reports whether the
    /// budget is now exhausted (so the entity despawns this tick).
    pub fn tick(&mut self, dt: u32) -> (expired: bool)
        ensures
            final(self).lifetime == old(self).lifetime,
            final(self).remaining == if dt <= old(self).remaining {
                old(self).remaining - dt
            } else {
                0int
            },
            expired == (final(self).remaining == 0),
    {
        if dt <= self.remaining {
            self.remaining = self.remaining - dt;
        } else {
            self.remaining = 0;
        }
        self.remaining == 0
    }
}

} // verus!
