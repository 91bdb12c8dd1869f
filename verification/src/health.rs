//! Health ledgers for the player and for enemies.
//!
//! A ledger holds current and maximum vitality. The only mutation is a
//! clamped subtraction that reports how much was actually lost, so
//! `current <= max` and `current >= 0` hold across every call.
use vstd::prelude::*;

verus! {

/// Vitality of the player actor. Invariant: `current <= max`.
#[derive(Clone, Copy, Debug, PartialEq, Eq, Structural)]
pub struct PlayerHealth {
    pub current: u8,
    pub max: u8,
}

impl PlayerHealth {
    /// The ledger invariant: current vitality never exceeds the maximum.
    pub open spec fn wf(self) -> bool {
        self.current <= self.max
    }

    /// A fresh ledger at full vitality.
    pub fn new(max: u8) -> (r: Self)
        ensures
            r.current == max,
            r.max == max,
            r.wf(),
    {
        PlayerHealth { current: max, max }
    }

    /// The same ledger with `current` overridden, clamped to `max`.
    pub fn with_current(self, current: u8) -> (r: Self)
        ensures
            r.max == self.max,
            r.current == if current <= self.max { current } else { self.max },
            r.wf(),
    {
        let clamped = if current <= self.max { current } else { self.max };
        PlayerHealth { current: clamped, max: self.max }
    }

    /// How much vitality is missing from the maximum (saturating at zero).
    pub fn missing(&self) -> (r: u8)
        ensures
            r == if self.current <= self.max { self.max - self.current } else { 0 },
    {
        if self.current <= self.max {
            self.max - self.current
        } else {
            0
        }
    }

    /// Subtracts up to `amount` vitality, never below zero, and returns how
    /// much was actually lost: `min(amount, current before the call)`.
    pub fn lose_health(&mut self, amount: u8) -> (lost: u8)
        ensures
            lost == if amount <= old(self).current { amount } else { old(self).current },
            final(self).current == old(self).current - lost,
            final(self).max == old(self).max,
            old(self).wf() ==> final(self).wf(),
    {
        let lost = if amount <= self.current { amount } else { self.current };
        self.current = self.current - lost;
        lost
    }
}

/// Vitality of an enemy actor. Invariant: `current <= max`.
#[derive(Clone, Copy, Debug, PartialEq, Eq, Structural)]
pub struct EnemyHealth {
    pub current: u8,
    pub max: u8,
}

impl EnemyHealth {
    /// The ledger invariant: current vitality never exceeds the maximum.
    pub open spec fn wf(self) -> bool {
        self.current <= self.max
    }

    /// A fresh ledger at full vitality.
    pub fn new(max: u8) -> (r: Self)
        ensures
            r.current == max,
            r.max == max,
            r.wf(),
    {
        EnemyHealth { current: max, max }
    }

    /// The same ledger with `current` overridden, clamped to `max`.
    pub fn with_current(self, current: u8) -> (r: Self)
        ensures
            r.max == self.max,
            r.current == if current <= self.max { current } else { self.max },
            r.wf(),
    {
        let clamped = if current <= self.max { current } else { self.max };
        EnemyHealth { current: clamped, max: self.max }
    }

    /// How much vitality is missing from the maximum (saturating at zero).
    pub fn missing(&self) -> (r: u8)
        ensures
            r == if self.current <= self.max { self.max - self.current } else { 0 },
    {
        if self.current <= self.max {
            self.max - self.current
        } else {
            0
        }
    }

    /// Subtracts up to `amount` vitality, never below zero, and returns how
    /// much was actually lost: `min(amount, current before the call)`.
    pub fn lose_health(&mut self, amount: u8) -> (lost: u8)
        ensures
            lost == if amount <= old(self).current { amount } else { old(self).current },
            final(self).current == old(self).current - lost,
            final(self).max == old(self).max,
            old(self).wf() ==> final(self).wf(),
    {
        let lost = if amount <= self.current { amount } else { self.current };
        self.current = self.current - lost;
        lost
    }
}

} // verus!
