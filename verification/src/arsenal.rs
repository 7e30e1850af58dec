use vstd::prelude::*;

use crate::faction::Mama;

verus! {

/// A number of nuclear warheads: a polity's stockpile, or the size of a strike.
#[derive(Clone, Copy, Debug, PartialEq, Eq, Structural, PartialOrd, Ord)]
pub struct Warheads(pub u32);

/// The part of a stockpile of `x` warheads that may go into one strike.
pub open spec fn budget_of(x: u32) -> u32 {
    x / 5
}

impl Warheads {
    /// The part of this stockpile that may go into one strike: a fifth of it,
    /// rounded down.
    pub fn budget(&self) -> (b: Self)
        ensures
            b.0 == self.0 / 5,
            b.0 == budget_of(self.0),
    {
        Warheads(self.0 / 5)
    }

    /// Whether this many warheads stay strictly under the budget of the
    /// stockpile `total`.
    pub fn fits_in_budget(&self, total: Warheads) -> (fits: bool)
        ensures
            fits == (self.0 < total.0 / 5),
            fits == (self.0 < budget_of(total.0)),
    {
        self.0 < total.0 / 5
    }

    /// Takes `amount` warheads out of the stockpile.
    pub fn decrement(&mut self, amount: Warheads)
        requires
            amount.0 <= old(self).0,
        ensures
            final(self).0 == old(self).0 - amount.0,
    {
        self.0 = self.0 - amount.0;
    }
}

/// Suffered damage, in megadeaths: what the warheads that landed on a
/// polity's cities have cost it.
#[derive(Clone, Copy, Debug, PartialEq, Eq, Structural)]
pub struct Sufddir(pub u32);

impl Sufddir {
    /// Five for each warhead that landed.
    pub fn increment(&mut self, count: Warheads)
        requires
            old(self).0 + 5 * count.0 <= u32::MAX,
        ensures
            final(self).0 == old(self).0 + 5 * count.0,
    {
        self.0 = self.0 + 5 * count.0;
    }
}

/// Inflicted damage, in megadeaths: what a polity's warheads have cost others.
#[derive(Clone, Copy, Debug, PartialEq, Eq, Structural)]
pub struct Inddir(pub u32);

impl Inddir {
    /// Five for each warhead that landed.
    pub fn increment(&mut self, count: Warheads)
        requires
            old(self).0 + 5 * count.0 <= u32::MAX,
        ensures
            final(self).0 == old(self).0 + 5 * count.0,
    {
        self.0 = self.0 + 5 * count.0;
    }
}

/// The number of strikes that have hit a city.
#[derive(Clone, Copy, Debug, PartialEq, Eq, Structural)]
pub struct Damage(pub u8);

/// The damage at which a city is gone.
pub open spec fn damage_is_fatal(d: u8) -> bool {
    d > 4
}

impl Damage {
    /// Counts one more hit.
    pub fn increment(&mut self)
        requires
            old(self).0 < u8::MAX,
        ensures
            final(self).0 == old(self).0 + 1,
    {
        self.0 = self.0 + 1;
    }

    /// Whether the city has taken more than four hits.
    pub fn is_fatal(&self) -> (fatal: bool)
        ensures
            fatal == damage_is_fatal(self.0),
    {
        self.0 > 4
    }
}

/// Whether a city has been wiped out.
#[derive(Clone, Copy, Debug, PartialEq, Eq, Structural)]
pub struct Destroyed(pub bool);

impl Destroyed {
    /// Marks the city as wiped out; there is no way back.
    pub fn toggle(&mut self)
        ensures
            final(self).0,
    {
        self.0 = true;
    }
}

/// Something that can be fired at.
#[derive(Clone, Copy, Debug, PartialEq, Eq, Structural)]
pub enum Target {
    Mama(Mama),
    Sstrac,
    Plant,
    Sub,
}

/// The target of an ordered strike, with the number of warheads to fire.
#[derive(Clone, Copy, Debug, PartialEq, Eq, Structural)]
pub enum AttackTarget {
    Mama { target: Mama, warheads: u32 },
    Satcom { warheads: u32 },
    Powerplant { warheads: u32 },
    Submarine { warheads: u32 },
}

/// The number of warheads that a strike order fires, whatever its target.
pub open spec fn strike_size(t: AttackTarget) -> u32 {
    match t {
        AttackTarget::Mama { warheads, .. } => warheads,
        AttackTarget::Satcom { warheads } => warheads,
        AttackTarget::Powerplant { warheads } => warheads,
        AttackTarget::Submarine { warheads } => warheads,
    }
}

impl AttackTarget {
    /// The number of warheads the order fires.
    pub fn warheads(&self) -> (w: Warheads)
        ensures
            w.0 == strike_size(*self),
    {
        Warheads(
            match self {
                AttackTarget::Mama { warheads, .. } => *warheads,
                AttackTarget::Satcom { warheads } => *warheads,
                AttackTarget::Powerplant { warheads } => *warheads,
                AttackTarget::Submarine { warheads } => *warheads,
            },
        )
    }
}

} // verus!
