use vstd::prelude::*;

use crate::arsenal::{strike_size, AttackTarget, Warheads};

verus! {

/// The answer to a strike order.
#[derive(Clone, Copy, Debug, PartialEq, Eq, Structural)]
pub enum AttackVerdict {
    /// The order fires more warheads than the polity holds, which are `have`.
    TooFew { have: Warheads },
    /// The stockpile is under its own budget, which is `allowed`.
    TooMany { allowed: Warheads },
    /// The order goes ahead.
    Accepted,
}

/// The answer to an order to fire on `target` from a stockpile of
/// `active_warheads`: refused if it fires more than the stockpile holds,
/// refused if the stockpile is smaller than a fifth of itself, accepted
/// otherwise.
pub open spec fn verdict(active_warheads: Warheads, target: AttackTarget) -> AttackVerdict {
    let budget = active_warheads.0 / 5;
    if strike_size(target) > active_warheads.0 {
        AttackVerdict::TooFew { have: active_warheads }
    } else if active_warheads.0 < budget {
        AttackVerdict::TooMany { allowed: Warheads(budget as u32) }
    } else {
        AttackVerdict::Accepted
    }
}

/// Checks a strike order against the active polity's stockpile.
pub fn attack_verdict(active_warheads: Warheads, target: &AttackTarget) -> (v: AttackVerdict)
    ensures
        v == verdict(active_warheads, *target),
{
    let budget = active_warheads.budget();
    if target.warheads().0 > active_warheads.0 {
        AttackVerdict::TooFew { have: active_warheads }
    } else if active_warheads.0 < budget.0 {
        AttackVerdict::TooMany { allowed: budget }
    } else {
        AttackVerdict::Accepted
    }
}

} // verus!
