use vstd::prelude::*;

use crate::faction::{faction_slot, FactionKind};

verus! {

/// The record of who has attacked whom: for each of the six factions, in the
/// order of `faction_slot`, the factions it has attacked, oldest first.
pub struct Aggressions(pub Vec<Vec<FactionKind>>);

impl Aggressions {
    /// There is one list per faction.
    pub open spec fn wf(&self) -> bool {
        self.0@.len() == 6
    }

    /// The factions that `f` has attacked, oldest first.
    pub open spec fn against(&self, f: FactionKind) -> Seq<FactionKind> {
        self.0@[faction_slot(f)]@
    }

    /// The factions that `faction` has attacked, oldest first; none if it
    /// has attacked no one.
    pub fn get(&self, faction: FactionKind) -> (attacked: &[FactionKind])
        requires
            self.wf(),
        ensures
            attacked@ == self.against(faction),
    {
        self.0[faction.slot()].as_slice()
    }

    /// Notes that `from` has attacked `to`.
    pub fn record(&mut self, from: FactionKind, to: FactionKind)
        requires
            old(self).wf(),
        ensures
            final(self).wf(),
            final(self).against(from) == old(self).against(from).push(to),
            forall|f: FactionKind| f != from ==> final(self).against(f) == old(self).against(f),
    {
        let i = from.slot();
        self.0[i].push(to);
        proof {
            assert forall|f: FactionKind| f != from implies self.against(f) == old(
                self,
            ).against(f) by {
                assert(faction_slot(f) != faction_slot(from));
            }
        }
    }
}

impl Default for Aggressions {
    /// No one has attacked anyone yet.
    fn default() -> (a: Self)
        ensures
            a.wf(),
            forall|f: FactionKind| a.against(f) == Seq::<FactionKind>::empty(),
    {
        Aggressions(vec![Vec::new(), Vec::new(), Vec::new(), Vec::new(), Vec::new(), Vec::new()])
    }
}

} // verus!
