use std::collections::VecDeque;

use vstd::prelude::*;

use crate::arsenal::{damage_is_fatal, AttackTarget, Damage, Destroyed, Inddir, Sufddir, Warheads};
use crate::faction::{faction_slot, initial_sites, FactionKind, Mama};
use crate::ledger::{lemma_total_bounds, lemma_total_nonneg, lemma_total_update, total};

verus! {

/// Who gives a polity its orders.
#[derive(Clone, Copy, Debug, PartialEq, Eq, Structural)]
pub enum Controller {
    Human,
    Cpu,
}

/// A polity: a state with an arsenal, the faction it stands for, and the
/// damage it has suffered and inflicted so far.
#[derive(Clone, Copy, Debug, PartialEq, Eq, Structural)]
pub struct PolityState {
    pub faction: FactionKind,
    pub controller: Controller,
    pub warheads: Warheads,
    pub sufddir: Sufddir,
    pub inddir: Inddir,
}

/// A city on the map, the faction that holds it, and what it has taken.
#[derive(Clone, Copy, Debug, PartialEq, Eq, Structural)]
pub struct Site {
    pub mama: Mama,
    pub faction: FactionKind,
    pub damage: Damage,
    pub destroyed: Destroyed,
}

/// The polity whose turn it is, by its position among the polities.
#[derive(Clone, Copy, Debug, PartialEq, Eq, Structural)]
pub struct ActivePolity(pub usize);

/// The polities still to move in the current round, first to move first.
pub struct TurnOrder(pub VecDeque<usize>);

/// For each of the six factions, in the order of `faction_slot`, the polity
/// that stands for it, if any.
pub struct FactionPolities(pub Vec<Option<usize>>);

impl FactionPolities {
    /// The polity standing for `f`, if there is one.
    pub open spec fn polity_of(&self, f: FactionKind) -> Option<usize> {
        self.0@[faction_slot(f)]
    }

    /// Looks up the polity standing for `f`.
    pub fn get(&self, f: FactionKind) -> (p: Option<usize>)
        requires
            self.0@.len() == 6,
        ensures
            p == self.polity_of(f),
    {
        self.0[f.slot()]
    }
}

/// The whole state of a match.
pub struct World {
    pub polities: Vec<PolityState>,
    pub sites: Vec<Site>,
    pub active: ActivePolity,
    pub order: TurnOrder,
    pub faction_polities: FactionPolities,
}

/// The stockpiles of the polities, in order.
pub open spec fn stocks(ps: Seq<PolityState>) -> Seq<int> {
    ps.map_values(|p: PolityState| p.warheads.0 as int)
}

/// The damage each polity has suffered, in order.
pub open spec fn suffered(ps: Seq<PolityState>) -> Seq<int> {
    ps.map_values(|p: PolityState| p.sufddir.0 as int)
}

/// The damage each polity has inflicted, in order.
pub open spec fn inflicted(ps: Seq<PolityState>) -> Seq<int> {
    ps.map_values(|p: PolityState| p.inddir.0 as int)
}

/// A city's damage counts at most the fatal hit, and it is destroyed
/// exactly when that hit has landed.
pub open spec fn site_sound(s: Site) -> bool {
    &&& s.damage.0 <= 5
    &&& s.destroyed.0 == damage_is_fatal(s.damage.0)
}

/// An entry of the faction table names an existing polity or none.
pub open spec fn slot_sound(entry: Option<usize>, n: nat) -> bool {
    match entry {
        Some(p) => p < n,
        None => true,
    }
}

/// The polities `0, 1, ..., n - 1`, in order.
pub open spec fn polity_ids(n: nat) -> Seq<usize> {
    Seq::new(n, |i: int| i as usize)
}

/// Who moves next and who is left to move after that, when the turn passes
/// among `n` polities with `order` still to move: the next in the order, or,
/// once everyone has moved, polity 0 with all the others queued behind it.
pub open spec fn next_turn(order: Seq<usize>, n: nat) -> (usize, Seq<usize>) {
    if order.len() == 0 {
        (polity_ids(n)[0], polity_ids(n).drop_first())
    } else {
        (order[0], order.drop_first())
    }
}

/// `i` is the position of the first city `m` on the map.
pub open spec fn is_first_site(sites: Seq<Site>, m: Mama, i: int) -> bool {
    &&& 0 <= i < sites.len()
    &&& sites[i].mama == m
    &&& forall|j: int| 0 <= j < i ==> (#[trigger] sites[j]).mama != m
}

/// The position of the first city `m` on the map, if it is there.
pub open spec fn site_of(sites: Seq<Site>, m: Mama) -> Option<int> {
    if exists|i: int| is_first_site(sites, m, i) {
        Some(choose|i: int| is_first_site(sites, m, i))
    } else {
        None
    }
}

/// A move that a polity can make on its turn.
#[derive(Clone, Copy, Debug, PartialEq, Eq, Structural)]
pub enum ActionRequested {
    Attack(AttackTarget),
    Wait,
    Alliance(FactionKind),
    Sacpop(Warheads),
}

/// What came of a move. The first three end the turn; the others stop the
/// move short and leave the turn where it is.
#[derive(Clone, Copy, Debug, PartialEq, Eq, Structural)]
pub enum ActionOutcome {
    /// Warheads landed on a city.
    Struck,
    /// The polity passed.
    Waited,
    /// The move has no effect in this version of the rules.
    Unimplemented,
    /// The city is not on the map.
    MissingTarget,
    /// The city is already wiped out; nothing was fired.
    TargetDestroyed,
    /// The warheads were fired and none got through.
    NoHits,
}

impl ActionOutcome {
    /// Whether the move ends the turn.
    pub open spec fn spec_ends_turn(self) -> bool {
        match self {
            ActionOutcome::Struck | ActionOutcome::Waited | ActionOutcome::Unimplemented => true,
            _ => false,
        }
    }

    /// Whether the move ends the turn.
    pub fn ends_turn(&self) -> (ends: bool)
        ensures
            ends == self.spec_ends_turn(),
    {
        match self {
            ActionOutcome::Struck | ActionOutcome::Waited | ActionOutcome::Unimplemented => true,
            _ => false,
        }
    }
}

/// Polity `a` fires `w` warheads from its stockpile.
pub open spec fn spend(ps: Seq<PolityState>, a: int, w: u32) -> Seq<PolityState> {
    ps.update(a, PolityState { warheads: Warheads((ps[a].warheads.0 - w) as u32), ..ps[a] })
}

/// Polity `v` suffers `h` warheads.
pub open spec fn suffer(ps: Seq<PolityState>, v: int, h: u32) -> Seq<PolityState> {
    ps.update(v, PolityState { sufddir: Sufddir((ps[v].sufddir.0 + 5 * h) as u32), ..ps[v] })
}

/// Polity `a` is credited with `h` warheads landed.
pub open spec fn inflict(ps: Seq<PolityState>, a: int, h: u32) -> Seq<PolityState> {
    ps.update(a, PolityState { inddir: Inddir((ps[a].inddir.0 + 5 * h) as u32), ..ps[a] })
}

/// A city after one more strike got through.
pub open spec fn hit(s: Site) -> Site {
    let d = (s.damage.0 + 1) as u8;
    Site {
        damage: Damage(d),
        destroyed: Destroyed(if damage_is_fatal(d) { true } else { s.destroyed.0 }),
        ..s
    }
}

/// The queue of a round in which polity `a` of `n` is moving: everyone after
/// it, in order.
pub open spec fn rest_of_round(a: int, n: int) -> Seq<usize> {
    Seq::new((n - a - 1) as nat, |i: int| (a + 1 + i) as usize)
}

/// A city as it stands at the start of a match: untouched.
pub open spec fn fresh_site(m: Mama, f: FactionKind) -> Site {
    Site { mama: m, faction: f, damage: Damage(0), destroyed: Destroyed(false) }
}

/// A polity as it stands at the start of a match.
pub open spec fn fresh_polity(f: FactionKind, c: Controller, w: u32) -> PolityState {
    PolityState {
        faction: f,
        controller: c,
        warheads: Warheads(w),
        sufddir: Sufddir(0),
        inddir: Inddir(0),
    }
}

/// The polities at the start of a match: the human player's AMNAT with 400
/// warheads, then SOVWAR with 400 and REDCHI with 325 under the computer.
pub open spec fn initial_polities() -> Seq<PolityState> {
    seq![
        fresh_polity(FactionKind::Amnat, Controller::Human, 400),
        fresh_polity(FactionKind::Sovwar, Controller::Cpu, 400),
        fresh_polity(FactionKind::Redchi, Controller::Cpu, 325),
    ]
}

/// The map at the start of a match.
pub open spec fn initial_map() -> Seq<Site> {
    initial_sites().map_values(|e: (Mama, FactionKind)| fresh_site(e.0, e.1))
}

/// The faction table at the start of a match: the first three factions
/// stand for polities 0, 1 and 2; the other three have none.
pub open spec fn initial_faction_table() -> Seq<Option<usize>> {
    seq![Some(0usize), Some(1usize), Some(2usize), None, None, None]
}

impl World {
    /// The state at the start of a match. AMNAT moves first; SOVWAR and
    /// REDCHI are queued after it.
    pub fn setup() -> (w: World)
        ensures
            w.wf(),
            w.round_robin(),
            w.polities@ == initial_polities(),
            w.sites@ == initial_map(),
            w.active.0 == 0,
            w.order.0@ == seq![1usize, 2usize],
            w.faction_polities.0@ == initial_faction_table(),
    {
        let mut polities: Vec<PolityState> = Vec::new();
        polities.push(
            PolityState {
                faction: FactionKind::Amnat,
                controller: Controller::Human,
                warheads: Warheads(400),
                sufddir: Sufddir(0),
                inddir: Inddir(0),
            },
        );
        let amnat: usize = 0;
        polities.push(
            PolityState {
                faction: FactionKind::Sovwar,
                controller: Controller::Cpu,
                warheads: Warheads(400),
                sufddir: Sufddir(0),
                inddir: Inddir(0),
            },
        );
        let sovwar: usize = 1;
        polities.push(
            PolityState {
                faction: FactionKind::Redchi,
                controller: Controller::Cpu,
                warheads: Warheads(325),
                sufddir: Sufddir(0),
                inddir: Inddir(0),
            },
        );
        let redchi: usize = 2;

        let mut order: VecDeque<usize> = VecDeque::new();
        order.push_back(sovwar);
        order.push_back(redchi);

        let mut table: Vec<Option<usize>> = vec![None, None, None, None, None, None];
        table[FactionKind::Amnat.slot()] = Some(amnat);
        table[FactionKind::Sovwar.slot()] = Some(sovwar);
        table[FactionKind::Redchi.slot()] = Some(redchi);

        let initial = Mama::initial();
        let mut sites: Vec<Site> = Vec::new();
        let mut k: usize = 0;
        while k < initial.len()
            invariant
                k <= initial@.len(),
                initial@ == initial_sites(),
                sites@ == initial_map().take(k as int),
            decreases initial@.len() - k,
        {
            let (mama, faction) = initial[k];
            sites.push(
                Site { mama, faction, damage: Damage(0), destroyed: Destroyed(false) },
            );
            k = k + 1;
            assert(sites@ =~= initial_map().take(k as int));
        }
        proof {
            assert(sites@ =~= initial_map());
            assert(polities@ =~= initial_polities());
            assert(table@ =~= initial_faction_table());
            assert(stocks(polities@) =~= seq![400int, 400int, 325int]);
            assert(suffered(polities@) =~= seq![0int, 0int, 0int]);
            assert(inflicted(polities@) =~= seq![0int, 0int, 0int]);
            reveal_with_fuel(total, 4);
            assert(order@ =~= rest_of_round(0, 3));
        }
        World {
            polities,
            sites,
            active: ActivePolity(amnat),
            order: TurnOrder(order),
            faction_polities: FactionPolities(table),
        }
    }

    /// The invariant of a match: every reference names an existing polity,
    /// every city is consistent, the damage suffered over all polities equals
    /// the damage inflicted, and the damage counters cannot overflow however
    /// the remaining warheads are spent.
    pub open spec fn wf(&self) -> bool {
        let n = self.polities@.len();
        &&& n > 0
        &&& self.active.0 < n
        &&& forall|k: int| 0 <= k < self.order.0@.len() ==> #[trigger] self.order.0@[k] < n
        &&& self.faction_polities.0@.len() == 6
        &&& forall|k: int| 0 <= k < 6 ==> slot_sound(#[trigger] self.faction_polities.0@[k], n)
        &&& forall|k: int| 0 <= k < self.sites@.len() ==> site_sound(#[trigger] self.sites@[k])
        &&& total(suffered(self.polities@)) == total(inflicted(self.polities@))
        &&& 5 * total(stocks(self.polities@)) + total(suffered(self.polities@)) <= u32::MAX
    }

    /// The queue holds exactly the polities after the active one, in order:
    /// the turn goes round the polities one by one.
    pub open spec fn round_robin(&self) -> bool {
        self.order.0@ == rest_of_round(self.active.0 as int, self.polities@.len() as int)
    }

    /// The polities, the cities and the outcome after the active polity makes
    /// the move `action`, where `hits` warheads of a strike get through.
    pub open spec fn resolution(&self, action: ActionRequested, hits: u32) -> (
        Seq<PolityState>,
        Seq<Site>,
        ActionOutcome,
    ) {
        let ps = self.polities@;
        let ss = self.sites@;
        let a = self.active.0 as int;
        match action {
            ActionRequested::Attack(AttackTarget::Mama { target, warheads }) => {
                match site_of(ss, target) {
                    None => (ps, ss, ActionOutcome::MissingTarget),
                    Some(i) => if ss[i].destroyed.0 {
                        (ps, ss, ActionOutcome::TargetDestroyed)
                    } else if hits == 0 {
                        (spend(ps, a, warheads), ss, ActionOutcome::NoHits)
                    } else {
                        let v = self.faction_polities.polity_of(ss[i].faction).unwrap() as int;
                        (
                            inflict(suffer(spend(ps, a, warheads), v, hits), a, hits),
                            ss.update(i, hit(ss[i])),
                            ActionOutcome::Struck,
                        )
                    },
                }
            },
            ActionRequested::Attack(_) => (ps, ss, ActionOutcome::Unimplemented),
            ActionRequested::Wait => (ps, ss, ActionOutcome::Waited),
            ActionRequested::Alliance(_) => (ps, ss, ActionOutcome::Unimplemented),
            ActionRequested::Sacpop(_) => (ps, ss, ActionOutcome::Unimplemented),
        }
    }

    /// The move can be carried out: a strike on a standing city fires no more
    /// than the active polity holds, lands no more than it fires, and, when
    /// something lands, the city's faction has a polity to suffer it.
    pub open spec fn resolvable(&self, action: ActionRequested, hits: u32) -> bool {
        match action {
            ActionRequested::Attack(AttackTarget::Mama { target, warheads }) => {
                match site_of(self.sites@, target) {
                    Some(i) => !self.sites@[i].destroyed.0 ==> {
                        &&& warheads <= self.polities@[self.active.0 as int].warheads.0
                        &&& hits <= warheads
                        &&& hits > 0 ==> self.faction_polities.polity_of(
                            self.sites@[i].faction,
                        ) is Some
                    },
                    None => true,
                }
            },
            _ => true,
        }
    }

    /// Finds the first city `m` on the map.
    pub fn find_site(&self, m: Mama) -> (found: Option<usize>)
        ensures
            match found {
                Some(i) => site_of(self.sites@, m) == Some(i as int),
                None => site_of(self.sites@, m) == None::<int>,
            },
    {
        let mut i: usize = 0;
        while i < self.sites.len()
            invariant
                i <= self.sites@.len(),
                forall|j: int| 0 <= j < i ==> (#[trigger] self.sites@[j]).mama != m,
            decreases self.sites@.len() - i,
        {
            if self.sites[i].mama == m {
                proof {
                    assert(is_first_site(self.sites@, m, i as int));
                    let k = choose|k: int| is_first_site(self.sites@, m, k);
                    if k < i {
                        assert(self.sites@[k].mama != m);
                    } else if k > i {
                        assert(self.sites@[i as int].mama != m);
                    }
                }
                return Some(i);
            }
            i = i + 1;
        }
        proof {
            if exists|k: int| is_first_site(self.sites@, m, k) {
                let k = choose|k: int| is_first_site(self.sites@, m, k);
                assert(self.sites@[k].mama != m);
            }
        }
        None
    }

    /// Whether a strike on `m` would be fired: the city is on the map and
    /// still standing.
    pub fn can_strike(&self, m: Mama) -> (can: bool)
        ensures
            can == match site_of(self.sites@, m) {
                Some(i) => !self.sites@[i].destroyed.0,
                None => false,
            },
    {
        match self.find_site(m) {
            Some(i) => !self.sites[i].destroyed.0,
            None => false,
        }
    }

    /// Whether `resolve_action` can carry out `action` with `hits` landed.
    pub fn can_resolve(&self, action: &ActionRequested, hits: Warheads) -> (ok: bool)
        requires
            self.wf(),
        ensures
            ok == self.resolvable(*action, hits.0),
    {
        match action {
            ActionRequested::Attack(AttackTarget::Mama { target, warheads }) => {
                match self.find_site(*target) {
                    Some(i) => {
                        let site = self.sites[i];
                        if site.destroyed.0 {
                            true
                        } else {
                            *warheads <= self.polities[self.active.0].warheads.0 && hits.0
                                <= *warheads && (hits.0 == 0 || self.faction_polities.get(
                                site.faction,
                            ).is_some())
                        }
                    },
                    None => true,
                }
            },
            _ => true,
        }
    }

    /// Carries out the active polity's move. For a strike on a city, `hits`
    /// is how many of the fired warheads get through.
    ///
    /// A strike on a city that is missing or destroyed does nothing. Otherwise
    /// the warheads leave the stockpile; if none get through, that is all.
    /// If some do, the city takes one more hit and is destroyed at the fifth,
    /// the polity of the city's faction suffers five megadeaths per warhead
    /// landed, and the active polity is credited with as many. Every other
    /// move changes nothing.
    pub fn resolve_action(&mut self, action: ActionRequested, hits: Warheads) -> (outcome:
        ActionOutcome)
        requires
            old(self).wf(),
            old(self).resolvable(action, hits.0),
        ensures
            final(self).wf(),
            (final(self).polities@, final(self).sites@, outcome) == old(self).resolution(
                action,
                hits.0,
            ),
            final(self).active == old(self).active,
            final(self).order.0@ == old(self).order.0@,
            final(self).faction_polities.0@ == old(self).faction_polities.0@,
    {
        match action {
            ActionRequested::Attack(attack_target) => match attack_target {
                AttackTarget::Mama { target, warheads } => {
                    let i = match self.find_site(target) {
                        Some(i) => i,
                        None => {
                            return ActionOutcome::MissingTarget;
                        },
                    };
                    if self.sites[i].destroyed.0 {
                        return ActionOutcome::TargetDestroyed;
                    }
                    let ghost ps0 = self.polities@;
                    let a = self.active.0;
                    self.polities[a].warheads.decrement(Warheads(warheads));
                    proof {
                        lemma_spend_ledger(ps0, a as int, warheads);
                    }
                    if hits.0 == 0 {
                        return ActionOutcome::NoHits;
                    }
                    self.sites[i].damage.increment();
                    if self.sites[i].damage.is_fatal() {
                        self.sites[i].destroyed.toggle();
                    }
                    let v = self.faction_polities.get(self.sites[i].faction).unwrap();
                    proof {
                        lemma_strike_ledger(ps0, a as int, v as int, warheads, hits.0);
                    }
                    self.polities[v].sufddir.increment(hits);
                    self.polities[a].inddir.increment(hits);
                    ActionOutcome::Struck
                },
                _ => ActionOutcome::Unimplemented,
            },
            ActionRequested::Wait => ActionOutcome::Waited,
            ActionRequested::Alliance(_) => ActionOutcome::Unimplemented,
            ActionRequested::Sacpop(_) => ActionOutcome::Unimplemented,
        }
    }

    /// Passes the turn: the next polity in the queue becomes active; when the
    /// queue is empty, every polity is queued again, in order, first.
    pub fn end_turn(&mut self)
        requires
            old(self).wf(),
        ensures
            final(self).wf(),
            (final(self).active.0, final(self).order.0@) == next_turn(
                old(self).order.0@,
                old(self).polities@.len(),
            ),
            final(self).polities@ == old(self).polities@,
            final(self).sites@ == old(self).sites@,
            final(self).faction_polities.0@ == old(self).faction_polities.0@,
            old(self).round_robin() ==> final(self).round_robin() && final(self).active.0 == (
            old(self).active.0 + 1) % (old(self).polities@.len() as int),
    {
        let n = self.polities.len();
        if self.order.0.len() == 0 {
            let mut i: usize = 0;
            while i < n
                invariant
                    i <= n,
                    n == self.polities@.len(),
                    self.order.0@ == polity_ids(i as nat),
                    self.polities@ == old(self).polities@,
                    self.sites@ == old(self).sites@,
                    self.faction_polities.0@ == old(self).faction_polities.0@,
                    self.active == old(self).active,
                decreases n - i,
            {
                self.order.0.push_back(i);
                i = i + 1;
                assert(self.order.0@ =~= polity_ids(i as nat));
            }
        }
        let next = self.order.0.pop_front().unwrap();
        self.active = ActivePolity(next);
        proof {
            let a = old(self).active.0 as int;
            if old(self).order.0@.len() == 0 {
                assert(self.order.0@ =~= polity_ids(n as nat).drop_first());
                if old(self).round_robin() {
                    let m = n as int;
                    assert(a + 1 == m);
                    assert((a + 1) % m == 0) by (nonlinear_arith)
                        requires
                            a + 1 == m,
                            m > 0,
                    ;
                    assert(self.order.0@ =~= rest_of_round(0, m));
                }
            } else {
                assert(self.order.0@ =~= old(self).order.0@.drop_first());
                if old(self).round_robin() {
                    let m = n as int;
                    assert(old(self).order.0@[0] == a + 1);
                    assert((a + 1) % m == a + 1) by (nonlinear_arith)
                        requires
                            0 <= a + 1 < m,
                    ;
                    assert(self.order.0@ =~= rest_of_round(a + 1, m));
                }
            }
        }
    }
}

/// Firing warheads keeps the ledger: the damage counters still cannot
/// overflow and suffered still equals inflicted.
pub(crate) proof fn lemma_spend_ledger(ps: Seq<PolityState>, a: int, w: u32)
    requires
        0 <= a < ps.len(),
        w <= ps[a].warheads.0,
        total(suffered(ps)) == total(inflicted(ps)),
        5 * total(stocks(ps)) + total(suffered(ps)) <= u32::MAX,
    ensures
        total(suffered(spend(ps, a, w))) == total(inflicted(spend(ps, a, w))),
        total(suffered(spend(ps, a, w))) == total(suffered(ps)),
        5 * total(stocks(spend(ps, a, w))) + 5 * w == 5 * total(stocks(ps)),
{
    let p1 = spend(ps, a, w);
    assert(stocks(p1) =~= stocks(ps).update(a, ps[a].warheads.0 - w));
    lemma_total_update(stocks(ps), a, ps[a].warheads.0 - w);
    assert(suffered(p1) =~= suffered(ps));
    assert(inflicted(p1) =~= inflicted(ps));
}

/// A strike that lands `h` of the `w` warheads fired keeps the ledger, and
/// neither damage counter overflows on the way.
pub(crate) proof fn lemma_strike_ledger(ps: Seq<PolityState>, a: int, v: int, w: u32, h: u32)
    requires
        0 <= a < ps.len(),
        0 <= v < ps.len(),
        w <= ps[a].warheads.0,
        h <= w,
        total(suffered(ps)) == total(inflicted(ps)),
        5 * total(stocks(ps)) + total(suffered(ps)) <= u32::MAX,
    ensures
        spend(ps, a, w)[v].sufddir.0 + 5 * h <= u32::MAX,
        suffer(spend(ps, a, w), v, h)[a].inddir.0 + 5 * h <= u32::MAX,
        total(suffered(inflict(suffer(spend(ps, a, w), v, h), a, h))) == total(
            inflicted(inflict(suffer(spend(ps, a, w), v, h), a, h)),
        ),
        5 * total(stocks(inflict(suffer(spend(ps, a, w), v, h), a, h))) + total(
            suffered(inflict(suffer(spend(ps, a, w), v, h), a, h)),
        ) <= u32::MAX,
        total(suffered(inflict(suffer(spend(ps, a, w), v, h), a, h))) == total(suffered(ps)) + 5
            * h,
        total(stocks(inflict(suffer(spend(ps, a, w), v, h), a, h))) == total(stocks(ps)) - w,
{
    let p1 = spend(ps, a, w);
    let p2 = suffer(p1, v, h);
    let p3 = inflict(p2, a, h);
    lemma_spend_ledger(ps, a, w);
    lemma_total_nonneg(stocks(p1));
    lemma_total_bounds(suffered(p1), v);
    lemma_total_bounds(inflicted(p1), a);
    assert(suffered(p2) =~= suffered(p1).update(v, p1[v].sufddir.0 + 5 * h));
    lemma_total_update(suffered(p1), v, p1[v].sufddir.0 + 5 * h);
    assert(inflicted(p2) =~= inflicted(p1));
    assert(stocks(p2) =~= stocks(p1));
    assert(inflicted(p3) =~= inflicted(p2).update(a, p2[a].inddir.0 + 5 * h));
    lemma_total_update(inflicted(p2), a, p2[a].inddir.0 + 5 * h);
    assert(suffered(p3) =~= suffered(p2));
    assert(stocks(p3) =~= stocks(p2));
}

} // verus!
