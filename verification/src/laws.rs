use vstd::prelude::*;

use crate::arsenal::{budget_of, damage_is_fatal, strike_size, AttackTarget, Warheads};
use crate::faction::{faction_label, faction_slot, initial_sites, mama_label, mama_slot, FactionKind, Mama};
use crate::ledger::{lemma_total_update, total};
use crate::report::{decimal, digit_char, polities_report, polity_lines, site_lines, sites_report};
use crate::commands::{verdict, AttackVerdict};
use crate::world::{hit, rest_of_round, lemma_spend_ledger, lemma_strike_ledger, next_turn, site_of, site_sound, slot_sound, spend, stocks, suffered, inflicted, initial_faction_table, initial_polities, ActionOutcome, ActionRequested, Controller, PolityState, Site, World};

verus! {

/// A strike order is never refused for exceeding the budget: a stockpile is
/// never smaller than a fifth of itself.
pub proof fn law_never_too_many(active_warheads: Warheads, target: AttackTarget)
    ensures
        !(verdict(active_warheads, target) is TooMany),
{
}

/// A standing city survives four landed strikes and falls to the fifth.
pub proof fn law_fifth_hit_destroys(s: Site)
    requires
        site_sound(s),
        !s.destroyed.0,
    ensures
        site_sound(hit(s)),
        hit(s).destroyed.0 <==> s.damage.0 == 4,
        hit(s).damage.0 == s.damage.0 + 1,
{
}

/// Whatever a move does, no stockpile grows, no damage counter shrinks, no
/// city heals or rises again, and no polity or city appears or vanishes.
pub proof fn law_moves_only_escalate(w: World, action: ActionRequested, hits: u32)
    requires
        w.wf(),
        w.resolvable(action, hits),
    ensures
        ({
            let (ps, ss, _) = w.resolution(action, hits);
            &&& ps.len() == w.polities@.len()
            &&& ss.len() == w.sites@.len()
            &&& forall|i: int|
                0 <= i < ps.len() ==> {
                    &&& #[trigger] ps[i].warheads.0 <= w.polities@[i].warheads.0
                    &&& ps[i].sufddir.0 >= w.polities@[i].sufddir.0
                    &&& ps[i].inddir.0 >= w.polities@[i].inddir.0
                    &&& ps[i].faction == w.polities@[i].faction
                    &&& ps[i].controller == w.polities@[i].controller
                }
            &&& forall|k: int|
                0 <= k < ss.len() ==> {
                    &&& #[trigger] ss[k].damage.0 >= w.sites@[k].damage.0
                    &&& (w.sites@[k].destroyed.0 ==> ss[k].destroyed.0)
                    &&& ss[k].mama == w.sites@[k].mama
                    &&& ss[k].faction == w.sites@[k].faction
                }
        }),
{
    match action {
        ActionRequested::Attack(AttackTarget::Mama { target, warheads }) => {
            match site_of(w.sites@, target) {
                Some(i) => {
                    let s = w.sites@[i];
                    assert(site_sound(s));
                    if !s.destroyed.0 {
                        assert(!damage_is_fatal(s.damage.0));
                        let a = w.active.0 as int;
                        lemma_spend_ledger(w.polities@, a, warheads);
                        if hits > 0 {
                            let v = w.faction_polities.polity_of(s.faction).unwrap() as int;
                            assert(crate::world::slot_sound(
                                w.faction_polities.0@[crate::faction::faction_slot(s.faction)],
                                w.polities@.len(),
                            ));
                            lemma_strike_ledger(w.polities@, a, v, warheads, hits);
                        }
                    }
                },
                None => {},
            }
        },
        _ => {},
    }
}

/// The position after `k` turns have passed, from `active` with `order`
/// still to move among `n` polities.
pub open spec fn after_turns(active: usize, order: Seq<usize>, n: nat, k: nat) -> (
    usize,
    Seq<usize>,
)
    decreases k,
{
    if k == 0 {
        (active, order)
    } else {
        let (a, o) = next_turn(order, n);
        after_turns(a, o, n, (k - 1) as nat)
    }
}

proof fn lemma_one_turn(a: int, n: int)
    requires
        0 <= a < n,
    ensures
        next_turn(rest_of_round(a, n), n as nat) == (((a + 1) % n) as usize, rest_of_round(
            (a + 1) % n,
            n,
        )),
{
    if a + 1 == n {
        assert((a + 1) % n == 0) by (nonlinear_arith)
            requires
                a + 1 == n,
                n > 0,
        ;
        assert(rest_of_round(a, n).len() == 0);
        assert(crate::world::polity_ids(n as nat).drop_first() =~= rest_of_round(0, n));
    } else {
        assert((a + 1) % n == a + 1) by (nonlinear_arith)
            requires
                0 <= a + 1 < n,
        ;
        assert(rest_of_round(a, n).drop_first() =~= rest_of_round(a + 1, n));
    }
}

proof fn lemma_turns(a: int, n: int, k: nat)
    requires
        0 <= a < n,
    ensures
        after_turns(a as usize, rest_of_round(a, n), n as nat, k) == (((a + k) % n) as usize,
        rest_of_round((a + k) % n, n)),
    decreases k,
{
    if k == 0 {
        vstd::arithmetic::div_mod::lemma_small_mod(a as nat, n as nat);
    } else {
        lemma_one_turn(a, n);
        let b = (a + 1) % n;
        vstd::arithmetic::div_mod::lemma_mod_bound(a + 1, n);
        lemma_turns(b, n, (k - 1) as nat);
        assert((b + (k - 1)) % n == (a + k) % n) by {
            vstd::arithmetic::div_mod::lemma_add_mod_noop(a + 1, k - 1, n);
            vstd::arithmetic::div_mod::lemma_add_mod_noop_right(b, k - 1, n);
            vstd::arithmetic::div_mod::lemma_mod_twice(k - 1, n);
        }
    }
}

/// Turns go round: from a round in which polity `a` of `n` is moving, the
/// next `k` turns go to `a + 1, a + 2, ...` counted modulo `n`, and after
/// `n` turns the match is back at the same point of the round.
pub proof fn law_turns_go_round(a: usize, n: usize, k: nat)
    requires
        a < n,
    ensures
        after_turns(a, rest_of_round(a as int, n as int), n as nat, k).0 == (a + k) % (n as int),
        after_turns(a, rest_of_round(a as int, n as int), n as nat, n as nat) == (
            a,
            rest_of_round(a as int, n as int),
        ),
{
    let ai = a as int;
    let ni = n as int;
    lemma_turns(ai, ni, k);
    lemma_turns(ai, ni, n as nat);
    vstd::arithmetic::div_mod::lemma_mod_bound(ai + k, ni);
    assert((ai + ni) % ni == ai) by {
        vstd::arithmetic::div_mod::lemma_mod_add_multiples_vanish(ai, ni);
        vstd::arithmetic::div_mod::lemma_small_mod(a as nat, n as nat);
    }
}

/// Distinct cities are printed under distinct names, and each name is the
/// city's own: it starts with the city's initial and has its length.
pub proof fn law_city_names_distinct(a: Mama, b: Mama)
    ensures
        a != b ==> mama_label(a) != mama_label(b),
        mama_label(Mama::NewYork) =~= seq!['N', 'e', 'w', 'Y', 'o', 'r', 'k'],
        mama_label(Mama::Shanghai) =~= seq!['S', 'h', 'a', 'n', 'g', 'h', 'a', 'i'],
        mama_label(Mama::Beijing) =~= seq!['B', 'e', 'i', 'j', 'i', 'n', 'g'],
{
    reveal_strlit("NewYork");
    reveal_strlit("LosAngeles");
    reveal_strlit("Moscow");
    reveal_strlit("StPetersburg");
    reveal_strlit("Beijing");
    reveal_strlit("Shanghai");
    reveal_strlit("Tehran");
    reveal_strlit("Damascus");
    reveal_strlit("Johannesburg");
    reveal_strlit("Lagos");
    reveal_strlit("Delhi");
    reveal_strlit("Karachi");
    if a != b && mama_label(a) == mama_label(b) {
        assert(mama_label(a).len() == mama_label(b).len());
        assert(mama_label(a)[0] == mama_label(b)[0]);
        assert(mama_label(a)[1] == mama_label(b)[1]);
    }
}

/// Distinct factions are printed under distinct names, and AMNAT is printed
/// as its acronym.
pub proof fn law_faction_names_distinct(a: FactionKind, b: FactionKind)
    ensures
        a != b ==> faction_label(a) != faction_label(b),
        faction_label(FactionKind::Amnat) =~= seq!['A', 'M', 'N', 'A', 'T'],
{
    reveal_strlit("AMNAT");
    reveal_strlit("SOVWAR");
    reveal_strlit("REDCHI");
    reveal_strlit("IRLIBSYR");
    reveal_strlit("SOUTHAF");
    reveal_strlit("INDPAK");
    if a != b && faction_label(a) == faction_label(b) {
        assert(faction_label(a).len() == faction_label(b).len());
        assert(faction_label(a)[0] == faction_label(b)[0]);
    }
}

/// Each faction has its own slot in the table, and each slot is used.
pub proof fn law_faction_slots(a: FactionKind, b: FactionKind)
    ensures
        0 <= faction_slot(a) < 6,
        a != b ==> faction_slot(a) != faction_slot(b),
{
}

/// The opening map lists the twelve cities in the order they are declared,
/// two by two, and gives each pair to one faction, the factions in the order
/// of the table: New York and Los Angeles to AMNAT, Moscow and St Petersburg
/// to SOVWAR, and so on down to Delhi and Karachi for INDPAK.
pub proof fn law_opening_map(i: int)
    requires
        0 <= i < 12,
    ensures
        initial_sites().len() == 12,
        mama_slot(initial_sites()[i].0) == i,
        faction_slot(initial_sites()[i].1) == i / 2,
{
    let m = initial_sites();
    assert(mama_slot(m[0].0) == 0 && faction_slot(m[0].1) == 0);
    assert(mama_slot(m[1].0) == 1 && faction_slot(m[1].1) == 0);
    assert(mama_slot(m[2].0) == 2 && faction_slot(m[2].1) == 1);
    assert(mama_slot(m[3].0) == 3 && faction_slot(m[3].1) == 1);
    assert(mama_slot(m[4].0) == 4 && faction_slot(m[4].1) == 2);
    assert(mama_slot(m[5].0) == 5 && faction_slot(m[5].1) == 2);
    assert(mama_slot(m[6].0) == 6 && faction_slot(m[6].1) == 3);
    assert(mama_slot(m[7].0) == 7 && faction_slot(m[7].1) == 3);
    assert(mama_slot(m[8].0) == 8 && faction_slot(m[8].1) == 4);
    assert(mama_slot(m[9].0) == 9 && faction_slot(m[9].1) == 4);
    assert(mama_slot(m[10].0) == 10 && faction_slot(m[10].1) == 5);
    assert(mama_slot(m[11].0) == 11 && faction_slot(m[11].1) == 5);
}

/// Distinct cities have distinct places in the declared order.
pub proof fn law_city_slots(a: Mama, b: Mama)
    ensures
        0 <= mama_slot(a) < 12,
        a != b ==> mama_slot(a) != mama_slot(b),
{
}

/// The number of warheads an order fires is the number written in the
/// order, whatever its target.
pub proof fn law_strike_size(m: Mama, w: u32)
    ensures
        strike_size(AttackTarget::Mama { target: m, warheads: w }) == w,
        strike_size(AttackTarget::Satcom { warheads: w }) == w,
        strike_size(AttackTarget::Powerplant { warheads: w }) == w,
        strike_size(AttackTarget::Submarine { warheads: w }) == w,
{
}

/// An order is refused for too few warheads exactly when it fires more than
/// the stockpile holds, and is accepted otherwise; the kind of target plays
/// no part.
pub proof fn law_verdict_by_size(stock: Warheads, t: AttackTarget, u: AttackTarget)
    ensures
        (verdict(stock, t) == AttackVerdict::TooFew { have: stock }) <==> strike_size(t) > stock.0,
        (verdict(stock, t) == AttackVerdict::Accepted) <==> strike_size(t) <= stock.0,
        strike_size(t) == strike_size(u) ==> verdict(stock, t) == verdict(stock, u),
{
}

/// What a strike order does to the totals. On a city that is missing or
/// already destroyed nothing is fired and nothing changes, whatever the
/// number of hits. On a standing city exactly the ordered warheads leave the
/// active stockpile; if any land, the city alone takes one hit and five
/// megadeaths per landed warhead are suffered, and as many inflicted.
pub proof fn law_strike_accounting(w: World, target: Mama, warheads: u32, hits: u32)
    requires
        w.wf(),
        w.resolvable(ActionRequested::Attack(AttackTarget::Mama { target, warheads }), hits),
    ensures
        ({
            let (ps, ss, out) = w.resolution(
                ActionRequested::Attack(AttackTarget::Mama { target, warheads }),
                hits,
            );
            let a = w.active.0 as int;
            match site_of(w.sites@, target) {
                None => ps == w.polities@ && ss == w.sites@ && out == ActionOutcome::MissingTarget
                    && !out.spec_ends_turn(),
                Some(i) => if w.sites@[i].destroyed.0 {
                    &&& ps == w.polities@
                    &&& ss == w.sites@
                    &&& out == ActionOutcome::TargetDestroyed
                    &&& !out.spec_ends_turn()
                } else {
                    &&& ps[a].warheads.0 == w.polities@[a].warheads.0 - warheads
                    &&& total(stocks(ps)) == total(stocks(w.polities@)) - warheads
                    &&& forall|p: int|
                        0 <= p < ps.len() && p != a ==> #[trigger] ps[p].warheads
                            == w.polities@[p].warheads
                    &&& ss.len() == w.sites@.len()
                    &&& forall|k: int| 0 <= k < ss.len() && k != i ==> #[trigger] ss[k] == w.sites@[k]
                    &&& ps.len() == w.polities@.len()
                    &&& if hits == 0 {
                        &&& out == ActionOutcome::NoHits
                        &&& ss == w.sites@
                        &&& total(suffered(ps)) == total(suffered(w.polities@))
                        &&& forall|p: int|
                            0 <= p < ps.len() ==> #[trigger] ps[p].sufddir == w.polities@[p].sufddir
                                && ps[p].inddir == w.polities@[p].inddir
                    } else {
                        let v = w.faction_polities.polity_of(w.sites@[i].faction).unwrap() as int;
                        &&& out == ActionOutcome::Struck
                        &&& ss[i].damage.0 == w.sites@[i].damage.0 + 1
                        &&& ss[i].destroyed.0 == (ss[i].damage.0 > 4)
                        &&& ss[i].mama == target
                        &&& ps[v].faction == w.polities@[v].faction
                        &&& ps[v].sufddir.0 == w.polities@[v].sufddir.0 + 5 * hits
                        &&& ps[a].inddir.0 == w.polities@[a].inddir.0 + 5 * hits
                        &&& forall|p: int|
                            0 <= p < ps.len() && p != v ==> #[trigger] ps[p].sufddir
                                == w.polities@[p].sufddir
                        &&& forall|p: int|
                            0 <= p < ps.len() && p != a ==> #[trigger] ps[p].inddir
                                == w.polities@[p].inddir
                        &&& total(suffered(ps)) == total(suffered(w.polities@)) + 5 * hits
                        &&& total(inflicted(ps)) == total(suffered(ps))
                    }
                    &&& out.spec_ends_turn() <==> hits > 0
                },
            }
        }),
{
    match site_of(w.sites@, target) {
        Some(i) => {
            let s = w.sites@[i];
            assert(site_sound(s));
            if !s.destroyed.0 {
                let a = w.active.0 as int;
                lemma_spend_ledger(w.polities@, a, warheads);
                assert(stocks(spend(w.polities@, a, warheads)) =~= stocks(w.polities@).update(
                    a,
                    w.polities@[a].warheads.0 - warheads,
                ));
                lemma_total_update(stocks(w.polities@), a, w.polities@[a].warheads.0 - warheads);
                if hits > 0 {
                    let v = w.faction_polities.polity_of(s.faction).unwrap() as int;
                    assert(slot_sound(
                        w.faction_polities.0@[faction_slot(s.faction)],
                        w.polities@.len(),
                    ));
                    lemma_strike_ledger(w.polities@, a, v, warheads, hits);
                }
            }
        },
        None => {},
    }
}

/// The value of a string of decimal digits.
pub open spec fn digits_value(s: Seq<char>) -> int
    decreases s.len(),
{
    if s.len() == 0 {
        0
    } else {
        10 * digits_value(s.drop_last()) + (s.last() as int - 48)
    }
}

/// Numbers are written in decimal: only digits, no leading zero, and the
/// digits read back as the number.
pub proof fn law_decimal_reads_back(n: nat)
    ensures
        decimal(n).len() > 0,
        forall|k: int| 0 <= k < decimal(n).len() ==> '0' <= #[trigger] decimal(n)[k] <= '9',
        decimal(n)[0] == '0' ==> n == 0,
        digits_value(decimal(n)) == n,
    decreases n,
{
    if n >= 10 {
        law_decimal_reads_back(n / 10);
        let d = decimal(n);
        assert(d.drop_last() =~= decimal(n / 10));
        assert(n == 10 * (n / 10) + n % 10);
        assert(d[0] == decimal(n / 10)[0]);
        assert(n / 10 > 0);
        assert(d[0] != '0');
        assert(d.last() == digit_char(n % 10));
        assert((d.last() as int) == n % 10 + 48);
        assert(digits_value(d) == 10 * digits_value(decimal(n / 10)) + (d.last() as int - 48));
        assert forall|k: int| 0 <= k < d.len() implies '0' <= #[trigger] d[k] <= '9' by {
            if k < d.len() - 1 {
                assert(d[k] == decimal(n / 10)[k]);
            }
        }
    } else {
        let d = decimal(n);
        assert(d.drop_last() =~= Seq::<char>::empty());
        assert(d[0] == digit_char(n));
        assert((d[0] as int) == n + 48);
        if d[0] == '0' {
            assert(('0' as int) == 48);
        }
        assert(digits_value(d.drop_last()) == 0);
        assert(d.last() == d[0]);
    }
}

/// The listing has five lines per polity and then four per city, in order.
proof fn lemma_polities_report(ps: Seq<PolityState>, p: int, j: int)
    requires
        0 <= p < ps.len(),
        0 <= j < 5,
    ensures
        polities_report(ps).len() == 5 * ps.len(),
        polities_report(ps)[5 * p + j] == polity_lines(ps[p])[j],
    decreases ps.len(),
{
    lemma_polities_report_len(ps.drop_last());
    if p < ps.len() - 1 {
        lemma_polities_report(ps.drop_last(), p, j);
    }
}

proof fn lemma_polities_report_len(ps: Seq<PolityState>)
    ensures
        polities_report(ps).len() == 5 * ps.len(),
    decreases ps.len(),
{
    if ps.len() > 0 {
        lemma_polities_report_len(ps.drop_last());
    }
}

proof fn lemma_sites_report(ss: Seq<Site>, k: int, j: int)
    requires
        0 <= k < ss.len(),
        0 <= j < 4,
    ensures
        sites_report(ss).len() == 4 * ss.len(),
        sites_report(ss)[4 * k + j] == site_lines(ss[k])[j],
    decreases ss.len(),
{
    lemma_sites_report_len(ss.drop_last());
    if k < ss.len() - 1 {
        lemma_sites_report(ss.drop_last(), k, j);
    }
}

proof fn lemma_sites_report_len(ss: Seq<Site>)
    ensures
        sites_report(ss).len() == 4 * ss.len(),
    decreases ss.len(),
{
    if ss.len() > 0 {
        lemma_sites_report_len(ss.drop_last());
    }
}

/// In the status listing, polity `p` takes lines `5p` to `5p + 4`: its
/// faction's name, its stockpile, the damage it suffered, the damage it
/// inflicted, and a blank.
pub proof fn law_listing_polity(ps: Seq<PolityState>, ss: Seq<Site>, p: int)
    requires
        0 <= p < ps.len(),
    ensures
        ({
            let l = polities_report(ps) + sites_report(ss);
            &&& l.len() == 5 * ps.len() + 4 * ss.len()
            &&& l[5 * p] == faction_label(ps[p].faction)
            &&& l[5 * p + 1] =~= "Warheads: "@ + decimal(ps[p].warheads.0 as nat)
            &&& l[5 * p + 2] =~= "SUFDDIR: "@ + decimal(ps[p].sufddir.0 as nat)
            &&& l[5 * p + 3] =~= "INDDIR: "@ + decimal(ps[p].inddir.0 as nat)
            &&& l[5 * p + 4] == "\n"@
        }),
{
    lemma_sites_report_len(ss);
    lemma_polities_report(ps, p, 0);
    lemma_polities_report(ps, p, 1);
    lemma_polities_report(ps, p, 2);
    lemma_polities_report(ps, p, 3);
    lemma_polities_report(ps, p, 4);
}

/// In the status listing, after the polities, city `k` takes four lines: its
/// name, its damage, `Destroyed: true` or `Destroyed: false` as it is or is
/// not destroyed, and a blank. For a city in a consistent state, the third
/// line says `true` exactly when the city has taken more than four hits.
pub proof fn law_listing_city(ps: Seq<PolityState>, ss: Seq<Site>, k: int)
    requires
        0 <= k < ss.len(),
    ensures
        ({
            let l = polities_report(ps) + sites_report(ss);
            let at = 5 * ps.len() + 4 * k;
            &&& l.len() == 5 * ps.len() + 4 * ss.len()
            &&& l[at] == mama_label(ss[k].mama)
            &&& l[at + 1] =~= "Damage: "@ + decimal(ss[k].damage.0 as nat)
            &&& l[at + 2] =~= (if ss[k].destroyed.0 {
                "Destroyed: true"@
            } else {
                "Destroyed: false"@
            })
            &&& l[at + 3] == "\n"@
            &&& site_sound(ss[k]) ==> (l[at + 2] =~= "Destroyed: true"@ <==> ss[k].damage.0 > 4)
        }),
{
    lemma_polities_report_len(ps);
    lemma_sites_report(ss, k, 0);
    lemma_sites_report(ss, k, 1);
    lemma_sites_report(ss, k, 2);
    lemma_sites_report(ss, k, 3);
    reveal_strlit("Destroyed: ");
    reveal_strlit("Destroyed: true");
    reveal_strlit("Destroyed: false");
    reveal_strlit("true");
    reveal_strlit("false");
    assert("Destroyed: true"@.len() != "Destroyed: false"@.len());
}

/// Every move other than a strike on a city changes neither polities nor
/// cities, and still ends the turn; passing is the only one that says it
/// waited.
pub proof fn law_other_moves_pass(w: World, action: ActionRequested, hits: u32)
    requires
        !(action matches ActionRequested::Attack(AttackTarget::Mama { .. })),
    ensures
        ({
            let (ps, ss, out) = w.resolution(action, hits);
            &&& ps == w.polities@
            &&& ss == w.sites@
            &&& out.spec_ends_turn()
            &&& (out == ActionOutcome::Waited <==> action == ActionRequested::Wait)
        }),
{
}

/// A strike's budget is the stockpile divided by five, rounded down.
pub proof fn law_budget(x: u32)
    ensures
        5 * budget_of(x) <= x < 5 * budget_of(x) + 5,
{
}

/// At the start of a match the faction table and the polities agree: a
/// faction's entry names the polity standing for it, polity `p` stands for
/// the faction in slot `p`, and only the first polity is under human control.
pub proof fn law_opening_position(f: FactionKind, p: int)
    requires
        0 <= p < 3,
    ensures
        initial_polities().len() == 3,
        initial_faction_table().len() == 6,
        faction_slot(initial_polities()[p].faction) == p,
        initial_faction_table()[faction_slot(initial_polities()[p].faction)] == Some(p as usize),
        (initial_faction_table()[faction_slot(f)] is Some) <==> faction_slot(f) < 3,
        (initial_polities()[p].controller == Controller::Human) <==> p == 0,
        initial_polities()[p].sufddir.0 == 0 && initial_polities()[p].inddir.0 == 0,
{
}

} // verus!
