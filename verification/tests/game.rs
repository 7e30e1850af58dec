use deterrence::aggression::Aggressions;
use deterrence::arsenal::{AttackTarget, Damage, Destroyed, Inddir, Sufddir, Warheads};
use deterrence::commands::{attack_verdict, AttackVerdict};
use deterrence::faction::{FactionKind, Mama};
use deterrence::world::{ActionOutcome, ActionRequested, Controller, World};

fn strike(target: Mama, warheads: u32) -> ActionRequested {
    ActionRequested::Attack(AttackTarget::Mama { target, warheads })
}

#[test]
fn faction_names_are_capital_acronyms() {
    assert_eq!(FactionKind::Amnat.to_string(), "AMNAT");
    assert_eq!(FactionKind::Sovwar.to_string(), "SOVWAR");
    assert_eq!(FactionKind::Redchi.to_string(), "REDCHI");
    assert_eq!(FactionKind::Irlibsyr.to_string(), "IRLIBSYR");
    assert_eq!(FactionKind::Southaf.to_string(), "SOUTHAF");
    assert_eq!(FactionKind::Indpak.to_string(), "INDPAK");
}

#[test]
fn faction_slots_are_distinct() {
    let all = [
        FactionKind::Amnat,
        FactionKind::Sovwar,
        FactionKind::Redchi,
        FactionKind::Irlibsyr,
        FactionKind::Southaf,
        FactionKind::Indpak,
    ];
    for (i, f) in all.iter().enumerate() {
        assert_eq!(f.slot(), i);
    }
}

#[test]
fn city_names_are_variant_names() {
    assert_eq!(Mama::NewYork.to_string(), "NewYork");
    assert_eq!(Mama::StPetersburg.to_string(), "StPetersburg");
    assert_eq!(Mama::Karachi.to_string(), "Karachi");
}

#[test]
fn initial_map_gives_two_cities_to_each_faction() {
    let sites = Mama::initial();
    assert_eq!(sites.len(), 12);
    assert_eq!(sites[0], (Mama::NewYork, FactionKind::Amnat));
    assert_eq!(sites[3], (Mama::StPetersburg, FactionKind::Sovwar));
    assert_eq!(sites[6], (Mama::Tehran, FactionKind::Irlibsyr));
    assert_eq!(sites[11], (Mama::Karachi, FactionKind::Indpak));
}

#[test]
fn budget_is_a_fifth_rounded_down() {
    assert_eq!(Warheads(400).budget(), Warheads(80));
    assert_eq!(Warheads(325).budget(), Warheads(65));
    assert_eq!(Warheads(9).budget(), Warheads(1));
    assert_eq!(Warheads(4).budget(), Warheads(0));
    assert_eq!(Warheads(u32::MAX).budget(), Warheads(858993459));
}

#[test]
fn fits_in_budget_is_strictly_under() {
    assert!(Warheads(79).fits_in_budget(Warheads(400)));
    assert!(!Warheads(80).fits_in_budget(Warheads(400)));
    assert!(!Warheads(0).fits_in_budget(Warheads(4)));
}

#[test]
fn decrement_takes_warheads_out() {
    let mut w = Warheads(400);
    w.decrement(Warheads(150));
    assert_eq!(w, Warheads(250));
    w.decrement(Warheads(250));
    assert_eq!(w, Warheads(0));
}

#[test]
fn damage_counters_count_five_per_warhead() {
    let mut s = Sufddir(0);
    s.increment(Warheads(7));
    assert_eq!(s.0, 35);
    let mut i = Inddir(10);
    i.increment(Warheads(3));
    assert_eq!(i.0, 25);
}

#[test]
fn fifth_hit_is_fatal() {
    let mut d = Damage(0);
    for _ in 0..4 {
        d.increment();
        assert!(!d.is_fatal());
    }
    d.increment();
    assert!(d.is_fatal());
    let mut gone = Destroyed(false);
    gone.toggle();
    assert!(gone.0);
    gone.toggle();
    assert!(gone.0);
}

#[test]
fn attack_target_reports_its_warheads() {
    assert_eq!(strike(Mama::Lagos, 12).warheads_of(), 12);
    assert_eq!(AttackTarget::Satcom { warheads: 3 }.warheads(), Warheads(3));
    assert_eq!(AttackTarget::Powerplant { warheads: 4 }.warheads(), Warheads(4));
    assert_eq!(AttackTarget::Submarine { warheads: 5 }.warheads(), Warheads(5));
}

trait WarheadsOf {
    fn warheads_of(&self) -> u32;
}

impl WarheadsOf for ActionRequested {
    fn warheads_of(&self) -> u32 {
        match self {
            ActionRequested::Attack(t) => t.warheads().0,
            _ => 0,
        }
    }
}

#[test]
fn verdict_refuses_more_than_the_stockpile() {
    let order = AttackTarget::Mama { target: Mama::Moscow, warheads: 401 };
    assert_eq!(attack_verdict(Warheads(400), &order), AttackVerdict::TooFew { have: Warheads(400) });
}

#[test]
fn verdict_accepts_up_to_the_whole_stockpile() {
    let order = AttackTarget::Mama { target: Mama::Moscow, warheads: 400 };
    assert_eq!(attack_verdict(Warheads(400), &order), AttackVerdict::Accepted);
    let small = AttackTarget::Satcom { warheads: 0 };
    assert_eq!(attack_verdict(Warheads(0), &small), AttackVerdict::Accepted);
}

#[test]
fn verdict_never_says_too_many() {
    for stock in [0u32, 1, 4, 5, 80, 400, u32::MAX] {
        for fired in [0u32, 1, 80, 81, 400, u32::MAX] {
            let order = AttackTarget::Satcom { warheads: fired };
            let v = attack_verdict(Warheads(stock), &order);
            assert!(!matches!(v, AttackVerdict::TooMany { .. }));
        }
    }
}

#[test]
fn setup_builds_the_opening_position() {
    let w = World::setup();
    assert_eq!(w.polities.len(), 3);
    assert_eq!(w.polities[0].faction, FactionKind::Amnat);
    assert_eq!(w.polities[0].controller, Controller::Human);
    assert_eq!(w.polities[0].warheads, Warheads(400));
    assert_eq!(w.polities[1].faction, FactionKind::Sovwar);
    assert_eq!(w.polities[1].controller, Controller::Cpu);
    assert_eq!(w.polities[1].warheads, Warheads(400));
    assert_eq!(w.polities[2].faction, FactionKind::Redchi);
    assert_eq!(w.polities[2].warheads, Warheads(325));
    for p in &w.polities {
        assert_eq!(p.sufddir, Sufddir(0));
        assert_eq!(p.inddir, Inddir(0));
    }
    assert_eq!(w.active.0, 0);
    assert_eq!(w.order.0.iter().copied().collect::<Vec<_>>(), vec![1, 2]);
    assert_eq!(w.sites.len(), 12);
    for (site, (mama, faction)) in w.sites.iter().zip(Mama::initial()) {
        assert_eq!(site.mama, mama);
        assert_eq!(site.faction, faction);
        assert_eq!(site.damage, Damage(0));
        assert_eq!(site.destroyed, Destroyed(false));
    }
    assert_eq!(w.faction_polities.get(FactionKind::Amnat), Some(0));
    assert_eq!(w.faction_polities.get(FactionKind::Sovwar), Some(1));
    assert_eq!(w.faction_polities.get(FactionKind::Redchi), Some(2));
    assert_eq!(w.faction_polities.get(FactionKind::Irlibsyr), None);
    assert_eq!(w.faction_polities.get(FactionKind::Southaf), None);
    assert_eq!(w.faction_polities.get(FactionKind::Indpak), None);
}

#[test]
fn turns_go_round_the_three_polities() {
    let mut w = World::setup();
    let mut seen = Vec::new();
    for _ in 0..7 {
        w.end_turn();
        seen.push(w.active.0);
    }
    assert_eq!(seen, vec![1, 2, 0, 1, 2, 0, 1]);
}

#[test]
fn end_turn_refills_an_empty_queue() {
    let mut w = World::setup();
    w.end_turn();
    w.end_turn();
    assert!(w.order.0.is_empty());
    w.end_turn();
    assert_eq!(w.active.0, 0);
    assert_eq!(w.order.0.iter().copied().collect::<Vec<_>>(), vec![1, 2]);
}

#[test]
fn waiting_changes_nothing_and_ends_the_turn() {
    let mut w = World::setup();
    let before = w.polities.clone();
    let outcome = w.resolve_action(ActionRequested::Wait, Warheads(0));
    assert_eq!(outcome, ActionOutcome::Waited);
    assert!(outcome.ends_turn());
    assert_eq!(w.polities, before);
}

#[test]
fn unimplemented_moves_change_nothing_and_end_the_turn() {
    let mut w = World::setup();
    let before = w.polities.clone();
    let moves = [
        ActionRequested::Alliance(FactionKind::Sovwar),
        ActionRequested::Sacpop(Warheads(10)),
        ActionRequested::Attack(AttackTarget::Satcom { warheads: 10 }),
        ActionRequested::Attack(AttackTarget::Powerplant { warheads: 10 }),
        ActionRequested::Attack(AttackTarget::Submarine { warheads: 10 }),
    ];
    for m in moves {
        let outcome = w.resolve_action(m, Warheads(3));
        assert_eq!(outcome, ActionOutcome::Unimplemented);
        assert!(outcome.ends_turn());
    }
    assert_eq!(w.polities, before);
    assert!(w.sites.iter().all(|s| s.damage == Damage(0)));
}

#[test]
fn a_strike_spends_and_lands() {
    let mut w = World::setup();
    let outcome = w.resolve_action(strike(Mama::Moscow, 60), Warheads(20));
    assert_eq!(outcome, ActionOutcome::Struck);
    assert!(outcome.ends_turn());
    assert_eq!(w.polities[0].warheads, Warheads(340));
    assert_eq!(w.polities[0].inddir, Inddir(100));
    assert_eq!(w.polities[0].sufddir, Sufddir(0));
    assert_eq!(w.polities[1].sufddir, Sufddir(100));
    assert_eq!(w.polities[1].inddir, Inddir(0));
    assert_eq!(w.polities[1].warheads, Warheads(400));
    assert_eq!(w.sites[2].damage, Damage(1));
    assert!(!w.sites[2].destroyed.0);
}

#[test]
fn a_strike_that_misses_still_spends() {
    let mut w = World::setup();
    let outcome = w.resolve_action(strike(Mama::Beijing, 3), Warheads(0));
    assert_eq!(outcome, ActionOutcome::NoHits);
    assert!(!outcome.ends_turn());
    assert_eq!(w.polities[0].warheads, Warheads(397));
    assert_eq!(w.polities[2].sufddir, Sufddir(0));
    assert_eq!(w.sites[4].damage, Damage(0));
}

#[test]
fn a_strike_on_ones_own_city_counts_both_ways() {
    let mut w = World::setup();
    let outcome = w.resolve_action(strike(Mama::NewYork, 10), Warheads(4));
    assert_eq!(outcome, ActionOutcome::Struck);
    assert_eq!(w.polities[0].warheads, Warheads(390));
    assert_eq!(w.polities[0].sufddir, Sufddir(20));
    assert_eq!(w.polities[0].inddir, Inddir(20));
}

#[test]
fn the_fifth_landed_strike_destroys_a_city() {
    let mut w = World::setup();
    for n in 1..=5u8 {
        assert!(w.can_strike(Mama::Shanghai));
        let outcome = w.resolve_action(strike(Mama::Shanghai, 2), Warheads(1));
        assert_eq!(outcome, ActionOutcome::Struck);
        assert_eq!(w.sites[5].damage, Damage(n));
        assert_eq!(w.sites[5].destroyed.0, n == 5);
    }
    assert!(!w.can_strike(Mama::Shanghai));
    let stock = w.polities[0].warheads;
    let outcome = w.resolve_action(strike(Mama::Shanghai, 2), Warheads(1));
    assert_eq!(outcome, ActionOutcome::TargetDestroyed);
    assert!(!outcome.ends_turn());
    assert_eq!(w.polities[0].warheads, stock);
    assert_eq!(w.sites[5].damage, Damage(5));
    assert_eq!(w.polities[2].sufddir, Sufddir(25));
}

#[test]
fn a_strike_on_a_missing_city_does_nothing() {
    let mut w = World::setup();
    w.sites.retain(|s| s.mama != Mama::Lagos);
    assert!(!w.can_strike(Mama::Lagos));
    let outcome = w.resolve_action(strike(Mama::Lagos, 5), Warheads(2));
    assert_eq!(outcome, ActionOutcome::MissingTarget);
    assert!(!outcome.ends_turn());
    assert_eq!(w.polities[0].warheads, Warheads(400));
}

#[test]
fn the_active_polity_is_the_one_that_fires() {
    let mut w = World::setup();
    w.end_turn();
    let outcome = w.resolve_action(strike(Mama::NewYork, 100), Warheads(30));
    assert_eq!(outcome, ActionOutcome::Struck);
    assert_eq!(w.polities[1].warheads, Warheads(300));
    assert_eq!(w.polities[1].inddir, Inddir(150));
    assert_eq!(w.polities[0].sufddir, Sufddir(150));
    assert_eq!(w.polities[0].warheads, Warheads(400));
}

#[test]
fn damage_suffered_equals_damage_inflicted() {
    let mut w = World::setup();
    let plan = [(Mama::Moscow, 50, 17), (Mama::NewYork, 40, 9), (Mama::Beijing, 30, 0), (Mama::Shanghai, 20, 8)];
    for (target, fired, landed) in plan {
        w.resolve_action(strike(target, fired), Warheads(landed));
        w.end_turn();
        let suffered: u32 = w.polities.iter().map(|p| p.sufddir.0).sum();
        let inflicted: u32 = w.polities.iter().map(|p| p.inddir.0).sum();
        assert_eq!(suffered, inflicted);
    }
    let suffered: u32 = w.polities.iter().map(|p| p.sufddir.0).sum();
    assert_eq!(suffered, 5 * (17 + 9 + 8));
}

#[test]
fn status_lines_list_polities_then_cities() {
    let mut w = World::setup();
    w.resolve_action(strike(Mama::Moscow, 60), Warheads(20));
    let lines = w.status_lines();
    assert_eq!(lines.len(), 3 * 5 + 12 * 4);
    assert_eq!(
        &lines[0..10],
        &["AMNAT", "Warheads: 340", "SUFDDIR: 0", "INDDIR: 100", "\n", "SOVWAR", "Warheads: 400", "SUFDDIR: 100", "INDDIR: 0", "\n"]
    );
    assert_eq!(&lines[10..15], &["REDCHI", "Warheads: 325", "SUFDDIR: 0", "INDDIR: 0", "\n"]);
    assert_eq!(&lines[15..19], &["NewYork", "Damage: 0", "Destroyed: false", "\n"]);
    assert_eq!(&lines[23..27], &["Moscow", "Damage: 1", "Destroyed: false", "\n"]);
    assert_eq!(&lines[59..63], &["Karachi", "Damage: 0", "Destroyed: false", "\n"]);
}

#[test]
fn status_lines_show_destroyed_cities() {
    let mut w = World::setup();
    for _ in 0..5 {
        w.resolve_action(strike(Mama::StPetersburg, 1), Warheads(1));
    }
    let lines = w.status_lines();
    let at = 15 + 3 * 4;
    assert_eq!(&lines[at..at + 4], &["StPetersburg", "Damage: 5", "Destroyed: true", "\n"]);
}

#[test]
fn active_heading_names_the_mover() {
    let mut w = World::setup();
    assert_eq!(w.active_display_text(), "Active: AMNAT");
    w.end_turn();
    assert_eq!(w.active_display_text(), "Active: SOVWAR");
    w.end_turn();
    assert_eq!(w.active_display_text(), "Active: REDCHI");
}

#[test]
fn aggressions_start_empty_and_keep_order() {
    let mut a = Aggressions::default();
    assert!(a.get(FactionKind::Amnat).is_empty());
    a.record(FactionKind::Amnat, FactionKind::Sovwar);
    a.record(FactionKind::Amnat, FactionKind::Redchi);
    a.record(FactionKind::Redchi, FactionKind::Amnat);
    assert_eq!(a.get(FactionKind::Amnat), &[FactionKind::Sovwar, FactionKind::Redchi]);
    assert_eq!(a.get(FactionKind::Redchi), &[FactionKind::Amnat]);
    assert!(a.get(FactionKind::Sovwar).is_empty());
    assert!(a.get(FactionKind::Indpak).is_empty());
}

#[test]
fn can_resolve_spots_moves_that_cannot_be_carried_out() {
    let mut w = World::setup();
    assert!(w.can_resolve(&strike(Mama::Moscow, 400), Warheads(200)));
    assert!(!w.can_resolve(&strike(Mama::Moscow, 401), Warheads(0)));
    assert!(!w.can_resolve(&strike(Mama::Moscow, 10), Warheads(11)));
    assert!(!w.can_resolve(&strike(Mama::Tehran, 10), Warheads(1)));
    assert!(w.can_resolve(&strike(Mama::Tehran, 10), Warheads(0)));
    assert!(w.can_resolve(&ActionRequested::Wait, Warheads(99)));
    for _ in 0..5 {
        w.resolve_action(strike(Mama::Moscow, 1), Warheads(1));
    }
    assert!(w.can_resolve(&strike(Mama::Moscow, 1000), Warheads(1000)));
}

#[test]
fn moves_never_restock_or_heal() {
    let mut w = World::setup();
    let moves = [
        (strike(Mama::Moscow, 30), 12),
        (ActionRequested::Wait, 0),
        (strike(Mama::NewYork, 25), 0),
        (ActionRequested::Sacpop(Warheads(5)), 0),
        (strike(Mama::Beijing, 40), 19),
        (strike(Mama::Tehran, 7), 0),
    ];
    for (m, landed) in moves {
        let before_p = w.polities.clone();
        let before_s = w.sites.clone();
        w.resolve_action(m, Warheads(landed));
        for (p, q) in before_p.iter().zip(&w.polities) {
            assert!(q.warheads.0 <= p.warheads.0);
            assert!(q.sufddir.0 >= p.sufddir.0);
            assert!(q.inddir.0 >= p.inddir.0);
        }
        for (s, t) in before_s.iter().zip(&w.sites) {
            assert!(t.damage.0 >= s.damage.0);
            assert!(!s.destroyed.0 || t.destroyed.0);
        }
        w.end_turn();
    }
}
