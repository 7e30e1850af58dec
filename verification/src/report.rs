use vstd::prelude::*;
use vstd::string::*;

use crate::faction::{faction_label, mama_label};
use crate::world::{PolityState, Site, World};

verus! {

/// The decimal digit `d` as a character.
pub open spec fn digit_char(d: nat) -> char {
    (d + 48) as char
}

/// `n` written in decimal, without leading zeros.
pub open spec fn decimal(n: nat) -> Seq<char>
    decreases n,
{
    if n < 10 {
        seq![digit_char(n)]
    } else {
        decimal(n / 10).push(digit_char(n % 10))
    }
}

/// `b` written out: `true` or `false`.
pub open spec fn bool_label(b: bool) -> Seq<char> {
    if b {
        "true"@
    } else {
        "false"@
    }
}

/// Writes `n` in decimal, through std's `Display` for `u32`.
///
/// Trusted: `u32::to_string` gives the decimal digits of the number, with no
/// sign, padding or leading zeros.
#[verifier::external_body]
fn decimal_string(n: u32) -> (s: String)
    ensures
        s@ == decimal(n as nat),
{
    n.to_string()
}

/// The lines that describe a polity in the status listing: its faction,
/// its stockpile, the damage it has suffered and inflicted, then a blank.
pub open spec fn polity_lines(p: PolityState) -> Seq<Seq<char>> {
    seq![
        faction_label(p.faction),
        "Warheads: "@ + decimal(p.warheads.0 as nat),
        "SUFDDIR: "@ + decimal(p.sufddir.0 as nat),
        "INDDIR: "@ + decimal(p.inddir.0 as nat),
        "\n"@,
    ]
}

/// The lines that describe a city in the status listing: its name, its
/// damage, whether it is destroyed, then a blank.
pub open spec fn site_lines(s: Site) -> Seq<Seq<char>> {
    seq![
        mama_label(s.mama),
        "Damage: "@ + decimal(s.damage.0 as nat),
        "Destroyed: "@ + bool_label(s.destroyed.0),
        "\n"@,
    ]
}

/// The listing of all polities, in order.
pub open spec fn polities_report(ps: Seq<PolityState>) -> Seq<Seq<char>>
    decreases ps.len(),
{
    if ps.len() == 0 {
        seq![]
    } else {
        polities_report(ps.drop_last()) + polity_lines(ps.last())
    }
}

/// The listing of all cities, in order.
pub open spec fn sites_report(ss: Seq<Site>) -> Seq<Seq<char>>
    decreases ss.len(),
{
    if ss.len() == 0 {
        seq![]
    } else {
        sites_report(ss.drop_last()) + site_lines(ss.last())
    }
}

/// The text of each string in a list.
pub open spec fn texts(lines: Seq<String>) -> Seq<Seq<char>> {
    lines.map_values(|l: String| l@)
}

/// The heading that names the polity whose turn it is.
pub open spec fn active_heading(w: World) -> Seq<char> {
    "Active: "@ + faction_label(w.polities@[w.active.0 as int].faction)
}

fn push_polity_lines(lines: &mut Vec<String>, p: &PolityState)
    ensures
        texts(final(lines)@) == texts(old(lines)@) + polity_lines(*p),
{
    let ghost before = texts(lines@);
    lines.push(p.faction.to_string());
    lines.push(String::from_str("Warheads: ").concat(decimal_string(p.warheads.0).as_str()));
    lines.push(String::from_str("SUFDDIR: ").concat(decimal_string(p.sufddir.0).as_str()));
    lines.push(String::from_str("INDDIR: ").concat(decimal_string(p.inddir.0).as_str()));
    lines.push(String::from_str("\n"));
    assert(texts(lines@) =~= before + polity_lines(*p));
}

fn push_site_lines(lines: &mut Vec<String>, s: &Site)
    ensures
        texts(final(lines)@) == texts(old(lines)@) + site_lines(*s),
{
    let ghost before = texts(lines@);
    lines.push(s.mama.to_string());
    lines.push(String::from_str("Damage: ").concat(decimal_string(s.damage.0 as u32).as_str()));
    let destroyed = if s.destroyed.0 {
        String::from_str("true")
    } else {
        String::from_str("false")
    };
    lines.push(String::from_str("Destroyed: ").concat(destroyed.as_str()));
    lines.push(String::from_str("\n"));
    assert(texts(lines@) =~= before + site_lines(*s));
}

impl World {
    /// The status listing, one line per entry: every polity, then every city.
    pub fn status_lines(&self) -> (lines: Vec<String>)
        ensures
            texts(lines@) == polities_report(self.polities@) + sites_report(self.sites@),
    {
        let mut lines: Vec<String> = Vec::new();
        let mut i: usize = 0;
        while i < self.polities.len()
            invariant
                i <= self.polities@.len(),
                texts(lines@) == polities_report(self.polities@.take(i as int)),
            decreases self.polities@.len() - i,
        {
            push_polity_lines(&mut lines, &self.polities[i]);
            assert(self.polities@.take(i + 1).drop_last() =~= self.polities@.take(i as int));
            i = i + 1;
        }
        assert(self.polities@.take(i as int) =~= self.polities@);
        let ghost head = texts(lines@);
        let mut j: usize = 0;
        while j < self.sites.len()
            invariant
                j <= self.sites@.len(),
                head == polities_report(self.polities@),
                texts(lines@) == head + sites_report(self.sites@.take(j as int)),
            decreases self.sites@.len() - j,
        {
            push_site_lines(&mut lines, &self.sites[j]);
            assert(self.sites@.take(j + 1).drop_last() =~= self.sites@.take(j as int));
            j = j + 1;
        }
        assert(self.sites@.take(j as int) =~= self.sites@);
        lines
    }

    /// The heading naming the faction whose turn it is.
    pub fn active_display_text(&self) -> (text: String)
        requires
            self.wf(),
        ensures
            text@ == active_heading(*self),
    {
        let faction = self.polities[self.active.0].faction;
        String::from_str("Active: ").concat(faction.to_string().as_str())
    }
}

} // verus!
