use vstd::prelude::*;
use vstd::string::*;

verus! {

/// The six blocs of the world map.
#[derive(Clone, Copy, Debug, PartialEq, Eq, Structural, Hash)]
pub enum FactionKind {
    Amnat,
    Sovwar,
    Redchi,
    Irlibsyr,
    Southaf,
    Indpak,
}

/// The printed name of a faction: its acronym in capitals.
pub open spec fn faction_label(f: FactionKind) -> Seq<char> {
    match f {
        FactionKind::Amnat => "AMNAT"@,
        FactionKind::Sovwar => "SOVWAR"@,
        FactionKind::Redchi => "REDCHI"@,
        FactionKind::Irlibsyr => "IRLIBSYR"@,
        FactionKind::Southaf => "SOUTHAF"@,
        FactionKind::Indpak => "INDPAK"@,
    }
}

/// The position of a faction in the fixed order of the six blocs.
pub open spec fn faction_slot(f: FactionKind) -> int {
    match f {
        FactionKind::Amnat => 0,
        FactionKind::Sovwar => 1,
        FactionKind::Redchi => 2,
        FactionKind::Irlibsyr => 3,
        FactionKind::Southaf => 4,
        FactionKind::Indpak => 5,
    }
}

impl FactionKind {
    /// The faction's position in the fixed order of the six blocs.
    pub fn slot(&self) -> (i: usize)
        ensures
            i == faction_slot(*self),
            i < 6,
    {
        match self {
            FactionKind::Amnat => 0,
            FactionKind::Sovwar => 1,
            FactionKind::Redchi => 2,
            FactionKind::Irlibsyr => 3,
            FactionKind::Southaf => 4,
            FactionKind::Indpak => 5,
        }
    }

    /// The faction's printed name.
    pub fn to_string(&self) -> (s: String)
        ensures
            s@ == faction_label(*self),
    {
        match self {
            FactionKind::Amnat => String::from_str("AMNAT"),
            FactionKind::Sovwar => String::from_str("SOVWAR"),
            FactionKind::Redchi => String::from_str("REDCHI"),
            FactionKind::Irlibsyr => String::from_str("IRLIBSYR"),
            FactionKind::Southaf => String::from_str("SOUTHAF"),
            FactionKind::Indpak => String::from_str("INDPAK"),
        }
    }
}

/// The twelve major metropolitan areas, the cities that can be struck.
#[derive(Clone, Copy, Debug, PartialEq, Eq, Structural)]
pub enum Mama {
    NewYork,
    LosAngeles,
    Moscow,
    StPetersburg,
    Beijing,
    Shanghai,
    Tehran,
    Damascus,
    Johannesburg,
    Lagos,
    Delhi,
    Karachi,
}

/// The position of a city in the order the cities are declared in.
pub open spec fn mama_slot(m: Mama) -> int {
    match m {
        Mama::NewYork => 0,
        Mama::LosAngeles => 1,
        Mama::Moscow => 2,
        Mama::StPetersburg => 3,
        Mama::Beijing => 4,
        Mama::Shanghai => 5,
        Mama::Tehran => 6,
        Mama::Damascus => 7,
        Mama::Johannesburg => 8,
        Mama::Lagos => 9,
        Mama::Delhi => 10,
        Mama::Karachi => 11,
    }
}

/// The name a city is printed under: its variant name.
pub open spec fn mama_label(m: Mama) -> Seq<char> {
    match m {
        Mama::NewYork => "NewYork"@,
        Mama::LosAngeles => "LosAngeles"@,
        Mama::Moscow => "Moscow"@,
        Mama::StPetersburg => "StPetersburg"@,
        Mama::Beijing => "Beijing"@,
        Mama::Shanghai => "Shanghai"@,
        Mama::Tehran => "Tehran"@,
        Mama::Damascus => "Damascus"@,
        Mama::Johannesburg => "Johannesburg"@,
        Mama::Lagos => "Lagos"@,
        Mama::Delhi => "Delhi"@,
        Mama::Karachi => "Karachi"@,
    }
}

/// The cities on the map at the start of a match, each with the faction
/// that holds it: two per faction.
pub open spec fn initial_sites() -> Seq<(Mama, FactionKind)> {
    seq![
        (Mama::NewYork, FactionKind::Amnat),
        (Mama::LosAngeles, FactionKind::Amnat),
        (Mama::Moscow, FactionKind::Sovwar),
        (Mama::StPetersburg, FactionKind::Sovwar),
        (Mama::Beijing, FactionKind::Redchi),
        (Mama::Shanghai, FactionKind::Redchi),
        (Mama::Tehran, FactionKind::Irlibsyr),
        (Mama::Damascus, FactionKind::Irlibsyr),
        (Mama::Johannesburg, FactionKind::Southaf),
        (Mama::Lagos, FactionKind::Southaf),
        (Mama::Delhi, FactionKind::Indpak),
        (Mama::Karachi, FactionKind::Indpak),
    ]
}

impl Mama {
    /// The starting map: every city with the faction that holds it.
    pub fn initial() -> (sites: Vec<(Mama, FactionKind)>)
        ensures
            sites@ == initial_sites(),
    {
        vec![
            (Mama::NewYork, FactionKind::Amnat),
            (Mama::LosAngeles, FactionKind::Amnat),
            (Mama::Moscow, FactionKind::Sovwar),
            (Mama::StPetersburg, FactionKind::Sovwar),
            (Mama::Beijing, FactionKind::Redchi),
            (Mama::Shanghai, FactionKind::Redchi),
            (Mama::Tehran, FactionKind::Irlibsyr),
            (Mama::Damascus, FactionKind::Irlibsyr),
            (Mama::Johannesburg, FactionKind::Southaf),
            (Mama::Lagos, FactionKind::Southaf),
            (Mama::Delhi, FactionKind::Indpak),
            (Mama::Karachi, FactionKind::Indpak),
        ]
    }

    /// The city's printed name.
    pub fn to_string(&self) -> (s: String)
        ensures
            s@ == mama_label(*self),
    {
        match self {
            Mama::NewYork => String::from_str("NewYork"),
            Mama::LosAngeles => String::from_str("LosAngeles"),
            Mama::Moscow => String::from_str("Moscow"),
            Mama::StPetersburg => String::from_str("StPetersburg"),
            Mama::Beijing => String::from_str("Beijing"),
            Mama::Shanghai => String::from_str("Shanghai"),
            Mama::Tehran => String::from_str("Tehran"),
            Mama::Damascus => String::from_str("Damascus"),
            Mama::Johannesburg => String::from_str("Johannesburg"),
            Mama::Lagos => String::from_str("Lagos"),
            Mama::Delhi => String::from_str("Delhi"),
            Mama::Karachi => String::from_str("Karachi"),
        }
    }
}

} // verus!
