use vstd::prelude::*;

verus! {

/// A named location on the map where cargo is picked up or dropped off.
#[derive(Clone, Copy, PartialEq, Eq, Debug, Structural)]
pub enum Station {
    CitySouth,
    CityWest,
    CoalMineEast,
    CoalMineSouth,
    CoalPowerPlant,
    Farm,
    FoodFactory,
    ForestCentral,
    ForestSouth,
    GoodsFactory,
    Harbor,
    IronMineEast,
    IronMineWest,
    MachineFactory,
    MilitaryBase,
    OilRefinery,
    OilWellCentral,
    OilWellNorth,
    Sawmill,
    SteelMill,
}

/// The number of stations on the map.
pub const STATION_COUNT: usize = 20;

/// The stations in the order in which pickers list them.
pub open spec fn station_seq() -> Seq<Station> {
    seq![
        Station::CitySouth,
        Station::CityWest,
        Station::CoalMineEast,
        Station::CoalMineSouth,
        Station::CoalPowerPlant,
        Station::Farm,
        Station::FoodFactory,
        Station::ForestCentral,
        Station::ForestSouth,
        Station::GoodsFactory,
        Station::Harbor,
        Station::IronMineEast,
        Station::IronMineWest,
        Station::MachineFactory,
        Station::MilitaryBase,
        Station::OilRefinery,
        Station::OilWellCentral,
        Station::OilWellNorth,
        Station::Sawmill,
        Station::SteelMill,
    ]
}

/// The full display name of a station.
pub open spec fn station_name(s: Station) -> Seq<char> {
    match s {
        Station::CitySouth => "City South"@,
        Station::CityWest => "City West"@,
        Station::CoalMineEast => "Coal Mine East"@,
        Station::CoalMineSouth => "Coal Mine South"@,
        Station::CoalPowerPlant => "Coal Power Plant"@,
        Station::Farm => "Farm"@,
        Station::FoodFactory => "Food Factory & Town"@,
        Station::ForestCentral => "Forest Central"@,
        Station::ForestSouth => "Forest South"@,
        Station::GoodsFactory => "Goods Factory & Town"@,
        Station::Harbor => "Harbor & Town"@,
        Station::IronMineEast => "Iron Ore Mine East"@,
        Station::IronMineWest => "Iron Ore Mine West"@,
        Station::MachineFactory => "Machine Factory & Town"@,
        Station::MilitaryBase => "Military Base"@,
        Station::OilRefinery => "Oil Refinery"@,
        Station::OilWellCentral => "Oil Well Central"@,
        Station::OilWellNorth => "Oil Well North"@,
        Station::Sawmill => "Sawmill"@,
        Station::SteelMill => "Steel Mill"@,
    }
}

/// The short abbreviation of a station, used in tables and pickers.
pub open spec fn station_abbrev(s: Station) -> Seq<char> {
    match s {
        Station::CitySouth => "CS"@,
        Station::CityWest => "CW"@,
        Station::CoalMineEast => "CME"@,
        Station::CoalMineSouth => "CMS"@,
        Station::CoalPowerPlant => "CP"@,
        Station::Farm => "FM"@,
        Station::FoodFactory => "FF"@,
        Station::ForestCentral => "FRC"@,
        Station::ForestSouth => "FRS"@,
        Station::GoodsFactory => "GF"@,
        Station::Harbor => "HB"@,
        Station::IronMineEast => "IME"@,
        Station::IronMineWest => "IMW"@,
        Station::MachineFactory => "MF"@,
        Station::MilitaryBase => "MB"@,
        Station::OilRefinery => "OR"@,
        Station::OilWellCentral => "OWC"@,
        Station::OilWellNorth => "OWN"@,
        Station::Sawmill => "SW"@,
        Station::SteelMill => "SM"@,
    }
}

/// A character that may appear in an abbreviation.
pub open spec fn is_upper_ascii(c: char) -> bool {
    'A' <= c <= 'Z'
}

impl Station {
    /// The short abbreviation of this station.
    pub fn to_abbrev(self) -> (r: String)
        ensures
            r@ == station_abbrev(self),
    {
        match self {
            Self::CitySouth => "CS",
            Self::CityWest => "CW",
            Self::CoalMineEast => "CME",
            Self::CoalMineSouth => "CMS",
            Self::CoalPowerPlant => "CP",
            Self::Farm => "FM",
            Self::FoodFactory => "FF",
            Self::ForestCentral => "FRC",
            Self::ForestSouth => "FRS",
            Self::GoodsFactory => "GF",
            Self::Harbor => "HB",
            Self::IronMineEast => "IME",
            Self::IronMineWest => "IMW",
            Self::MachineFactory => "MF",
            Self::MilitaryBase => "MB",
            Self::OilRefinery => "OR",
            Self::OilWellCentral => "OWC",
            Self::OilWellNorth => "OWN",
            Self::Sawmill => "SW",
            Self::SteelMill => "SM",
        }.to_owned()
    }

    /// The full display name of this station.
    pub fn display_name(self) -> (r: String)
        ensures
            r@ == station_name(self),
    {
        match self {
            Self::CitySouth => "City South",
            Self::CityWest => "City West",
            Self::CoalMineEast => "Coal Mine East",
            Self::CoalMineSouth => "Coal Mine South",
            Self::CoalPowerPlant => "Coal Power Plant",
            Self::Farm => "Farm",
            Self::FoodFactory => "Food Factory & Town",
            Self::ForestCentral => "Forest Central",
            Self::ForestSouth => "Forest South",
            Self::GoodsFactory => "Goods Factory & Town",
            Self::Harbor => "Harbor & Town",
            Self::IronMineEast => "Iron Ore Mine East",
            Self::IronMineWest => "Iron Ore Mine West",
            Self::MachineFactory => "Machine Factory & Town",
            Self::MilitaryBase => "Military Base",
            Self::OilRefinery => "Oil Refinery",
            Self::OilWellCentral => "Oil Well Central",
            Self::OilWellNorth => "Oil Well North",
            Self::Sawmill => "Sawmill",
            Self::SteelMill => "Steel Mill",
        }.to_owned()
    }
}

/// Every station, in the order in which pickers list them.
pub fn all_stations() -> (r: Vec<Station>)
    ensures
        r@ == station_seq(),
        r@.len() == STATION_COUNT,
        r@.no_duplicates(),
        forall|s: Station| r@.contains(s),
{
    let r = vec![
        Station::CitySouth,
        Station::CityWest,
        Station::CoalMineEast,
        Station::CoalMineSouth,
        Station::CoalPowerPlant,
        Station::Farm,
        Station::FoodFactory,
        Station::ForestCentral,
        Station::ForestSouth,
        Station::GoodsFactory,
        Station::Harbor,
        Station::IronMineEast,
        Station::IronMineWest,
        Station::MachineFactory,
        Station::MilitaryBase,
        Station::OilRefinery,
        Station::OilWellCentral,
        Station::OilWellNorth,
        Station::Sawmill,
        Station::SteelMill,
    ];
    proof {
        lemma_station_seq_complete();
    }
    r
}

/// The station list holds every station exactly once.
pub proof fn lemma_station_seq_complete()
    ensures
        station_seq().len() == STATION_COUNT,
        station_seq().no_duplicates(),
        forall|s: Station| station_seq().contains(s),
{
    let q = station_seq();
    assert forall|s: Station| q.contains(s) by {
        match s {
            Station::CitySouth => assert(q[0] == s),
            Station::CityWest => assert(q[1] == s),
            Station::CoalMineEast => assert(q[2] == s),
            Station::CoalMineSouth => assert(q[3] == s),
            Station::CoalPowerPlant => assert(q[4] == s),
            Station::Farm => assert(q[5] == s),
            Station::FoodFactory => assert(q[6] == s),
            Station::ForestCentral => assert(q[7] == s),
            Station::ForestSouth => assert(q[8] == s),
            Station::GoodsFactory => assert(q[9] == s),
            Station::Harbor => assert(q[10] == s),
            Station::IronMineEast => assert(q[11] == s),
            Station::IronMineWest => assert(q[12] == s),
            Station::MachineFactory => assert(q[13] == s),
            Station::MilitaryBase => assert(q[14] == s),
            Station::OilRefinery => assert(q[15] == s),
            Station::OilWellCentral => assert(q[16] == s),
            Station::OilWellNorth => assert(q[17] == s),
            Station::Sawmill => assert(q[18] == s),
            Station::SteelMill => assert(q[19] == s),
        }
    }
}

/// Each abbreviation has two or three upper-case letters.
pub proof fn lemma_abbrev_shape(s: Station)
    ensures
        2 <= station_abbrev(s).len() <= 3,
        forall|i: int| 0 <= i < station_abbrev(s).len() ==> is_upper_ascii(#[trigger] station_abbrev(s)[i]),
{
    reveal_strlit("CS");
    reveal_strlit("CW");
    reveal_strlit("CME");
    reveal_strlit("CMS");
    reveal_strlit("CP");
    reveal_strlit("FM");
    reveal_strlit("FF");
    reveal_strlit("FRC");
    reveal_strlit("FRS");
    reveal_strlit("GF");
    reveal_strlit("HB");
    reveal_strlit("IME");
    reveal_strlit("IMW");
    reveal_strlit("MF");
    reveal_strlit("MB");
    reveal_strlit("OR");
    reveal_strlit("OWC");
    reveal_strlit("OWN");
    reveal_strlit("SW");
    reveal_strlit("SM");
}

/// No two stations share an abbreviation.
pub proof fn lemma_abbrev_unique(a: Station, b: Station)
    ensures
        station_abbrev(a) == station_abbrev(b) ==> a == b,
{
    reveal_strlit("CS");
    reveal_strlit("CW");
    reveal_strlit("CME");
    reveal_strlit("CMS");
    reveal_strlit("CP");
    reveal_strlit("FM");
    reveal_strlit("FF");
    reveal_strlit("FRC");
    reveal_strlit("FRS");
    reveal_strlit("GF");
    reveal_strlit("HB");
    reveal_strlit("IME");
    reveal_strlit("IMW");
    reveal_strlit("MF");
    reveal_strlit("MB");
    reveal_strlit("OR");
    reveal_strlit("OWC");
    reveal_strlit("OWN");
    reveal_strlit("SW");
    reveal_strlit("SM");
    if station_abbrev(a) == station_abbrev(b) {
        assert(station_abbrev(a).len() == station_abbrev(b).len());
        assert(station_abbrev(a)[0] == station_abbrev(b)[0]);
        assert(station_abbrev(a)[1] == station_abbrev(b)[1]);
        if station_abbrev(a).len() == 3 {
            assert(station_abbrev(a)[2] == station_abbrev(b)[2]);
        }
    }
}

} // verus!
