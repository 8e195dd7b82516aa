use vstd::prelude::*;

verus! {

/// A kind of locomotive or car that can be placed in a consist.
#[derive(Clone, Copy, PartialEq, Eq, Debug, Hash, Structural)]
pub enum Locomotive {
    DE2,
    S060,
    DM3,
    DH4,
    S282,
    DE6,
    DE6Slug,
    BE2,
    DM1U,
    Caboose,
}

/// One unit of a consist: the catalog data of its kind, and whether it is switched on.
///
/// Weights are in kilograms and lengths in millimetres, so that sums are exact.
#[derive(Clone, Copy, PartialEq, Eq, Debug, Structural)]
pub struct LocomotiveInfo {
    pub loco: Locomotive,
    /// Mass in kilograms.
    pub weight_kg: u32,
    /// Length in millimetres.
    pub length_mm: u32,
    /// Tonnes it can pull on level track.
    pub zero_grade_t: u16,
    /// Tonnes it can pull up a two percent grade.
    pub two_grade_t: u16,
    /// Tonnes it can pull up a two percent grade in the rain.
    pub rain_grade_t: u16,
    /// Whether the unit has traction power at all.
    pub has_power: bool,
    /// Whether the unit's power is switched on; meaningful only with `has_power`.
    pub powered: bool,
}

impl LocomotiveInfo {
    /// Builds a catalog entry; a unit with power starts switched on.
    pub fn new(
        loco: Locomotive,
        weight_kg: u32,
        length_mm: u32,
        zero_grade_t: u16,
        two_grade_t: u16,
        rain_grade_t: u16,
        powered: bool,
    ) -> (r: Self)
        ensures
            r.loco == loco,
            r.weight_kg == weight_kg,
            r.length_mm == length_mm,
            r.zero_grade_t == zero_grade_t,
            r.two_grade_t == two_grade_t,
            r.rain_grade_t == rain_grade_t,
            r.has_power == powered,
            r.powered == powered,
    {
        LocomotiveInfo {
            loco,
            weight_kg,
            length_mm,
            zero_grade_t,
            two_grade_t,
            rain_grade_t,
            has_power: powered,
            powered,
        }
    }

    /// Whether the unit adds to the weight the consist can pull.
    pub open spec fn pulls(self) -> bool {
        self.has_power && self.powered
    }
}

/// The number of kinds in the catalog.
pub const LOCOMOTIVE_COUNT: usize = 10;

/// The kinds in the order in which the picker lists them.
pub open spec fn loco_seq() -> Seq<Locomotive> {
    seq![
        Locomotive::DE2,
        Locomotive::S060,
        Locomotive::DM3,
        Locomotive::DH4,
        Locomotive::S282,
        Locomotive::DE6,
        Locomotive::DE6Slug,
        Locomotive::BE2,
        Locomotive::DM1U,
        Locomotive::Caboose,
    ]
}

/// The display name of a kind.
pub open spec fn loco_name(l: Locomotive) -> Seq<char> {
    match l {
        Locomotive::DE2 => "DE2"@,
        Locomotive::S060 => "S060"@,
        Locomotive::DM3 => "DM3"@,
        Locomotive::DH4 => "DH4"@,
        Locomotive::S282 => "S282"@,
        Locomotive::DE6 => "DE6"@,
        Locomotive::DE6Slug => "DE6 Slug"@,
        Locomotive::BE2 => "BE2-260"@,
        Locomotive::DM1U => "DM1U-150"@,
        Locomotive::Caboose => "Caboose"@,
    }
}

/// A catalog entry with the given data; a unit with power starts switched on.
pub open spec fn entry(
    loco: Locomotive,
    weight_kg: u32,
    length_mm: u32,
    zero_grade_t: u16,
    two_grade_t: u16,
    rain_grade_t: u16,
    powered: bool,
) -> LocomotiveInfo {
    LocomotiveInfo {
        loco,
        weight_kg,
        length_mm,
        zero_grade_t,
        two_grade_t,
        rain_grade_t,
        has_power: powered,
        powered,
    }
}

/// The catalog: the data of each kind.
pub open spec fn catalog_entry(l: Locomotive) -> LocomotiveInfo {
    match l {
        Locomotive::DE2 => entry(Locomotive::DE2, 38000, 7600, 1200, 300, 250, true),
        Locomotive::S060 => entry(Locomotive::S060, 50700, 9320, 1500, 400, 300, true),
        Locomotive::DM3 => entry(Locomotive::DM3, 52000, 8600, 2000, 500, 400, true),
        Locomotive::DH4 => entry(Locomotive::DH4, 77500, 12840, 2000, 600, 500, true),
        Locomotive::S282 => entry(Locomotive::S282, 174800, 22180, 3000, 1000, 800, true),
        Locomotive::DE6 => entry(Locomotive::DE6, 125000, 18640, 3000, 1200, 1000, true),
        Locomotive::DE6Slug => entry(Locomotive::DE6Slug, 125000, 16800, 0, 0, 0, false),
        Locomotive::BE2 => entry(Locomotive::BE2, 12000, 4080, 800, 100, 50, true),
        Locomotive::DM1U => entry(Locomotive::DM1U, 10400, 14470, 0, 0, 0, true),
        Locomotive::Caboose => entry(Locomotive::Caboose, 22000, 13200, 0, 0, 0, false),
    }
}

impl Locomotive {
    /// The display name of this kind.
    pub fn display_name(self) -> (r: String)
        ensures
            r@ == loco_name(self),
    {
        match self {
            Self::DE2 => "DE2",
            Self::S060 => "S060",
            Self::DM3 => "DM3",
            Self::DH4 => "DH4",
            Self::S282 => "S282",
            Self::DE6 => "DE6",
            Self::DE6Slug => "DE6 Slug",
            Self::BE2 => "BE2-260",
            Self::DM1U => "DM1U-150",
            Self::Caboose => "Caboose",
        }.to_owned()
    }

    /// The catalog entry of this kind.
    pub fn info(self) -> (r: LocomotiveInfo)
        ensures
            r == catalog_entry(self),
    {
        match self {
            Self::DE2 => LocomotiveInfo::new(Self::DE2, 38000, 7600, 1200, 300, 250, true),
            Self::S060 => LocomotiveInfo::new(Self::S060, 50700, 9320, 1500, 400, 300, true),
            Self::DM3 => LocomotiveInfo::new(Self::DM3, 52000, 8600, 2000, 500, 400, true),
            Self::DH4 => LocomotiveInfo::new(Self::DH4, 77500, 12840, 2000, 600, 500, true),
            Self::S282 => LocomotiveInfo::new(Self::S282, 174800, 22180, 3000, 1000, 800, true),
            Self::DE6 => LocomotiveInfo::new(Self::DE6, 125000, 18640, 3000, 1200, 1000, true),
            Self::DE6Slug => LocomotiveInfo::new(Self::DE6Slug, 125000, 16800, 0, 0, 0, false),
            Self::BE2 => LocomotiveInfo::new(Self::BE2, 12000, 4080, 800, 100, 50, true),
            Self::DM1U => LocomotiveInfo::new(Self::DM1U, 10400, 14470, 0, 0, 0, true),
            Self::Caboose => LocomotiveInfo::new(Self::Caboose, 22000, 13200, 0, 0, 0, false),
        }
    }
}

/// Every kind, in the order in which the picker lists them.
pub fn loco_list() -> (r: Vec<Locomotive>)
    ensures
        r@ == loco_seq(),
        r@.len() == LOCOMOTIVE_COUNT,
        r@.no_duplicates(),
        forall|l: Locomotive| r@.contains(l),
{
    let r = vec![
        Locomotive::DE2,
        Locomotive::S060,
        Locomotive::DM3,
        Locomotive::DH4,
        Locomotive::S282,
        Locomotive::DE6,
        Locomotive::DE6Slug,
        Locomotive::BE2,
        Locomotive::DM1U,
        Locomotive::Caboose,
    ];
    proof {
        lemma_loco_seq_complete();
    }
    r
}

/// The catalog entries of every kind, in picker order.
pub fn locomotives() -> (r: Vec<LocomotiveInfo>)
    ensures
        r@.len() == LOCOMOTIVE_COUNT,
        forall|i: int| 0 <= i < r@.len() ==> #[trigger] r@[i] == catalog_entry(loco_seq()[i]),
{
    let kinds = loco_list();
    let mut r: Vec<LocomotiveInfo> = Vec::new();
    let mut i: usize = 0;
    while i < kinds.len()
        invariant
            kinds@ == loco_seq(),
            kinds@.len() == LOCOMOTIVE_COUNT,
            i <= kinds@.len(),
            r@.len() == i,
            forall|j: int| 0 <= j < i ==> #[trigger] r@[j] == catalog_entry(loco_seq()[j]),
        decreases kinds@.len() - i,
    {
        r.push(kinds[i].info());
        i += 1;
    }
    r
}

/// The kind list holds every kind exactly once.
pub proof fn lemma_loco_seq_complete()
    ensures
        loco_seq().len() == LOCOMOTIVE_COUNT,
        loco_seq().no_duplicates(),
        forall|l: Locomotive| loco_seq().contains(l),
{
    let q = loco_seq();
    assert forall|l: Locomotive| q.contains(l) by {
        match l {
            Locomotive::DE2 => assert(q[0] == l),
            Locomotive::S060 => assert(q[1] == l),
            Locomotive::DM3 => assert(q[2] == l),
            Locomotive::DH4 => assert(q[3] == l),
            Locomotive::S282 => assert(q[4] == l),
            Locomotive::DE6 => assert(q[5] == l),
            Locomotive::DE6Slug => assert(q[6] == l),
            Locomotive::BE2 => assert(q[7] == l),
            Locomotive::DM1U => assert(q[8] == l),
            Locomotive::Caboose => assert(q[9] == l),
        }
    }
}

/// Each catalog entry describes its own kind, starts switched on exactly when it has
/// power, and a unit without power has no pulling ratings.
pub proof fn lemma_catalog_consistent(l: Locomotive)
    ensures
        catalog_entry(l).loco == l,
        catalog_entry(l).powered == catalog_entry(l).has_power,
        !catalog_entry(l).has_power ==> catalog_entry(l).zero_grade_t == 0
            && catalog_entry(l).two_grade_t == 0 && catalog_entry(l).rain_grade_t == 0,
        catalog_entry(l).two_grade_t <= catalog_entry(l).zero_grade_t,
        catalog_entry(l).rain_grade_t <= catalog_entry(l).two_grade_t,
{
}

} // verus!
