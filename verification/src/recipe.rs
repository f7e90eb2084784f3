//! The nine alloys and their recipes: the canonical order of constituents,
//! the percentage range each constituent may occupy, and the default
//! composition.

use vstd::prelude::*;

use crate::base_metal::with_tag;
use crate::base_metal::BaseMetal;
use crate::base_metal::MetalTag;
use crate::ConstituentRange;

verus! {

/// The available alloys.
#[derive(Clone, Copy, PartialEq, Eq, Structural, Debug)]
pub enum Alloys {
    TinBronze,
    BismuthBronze,
    BlackBronze,
    Brass,
    Molybdochalkos,
    LeadSolder,
    SilverSolder,
    Electrum,
    Cupronickel,
}

impl Alloys {
    /// How many constituents the alloy has.
    pub open spec fn arity_spec(self) -> int {
        match self {
            Alloys::TinBronze => 2,
            Alloys::BismuthBronze => 3,
            Alloys::BlackBronze => 3,
            Alloys::Brass => 2,
            Alloys::Molybdochalkos => 2,
            Alloys::LeadSolder => 2,
            Alloys::SilverSolder => 2,
            Alloys::Electrum => 2,
            Alloys::Cupronickel => 2,
        }
    }

    /// The base metal at position `j` of the canonical order.
    pub open spec fn tag_at(self, j: int) -> MetalTag {
        match self {
            Alloys::TinBronze => if j == 0 {
                MetalTag::Copper
            } else {
                MetalTag::Tin
            },
            Alloys::BismuthBronze => if j == 0 {
                MetalTag::Copper
            } else if j == 1 {
                MetalTag::Zinc
            } else {
                MetalTag::Bismuth
            },
            Alloys::BlackBronze => if j == 0 {
                MetalTag::Copper
            } else if j == 1 {
                MetalTag::Gold
            } else {
                MetalTag::Silver
            },
            Alloys::Brass => if j == 0 {
                MetalTag::Copper
            } else {
                MetalTag::Zinc
            },
            Alloys::Molybdochalkos => if j == 0 {
                MetalTag::Lead
            } else {
                MetalTag::Copper
            },
            Alloys::LeadSolder => if j == 0 {
                MetalTag::Tin
            } else {
                MetalTag::Lead
            },
            Alloys::SilverSolder => if j == 0 {
                MetalTag::Tin
            } else {
                MetalTag::Silver
            },
            Alloys::Electrum => if j == 0 {
                MetalTag::Gold
            } else {
                MetalTag::Silver
            },
            Alloys::Cupronickel => if j == 0 {
                MetalTag::Copper
            } else {
                MetalTag::Nickel
            },
        }
    }

    /// The percentage range, in basis points, allowed at position `j` of the
    /// canonical order.
    pub open spec fn range_at(self, j: int) -> ConstituentRange {
        match self {
            Alloys::TinBronze => if j == 0 {
                ConstituentRange { min: 8800, max: 9200 }
            } else {
                ConstituentRange { min: 800, max: 1200 }
            },
            Alloys::BismuthBronze => if j == 0 {
                ConstituentRange { min: 5000, max: 7000 }
            } else if j == 1 {
                ConstituentRange { min: 2000, max: 3000 }
            } else {
                ConstituentRange { min: 1000, max: 2000 }
            },
            Alloys::BlackBronze => if j == 0 {
                ConstituentRange { min: 6800, max: 8400 }
            } else {
                ConstituentRange { min: 800, max: 1600 }
            },
            Alloys::Brass => if j == 0 {
                ConstituentRange { min: 6000, max: 7000 }
            } else {
                ConstituentRange { min: 3000, max: 4000 }
            },
            Alloys::Molybdochalkos => if j == 0 {
                ConstituentRange { min: 8800, max: 9200 }
            } else {
                ConstituentRange { min: 800, max: 1200 }
            },
            Alloys::LeadSolder => ConstituentRange { min: 4500, max: 5500 },
            Alloys::SilverSolder => if j == 0 {
                ConstituentRange { min: 5000, max: 6000 }
            } else {
                ConstituentRange { min: 4000, max: 5000 }
            },
            Alloys::Electrum => ConstituentRange { min: 4000, max: 6000 },
            Alloys::Cupronickel => if j == 0 {
                ConstituentRange { min: 6500, max: 7500 }
            } else {
                ConstituentRange { min: 2500, max: 3500 }
            },
        }
    }

    /// The default percentage, in basis points, at position `j` of the
    /// canonical order.
    pub open spec fn default_percent_at(self, j: int) -> u32 {
        match self {
            Alloys::TinBronze => if j == 0 {
                9200
            } else {
                800
            },
            Alloys::BismuthBronze => if j == 0 {
                6000
            } else {
                2000
            },
            Alloys::BlackBronze => if j == 0 {
                8400
            } else {
                800
            },
            Alloys::Brass => if j == 0 {
                7000
            } else {
                3000
            },
            Alloys::Molybdochalkos => if j == 0 {
                9200
            } else {
                800
            },
            Alloys::LeadSolder => if j == 0 {
                4500
            } else {
                5500
            },
            Alloys::SilverSolder => 5000,
            Alloys::Electrum => if j == 0 {
                4000
            } else {
                6000
            },
            Alloys::Cupronickel => if j == 0 {
                7500
            } else {
                2500
            },
        }
    }

    /// The recipe's default nugget count at position `j` of the canonical
    /// order.
    pub open spec fn default_nugget_at(self, j: int) -> i32 {
        match self {
            Alloys::TinBronze => if j == 0 {
                18
            } else {
                2
            },
            Alloys::BismuthBronze => if j == 0 {
                12
            } else {
                4
            },
            Alloys::BlackBronze => if j == 0 {
                18
            } else {
                1
            },
            Alloys::Brass => if j == 0 {
                14
            } else {
                6
            },
            Alloys::Molybdochalkos => if j == 0 {
                18
            } else {
                2
            },
            Alloys::LeadSolder => if j == 0 {
                9
            } else {
                11
            },
            Alloys::SilverSolder => 10,
            Alloys::Electrum => if j == 0 {
                8
            } else {
                12
            },
            Alloys::Cupronickel => if j == 0 {
                15
            } else {
                5
            },
        }
    }

    /// The recipe's default nugget vector in canonical order, as tagged
    /// carriers.
    pub open spec fn default_nuggets_seq(self) -> Seq<BaseMetal<i32>> {
        Seq::new(
            self.arity_spec() as nat,
            |j: int| with_tag(self.tag_at(j), self.default_nugget_at(j)),
        )
    }

    /// The recipe's default maximum ingot count: the largest count at which
    /// the default composition fits in the crucible.
    pub open spec fn default_max_ingots(self) -> int {
        match self {
            Alloys::TinBronze => 20,
            Alloys::BismuthBronze => 21,
            Alloys::BlackBronze => 15,
            Alloys::Brass => 21,
            Alloys::Molybdochalkos => 20,
            Alloys::LeadSolder => 23,
            Alloys::SilverSolder => 25,
            Alloys::Electrum => 21,
            Alloys::Cupronickel => 25,
        }
    }

    /// The display name of the alloy.
    pub open spec fn spec_name(self) -> Seq<char> {
        match self {
            Alloys::TinBronze => "Tin Bronze"@,
            Alloys::BismuthBronze => "Bismuth Bronze"@,
            Alloys::BlackBronze => "Black Bronze"@,
            Alloys::Brass => "Brass"@,
            Alloys::Molybdochalkos => "Molybdochalkos"@,
            Alloys::LeadSolder => "Lead Solder"@,
            Alloys::SilverSolder => "Silver Solder"@,
            Alloys::Electrum => "Electrum"@,
            Alloys::Cupronickel => "Cupronickel"@,
        }
    }

    /// The recipe's ranges in canonical order, as tagged carriers.
    pub open spec fn ranges_seq(self) -> Seq<BaseMetal<ConstituentRange>> {
        Seq::new(self.arity_spec() as nat, |j: int| with_tag(self.tag_at(j), self.range_at(j)))
    }

    /// The recipe's default composition in canonical order.
    pub open spec fn defaults_seq(self) -> Seq<BaseMetal<u32>> {
        Seq::new(
            self.arity_spec() as nat,
            |j: int| with_tag(self.tag_at(j), self.default_percent_at(j)),
        )
    }

    pub fn arity(self) -> (n: usize)
        ensures
            n == self.arity_spec(),
    {
        match self {
            Alloys::BismuthBronze => 3,
            Alloys::BlackBronze => 3,
            _ => 2,
        }
    }

    /// Returns the name of the alloy as a string.
    pub fn name(self) -> (r: &'static str)
        ensures
            r@ == self.spec_name(),
    {
        match self {
            Alloys::TinBronze => "Tin Bronze",
            Alloys::BismuthBronze => "Bismuth Bronze",
            Alloys::BlackBronze => "Black Bronze",
            Alloys::Brass => "Brass",
            Alloys::Molybdochalkos => "Molybdochalkos",
            Alloys::LeadSolder => "Lead Solder",
            Alloys::SilverSolder => "Silver Solder",
            Alloys::Electrum => "Electrum",
            Alloys::Cupronickel => "Cupronickel",
        }
    }

    /// The constituent percentage ranges of the alloy, in canonical order,
    /// largest constituent first.
    pub fn percentage_ranges(self) -> (v: Vec<BaseMetal<ConstituentRange>>)
        ensures
            v@ == self.ranges_seq(),
    {
        let mut v: Vec<BaseMetal<ConstituentRange>> = Vec::new();
        match self {
            Alloys::TinBronze => {
                v.push(BaseMetal::Copper(ConstituentRange::new(8800, 9200)));
                v.push(BaseMetal::Tin(ConstituentRange::new(800, 1200)));
            },
            Alloys::BismuthBronze => {
                v.push(BaseMetal::Copper(ConstituentRange::new(5000, 7000)));
                v.push(BaseMetal::Zinc(ConstituentRange::new(2000, 3000)));
                v.push(BaseMetal::Bismuth(ConstituentRange::new(1000, 2000)));
            },
            Alloys::BlackBronze => {
                v.push(BaseMetal::Copper(ConstituentRange::new(6800, 8400)));
                v.push(BaseMetal::Gold(ConstituentRange::new(800, 1600)));
                v.push(BaseMetal::Silver(ConstituentRange::new(800, 1600)));
            },
            Alloys::Brass => {
                v.push(BaseMetal::Copper(ConstituentRange::new(6000, 7000)));
                v.push(BaseMetal::Zinc(ConstituentRange::new(3000, 4000)));
            },
            Alloys::Molybdochalkos => {
                v.push(BaseMetal::Lead(ConstituentRange::new(8800, 9200)));
                v.push(BaseMetal::Copper(ConstituentRange::new(800, 1200)));
            },
            Alloys::LeadSolder => {
                v.push(BaseMetal::Tin(ConstituentRange::new(4500, 5500)));
                v.push(BaseMetal::Lead(ConstituentRange::new(4500, 5500)));
            },
            Alloys::SilverSolder => {
                v.push(BaseMetal::Tin(ConstituentRange::new(5000, 6000)));
                v.push(BaseMetal::Silver(ConstituentRange::new(4000, 5000)));
            },
            Alloys::Electrum => {
                v.push(BaseMetal::Gold(ConstituentRange::new(4000, 6000)));
                v.push(BaseMetal::Silver(ConstituentRange::new(4000, 6000)));
            },
            Alloys::Cupronickel => {
                v.push(BaseMetal::Copper(ConstituentRange::new(6500, 7500)));
                v.push(BaseMetal::Nickel(ConstituentRange::new(2500, 3500)));
            },
        }
        proof {
            assert(v@ =~= self.ranges_seq());
        }
        v
    }

    /// The recipe's default composition, in canonical order.
    pub fn default_percentages(self) -> (v: Vec<BaseMetal<u32>>)
        ensures
            v@ == self.defaults_seq(),
    {
        let mut v: Vec<BaseMetal<u32>> = Vec::new();
        match self {
            Alloys::TinBronze => {
                v.push(BaseMetal::Copper(9200));
                v.push(BaseMetal::Tin(800));
            },
            Alloys::BismuthBronze => {
                v.push(BaseMetal::Copper(6000));
                v.push(BaseMetal::Zinc(2000));
                v.push(BaseMetal::Bismuth(2000));
            },
            Alloys::BlackBronze => {
                v.push(BaseMetal::Copper(8400));
                v.push(BaseMetal::Gold(800));
                v.push(BaseMetal::Silver(800));
            },
            Alloys::Brass => {
                v.push(BaseMetal::Copper(7000));
                v.push(BaseMetal::Zinc(3000));
            },
            Alloys::Molybdochalkos => {
                v.push(BaseMetal::Lead(9200));
                v.push(BaseMetal::Copper(800));
            },
            Alloys::LeadSolder => {
                v.push(BaseMetal::Tin(4500));
                v.push(BaseMetal::Lead(5500));
            },
            Alloys::SilverSolder => {
                v.push(BaseMetal::Tin(5000));
                v.push(BaseMetal::Silver(5000));
            },
            Alloys::Electrum => {
                v.push(BaseMetal::Gold(4000));
                v.push(BaseMetal::Silver(6000));
            },
            Alloys::Cupronickel => {
                v.push(BaseMetal::Copper(7500));
                v.push(BaseMetal::Nickel(2500));
            },
        }
        proof {
            assert(v@ =~= self.defaults_seq());
        }
        v
    }
}

/// Whether a composition is canonical for the alloy: one entry per recipe
/// position, tagged with that position's base metal, with a percentage
/// inside that position's range.
pub open spec fn canonical_wf(kind: Alloys, p: Seq<BaseMetal<u32>>) -> bool {
    &&& p.len() == kind.arity_spec()
    &&& forall|j: int| 0 <= j < p.len() ==> (#[trigger] p[j]).spec_tag() == kind.tag_at(j)
    &&& forall|j: int|
        0 <= j < p.len() ==> kind.range_at(j).spec_contains((#[trigger] p[j]).spec_value())
}

/// In every recipe the base metals of distinct canonical positions are
/// distinct, each range is well formed with both ends between 1 and 100%,
/// and the ranges of all constituents but the last leave room for the last:
/// their maxima sum to at most 100%.
pub proof fn lemma_recipe_wf(kind: Alloys)
    ensures
        2 <= kind.arity_spec() <= 3,
        forall|j1: int, j2: int|
            0 <= j1 < kind.arity_spec() && 0 <= j2 < kind.arity_spec() && j1 != j2 ==> kind.tag_at(
                j1,
            ) != kind.tag_at(j2),
        forall|j: int|
            0 <= j < kind.arity_spec() ==> 0 < #[trigger] kind.range_at(j).min && kind.range_at(
                j,
            ).min <= kind.range_at(j).max <= 10000,
        kind.arity_spec() == 2 ==> kind.range_at(0).max <= 10000,
        kind.arity_spec() == 3 ==> kind.range_at(0).max + kind.range_at(1).max <= 10000,
{
    match kind {
        Alloys::TinBronze => {},
        Alloys::BismuthBronze => {},
        Alloys::BlackBronze => {},
        Alloys::Brass => {},
        Alloys::Molybdochalkos => {},
        Alloys::LeadSolder => {},
        Alloys::SilverSolder => {},
        Alloys::Electrum => {},
        Alloys::Cupronickel => {},
    }
}

} // verus!
