//! The unified alloy: one sum over the nine alloy handles, answering the
//! same queries and taking the same updates whatever the kind.

use vstd::prelude::*;

use crate::alloy_data::AlloyData;
use crate::base_metal::BaseMetal;
use crate::compute::spec_max_ingots;
use crate::recipe::Alloys;
use crate::validate::spec_validate;
use crate::AlloyError;

verus! {

/// A handle on one alloy, tagged with its kind.
#[derive(PartialEq, Eq, Debug)]
pub enum Alloy {
    TinBronze(AlloyData),
    BismuthBronze(AlloyData),
    BlackBronze(AlloyData),
    Brass(AlloyData),
    Molybdochalkos(AlloyData),
    LeadSolder(AlloyData),
    SilverSolder(AlloyData),
    Electrum(AlloyData),
    Cupronickel(AlloyData),
}

impl Alloy {
    /// The handle inside.
    pub open spec fn data_spec(self) -> AlloyData {
        match self {
            Alloy::TinBronze(d) => d,
            Alloy::BismuthBronze(d) => d,
            Alloy::BlackBronze(d) => d,
            Alloy::Brass(d) => d,
            Alloy::Molybdochalkos(d) => d,
            Alloy::LeadSolder(d) => d,
            Alloy::SilverSolder(d) => d,
            Alloy::Electrum(d) => d,
            Alloy::Cupronickel(d) => d,
        }
    }

    /// The kind the variant stands for.
    pub open spec fn variant_kind(self) -> Alloys {
        match self {
            Alloy::TinBronze(_) => Alloys::TinBronze,
            Alloy::BismuthBronze(_) => Alloys::BismuthBronze,
            Alloy::BlackBronze(_) => Alloys::BlackBronze,
            Alloy::Brass(_) => Alloys::Brass,
            Alloy::Molybdochalkos(_) => Alloys::Molybdochalkos,
            Alloy::LeadSolder(_) => Alloys::LeadSolder,
            Alloy::SilverSolder(_) => Alloys::SilverSolder,
            Alloy::Electrum(_) => Alloys::Electrum,
            Alloy::Cupronickel(_) => Alloys::Cupronickel,
        }
    }

    /// A valid unified alloy: a valid handle whose kind agrees with the
    /// variant that carries it.
    pub open spec fn wf(self) -> bool {
        self.data_spec().wf() && self.data_spec().kind_spec() == self.variant_kind()
    }

    /// Returns the name of the alloy as a string.
    pub fn name(&self) -> (r: &'static str)
        ensures
            r@ == self.variant_kind().spec_name(),
    {
        match self {
            Alloy::TinBronze(_) => "Tin Bronze",
            Alloy::BismuthBronze(_) => "Bismuth Bronze",
            Alloy::BlackBronze(_) => "Black Bronze",
            Alloy::Brass(_) => "Brass",
            Alloy::Molybdochalkos(_) => "Molybdochalkos",
            Alloy::LeadSolder(_) => "Lead Solder",
            Alloy::SilverSolder(_) => "Silver Solder",
            Alloy::Electrum(_) => "Electrum",
            Alloy::Cupronickel(_) => "Cupronickel",
        }
    }

    /// The number of nuggets of each constituent needed to create the
    /// current number of ingots with the current constituent ratios.
    pub fn nuggets(&self) -> (r: &Vec<BaseMetal<i32>>)
        ensures
            r@ == self.data_spec().nuggets_spec(),
    {
        match self {
            Alloy::TinBronze(d) => d.nuggets(),
            Alloy::BismuthBronze(d) => d.nuggets(),
            Alloy::BlackBronze(d) => d.nuggets(),
            Alloy::Brass(d) => d.nuggets(),
            Alloy::Molybdochalkos(d) => d.nuggets(),
            Alloy::LeadSolder(d) => d.nuggets(),
            Alloy::SilverSolder(d) => d.nuggets(),
            Alloy::Electrum(d) => d.nuggets(),
            Alloy::Cupronickel(d) => d.nuggets(),
        }
    }

    /// The current number of ingots.
    pub fn num_ingots(&self) -> (r: i32)
        ensures
            r == self.data_spec().num_ingots_spec(),
    {
        match self {
            Alloy::TinBronze(d) => d.num_ingots(),
            Alloy::BismuthBronze(d) => d.num_ingots(),
            Alloy::BlackBronze(d) => d.num_ingots(),
            Alloy::Brass(d) => d.num_ingots(),
            Alloy::Molybdochalkos(d) => d.num_ingots(),
            Alloy::LeadSolder(d) => d.num_ingots(),
            Alloy::SilverSolder(d) => d.num_ingots(),
            Alloy::Electrum(d) => d.num_ingots(),
            Alloy::Cupronickel(d) => d.num_ingots(),
        }
    }

    /// The largest number of ingots possible with the current constituent
    /// percentages.
    pub fn max_ingots(&self) -> (r: i32)
        ensures
            r == self.data_spec().max_ingots_spec(),
    {
        match self {
            Alloy::TinBronze(d) => d.max_ingots(),
            Alloy::BismuthBronze(d) => d.max_ingots(),
            Alloy::BlackBronze(d) => d.max_ingots(),
            Alloy::Brass(d) => d.max_ingots(),
            Alloy::Molybdochalkos(d) => d.max_ingots(),
            Alloy::LeadSolder(d) => d.max_ingots(),
            Alloy::SilverSolder(d) => d.max_ingots(),
            Alloy::Electrum(d) => d.max_ingots(),
            Alloy::Cupronickel(d) => d.max_ingots(),
        }
    }

    /// The percentages of the constituents of the alloy, in canonical order
    /// and basis points.
    pub fn percentages(&self) -> (r: &Vec<BaseMetal<u32>>)
        ensures
            r@ == self.data_spec().percentages_spec(),
    {
        match self {
            Alloy::TinBronze(d) => d.percentages(),
            Alloy::BismuthBronze(d) => d.percentages(),
            Alloy::BlackBronze(d) => d.percentages(),
            Alloy::Brass(d) => d.percentages(),
            Alloy::Molybdochalkos(d) => d.percentages(),
            Alloy::LeadSolder(d) => d.percentages(),
            Alloy::SilverSolder(d) => d.percentages(),
            Alloy::Electrum(d) => d.percentages(),
            Alloy::Cupronickel(d) => d.percentages(),
        }
    }

    /// Tries to update the number of ingots for the alloy, as the handle
    /// does: on error the alloy is left exactly as it was.
    pub fn set_num_ingots(&mut self, num_ingots: i32) -> (r: Result<(), AlloyError>)
        requires
            old(self).wf(),
        ensures
            final(self).wf(),
            final(self).variant_kind() == old(self).variant_kind(),
            r is Err ==> *final(self) == *old(self),
            num_ingots <= 0 ==> r == Err::<(), AlloyError>(AlloyError::TooFewIngots),
            num_ingots > 0 && num_ingots > old(self).data_spec().max_ingots_spec() ==> r == Err::<
                (),
                AlloyError,
            >(AlloyError::TooManyIngots),
            1 <= num_ingots <= old(self).data_spec().max_ingots_spec() ==> r is Ok
                && final(self).data_spec().percentages_spec()
                == old(self).data_spec().percentages_spec()
                && final(self).data_spec().num_ingots_spec() == num_ingots
                && final(self).data_spec().max_ingots_spec()
                == old(self).data_spec().max_ingots_spec(),
    {
        match self {
            Alloy::TinBronze(d) => d.set_num_ingots(num_ingots),
            Alloy::BismuthBronze(d) => d.set_num_ingots(num_ingots),
            Alloy::BlackBronze(d) => d.set_num_ingots(num_ingots),
            Alloy::Brass(d) => d.set_num_ingots(num_ingots),
            Alloy::Molybdochalkos(d) => d.set_num_ingots(num_ingots),
            Alloy::LeadSolder(d) => d.set_num_ingots(num_ingots),
            Alloy::SilverSolder(d) => d.set_num_ingots(num_ingots),
            Alloy::Electrum(d) => d.set_num_ingots(num_ingots),
            Alloy::Cupronickel(d) => d.set_num_ingots(num_ingots),
        }
    }

    /// Tries to update the percentages for the alloy, as the handle does: on
    /// error the alloy is left exactly as it was.
    pub fn set_percentages(&mut self, percentages: &Vec<BaseMetal<u32>>) -> (r: Result<
        (),
        AlloyError,
    >)
        requires
            old(self).wf(),
        ensures
            final(self).wf(),
            final(self).variant_kind() == old(self).variant_kind(),
            r is Err ==> *final(self) == *old(self),
            match spec_validate(old(self).variant_kind(), percentages@) {
                Err(e) => r == Err::<(), AlloyError>(e),
                Ok(q) => (if old(self).data_spec().num_ingots_spec() as int > spec_max_ingots(q) {
                    r == Err::<(), AlloyError>(AlloyError::TooManyIngots)
                } else {
                    r is Ok && final(self).data_spec().percentages_spec() == q
                        && final(self).data_spec().num_ingots_spec()
                        == old(self).data_spec().num_ingots_spec()
                        && final(self).data_spec().max_ingots_spec() as int == spec_max_ingots(q)
                }),
            },
    {
        match self {
            Alloy::TinBronze(d) => d.set_percentages(percentages),
            Alloy::BismuthBronze(d) => d.set_percentages(percentages),
            Alloy::BlackBronze(d) => d.set_percentages(percentages),
            Alloy::Brass(d) => d.set_percentages(percentages),
            Alloy::Molybdochalkos(d) => d.set_percentages(percentages),
            Alloy::LeadSolder(d) => d.set_percentages(percentages),
            Alloy::SilverSolder(d) => d.set_percentages(percentages),
            Alloy::Electrum(d) => d.set_percentages(percentages),
            Alloy::Cupronickel(d) => d.set_percentages(percentages),
        }
    }
}

impl Alloys {
    /// The recipe's default handle for this kind, wrapped in the unified
    /// alloy.
    pub fn get_default(self) -> (a: Alloy)
        ensures
            a.wf(),
            a.variant_kind() == self,
            a.data_spec().kind_spec() == self,
            a.data_spec().percentages_spec() == self.defaults_seq(),
            a.data_spec().num_ingots_spec() == 1,
            a.data_spec().max_ingots_spec() as int == self.default_max_ingots(),
            a.data_spec().nuggets_spec() == self.default_nuggets_seq(),
    {
        let d = AlloyData::get_default(self);
        match self {
            Alloys::TinBronze => Alloy::TinBronze(d),
            Alloys::BismuthBronze => Alloy::BismuthBronze(d),
            Alloys::BlackBronze => Alloy::BlackBronze(d),
            Alloys::Brass => Alloy::Brass(d),
            Alloys::Molybdochalkos => Alloy::Molybdochalkos(d),
            Alloys::LeadSolder => Alloy::LeadSolder(d),
            Alloys::SilverSolder => Alloy::SilverSolder(d),
            Alloys::Electrum => Alloy::Electrum(d),
            Alloys::Cupronickel => Alloy::Cupronickel(d),
        }
    }
}

} // verus!
