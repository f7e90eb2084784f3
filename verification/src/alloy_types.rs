//! The nine concrete alloys as typed nugget containers. Each wraps the
//! corrected nugget amounts in its recipe's tags, in canonical order, and
//! carries the recipe's default nugget vector.

use vstd::prelude::*;

use crate::base_metal::BaseMetal;
use crate::AlloyError;

verus! {

/// Nuggets of copper and tin.
#[derive(PartialEq, Eq, Debug)]
pub struct TinBronze(pub(crate) Vec<BaseMetal<i32>>);

impl TinBronze {
    /// The tagged nugget counts, in canonical order.
    pub closed spec fn spec_nuggets(self) -> Seq<BaseMetal<i32>> {
        self.0@
    }

    /// The array of constituent nugget amounts.
    pub fn nuggets(&self) -> (r: &Vec<BaseMetal<i32>>)
        ensures
            r@ == self.spec_nuggets(),
    {
        &self.0
    }

    /// The tagged nugget counts, surrendering the container.
    pub(crate) fn into_nuggets(self) -> (r: Vec<BaseMetal<i32>>)
        ensures
            r@ == self.spec_nuggets(),
    {
        self.0
    }

    /// Wraps raw amounts in this alloy's tags: the first value becomes
    /// copper, the second tin. Fails when fewer are supplied; extra values
    /// are ignored.
    pub fn try_from_vec(value: Vec<i32>) -> (r: Result<Self, AlloyError>)
        ensures
            value@.len() >= 2 ==> r is Ok && (r->Ok_0).spec_nuggets() == seq![
                BaseMetal::Copper(value@[0]),
                BaseMetal::Tin(value@[1]),
            ],
            value@.len() < 2 ==> r == Err::<Self, _>(AlloyError::InvalidConstituentAmounts),
    {
        if value.len() < 2 {
            Err(AlloyError::InvalidConstituentAmounts)
        } else {
            let mut v: Vec<BaseMetal<i32>> = Vec::new();
            v.push(BaseMetal::Copper(value[0]));
            v.push(BaseMetal::Tin(value[1]));
            proof {
                assert(v@ =~= seq![BaseMetal::Copper(value@[0]), BaseMetal::Tin(value@[1])]);
            }
            Ok(TinBronze(v))
        }
    }
}

impl Default for TinBronze {
    /// The recipe's default nugget vector.
    fn default() -> (r: Self)
        ensures
            r.spec_nuggets() == seq![BaseMetal::Copper(18i32), BaseMetal::Tin(2i32)],
    {
        let mut v: Vec<BaseMetal<i32>> = Vec::new();
        v.push(BaseMetal::Copper(18));
        v.push(BaseMetal::Tin(2));
        proof {
            assert(v@ =~= seq![BaseMetal::Copper(18i32), BaseMetal::Tin(2i32)]);
        }
        TinBronze(v)
    }
}

/// Nuggets of copper, zinc and bismuth.
#[derive(PartialEq, Eq, Debug)]
pub struct BismuthBronze(pub(crate) Vec<BaseMetal<i32>>);

impl BismuthBronze {
    /// The tagged nugget counts, in canonical order.
    pub closed spec fn spec_nuggets(self) -> Seq<BaseMetal<i32>> {
        self.0@
    }

    /// The array of constituent nugget amounts.
    pub fn nuggets(&self) -> (r: &Vec<BaseMetal<i32>>)
        ensures
            r@ == self.spec_nuggets(),
    {
        &self.0
    }

    /// The tagged nugget counts, surrendering the container.
    pub(crate) fn into_nuggets(self) -> (r: Vec<BaseMetal<i32>>)
        ensures
            r@ == self.spec_nuggets(),
    {
        self.0
    }

    /// Wraps raw amounts in this alloy's tags: copper, zinc, then bismuth.
    pub fn try_from_vec(value: Vec<i32>) -> (r: Result<Self, AlloyError>)
        ensures
            value@.len() >= 3 ==> r is Ok && (r->Ok_0).spec_nuggets() == seq![
                BaseMetal::Copper(value@[0]),
                BaseMetal::Zinc(value@[1]),
                BaseMetal::Bismuth(value@[2]),
            ],
            value@.len() < 3 ==> r == Err::<Self, _>(AlloyError::InvalidConstituentAmounts),
    {
        if value.len() < 3 {
            Err(AlloyError::InvalidConstituentAmounts)
        } else {
            let mut v: Vec<BaseMetal<i32>> = Vec::new();
            v.push(BaseMetal::Copper(value[0]));
            v.push(BaseMetal::Zinc(value[1]));
            v.push(BaseMetal::Bismuth(value[2]));
            proof {
                assert(v@ =~= seq![
                    BaseMetal::Copper(value@[0]),
                    BaseMetal::Zinc(value@[1]),
                    BaseMetal::Bismuth(value@[2]),
                ]);
            }
            Ok(BismuthBronze(v))
        }
    }
}

impl Default for BismuthBronze {
    /// The recipe's default nugget vector.
    fn default() -> (r: Self)
        ensures
            r.spec_nuggets() == seq![
                BaseMetal::Copper(12i32),
                BaseMetal::Zinc(4i32),
                BaseMetal::Bismuth(4i32),
            ],
    {
        let mut v: Vec<BaseMetal<i32>> = Vec::new();
        v.push(BaseMetal::Copper(12));
        v.push(BaseMetal::Zinc(4));
        v.push(BaseMetal::Bismuth(4));
        proof {
            assert(v@ =~= seq![
                BaseMetal::Copper(12i32),
                BaseMetal::Zinc(4i32),
                BaseMetal::Bismuth(4i32),
            ]);
        }
        BismuthBronze(v)
    }
}

/// Nuggets of copper, gold and silver.
#[derive(PartialEq, Eq, Debug)]
pub struct BlackBronze(pub(crate) Vec<BaseMetal<i32>>);

impl BlackBronze {
    /// The tagged nugget counts, in canonical order.
    pub closed spec fn spec_nuggets(self) -> Seq<BaseMetal<i32>> {
        self.0@
    }

    /// The array of constituent nugget amounts.
    pub fn nuggets(&self) -> (r: &Vec<BaseMetal<i32>>)
        ensures
            r@ == self.spec_nuggets(),
    {
        &self.0
    }

    /// The tagged nugget counts, surrendering the container.
    pub(crate) fn into_nuggets(self) -> (r: Vec<BaseMetal<i32>>)
        ensures
            r@ == self.spec_nuggets(),
    {
        self.0
    }

    /// Wraps raw amounts in this alloy's tags: copper, gold, then silver.
    pub fn try_from_vec(value: Vec<i32>) -> (r: Result<Self, AlloyError>)
        ensures
            value@.len() >= 3 ==> r is Ok && (r->Ok_0).spec_nuggets() == seq![
                BaseMetal::Copper(value@[0]),
                BaseMetal::Gold(value@[1]),
                BaseMetal::Silver(value@[2]),
            ],
            value@.len() < 3 ==> r == Err::<Self, _>(AlloyError::InvalidConstituentAmounts),
    {
        if value.len() < 3 {
            Err(AlloyError::InvalidConstituentAmounts)
        } else {
            let mut v: Vec<BaseMetal<i32>> = Vec::new();
            v.push(BaseMetal::Copper(value[0]));
            v.push(BaseMetal::Gold(value[1]));
            v.push(BaseMetal::Silver(value[2]));
            proof {
                assert(v@ =~= seq![
                    BaseMetal::Copper(value@[0]),
                    BaseMetal::Gold(value@[1]),
                    BaseMetal::Silver(value@[2]),
                ]);
            }
            Ok(BlackBronze(v))
        }
    }
}

impl Default for BlackBronze {
    /// The recipe's default nugget vector.
    fn default() -> (r: Self)
        ensures
            r.spec_nuggets() == seq![
                BaseMetal::Copper(18i32),
                BaseMetal::Gold(1i32),
                BaseMetal::Silver(1i32),
            ],
    {
        let mut v: Vec<BaseMetal<i32>> = Vec::new();
        v.push(BaseMetal::Copper(18));
        v.push(BaseMetal::Gold(1));
        v.push(BaseMetal::Silver(1));
        proof {
            assert(v@ =~= seq![
                BaseMetal::Copper(18i32),
                BaseMetal::Gold(1i32),
                BaseMetal::Silver(1i32),
            ]);
        }
        BlackBronze(v)
    }
}

/// Nuggets of copper and zinc.
#[derive(PartialEq, Eq, Debug)]
pub struct Brass(pub(crate) Vec<BaseMetal<i32>>);

impl Brass {
    /// The tagged nugget counts, in canonical order.
    pub closed spec fn spec_nuggets(self) -> Seq<BaseMetal<i32>> {
        self.0@
    }

    /// The array of constituent nugget amounts.
    pub fn nuggets(&self) -> (r: &Vec<BaseMetal<i32>>)
        ensures
            r@ == self.spec_nuggets(),
    {
        &self.0
    }

    /// The tagged nugget counts, surrendering the container.
    pub(crate) fn into_nuggets(self) -> (r: Vec<BaseMetal<i32>>)
        ensures
            r@ == self.spec_nuggets(),
    {
        self.0
    }

    /// Wraps raw amounts in this alloy's tags: copper, then zinc.
    pub fn try_from_vec(value: Vec<i32>) -> (r: Result<Self, AlloyError>)
        ensures
            value@.len() >= 2 ==> r is Ok && (r->Ok_0).spec_nuggets() == seq![
                BaseMetal::Copper(value@[0]),
                BaseMetal::Zinc(value@[1]),
            ],
            value@.len() < 2 ==> r == Err::<Self, _>(AlloyError::InvalidConstituentAmounts),
    {
        if value.len() < 2 {
            Err(AlloyError::InvalidConstituentAmounts)
        } else {
            let mut v: Vec<BaseMetal<i32>> = Vec::new();
            v.push(BaseMetal::Copper(value[0]));
            v.push(BaseMetal::Zinc(value[1]));
            proof {
                assert(v@ =~= seq![BaseMetal::Copper(value@[0]), BaseMetal::Zinc(value@[1])]);
            }
            Ok(Brass(v))
        }
    }
}

impl Default for Brass {
    /// The recipe's default nugget vector.
    fn default() -> (r: Self)
        ensures
            r.spec_nuggets() == seq![BaseMetal::Copper(14i32), BaseMetal::Zinc(6i32)],
    {
        let mut v: Vec<BaseMetal<i32>> = Vec::new();
        v.push(BaseMetal::Copper(14));
        v.push(BaseMetal::Zinc(6));
        proof {
            assert(v@ =~= seq![BaseMetal::Copper(14i32), BaseMetal::Zinc(6i32)]);
        }
        Brass(v)
    }
}

/// Nuggets of lead and copper.
#[derive(PartialEq, Eq, Debug)]
pub struct Molybdochalkos(pub(crate) Vec<BaseMetal<i32>>);

impl Molybdochalkos {
    /// The tagged nugget counts, in canonical order.
    pub closed spec fn spec_nuggets(self) -> Seq<BaseMetal<i32>> {
        self.0@
    }

    /// The array of constituent nugget amounts.
    pub fn nuggets(&self) -> (r: &Vec<BaseMetal<i32>>)
        ensures
            r@ == self.spec_nuggets(),
    {
        &self.0
    }

    /// The tagged nugget counts, surrendering the container.
    pub(crate) fn into_nuggets(self) -> (r: Vec<BaseMetal<i32>>)
        ensures
            r@ == self.spec_nuggets(),
    {
        self.0
    }

    /// Wraps raw amounts in this alloy's tags: lead, then copper.
    pub fn try_from_vec(value: Vec<i32>) -> (r: Result<Self, AlloyError>)
        ensures
            value@.len() >= 2 ==> r is Ok && (r->Ok_0).spec_nuggets() == seq![
                BaseMetal::Lead(value@[0]),
                BaseMetal::Copper(value@[1]),
            ],
            value@.len() < 2 ==> r == Err::<Self, _>(AlloyError::InvalidConstituentAmounts),
    {
        if value.len() < 2 {
            Err(AlloyError::InvalidConstituentAmounts)
        } else {
            let mut v: Vec<BaseMetal<i32>> = Vec::new();
            v.push(BaseMetal::Lead(value[0]));
            v.push(BaseMetal::Copper(value[1]));
            proof {
                assert(v@ =~= seq![BaseMetal::Lead(value@[0]), BaseMetal::Copper(value@[1])]);
            }
            Ok(Molybdochalkos(v))
        }
    }
}

impl Default for Molybdochalkos {
    /// The recipe's default nugget vector.
    fn default() -> (r: Self)
        ensures
            r.spec_nuggets() == seq![BaseMetal::Lead(18i32), BaseMetal::Copper(2i32)],
    {
        let mut v: Vec<BaseMetal<i32>> = Vec::new();
        v.push(BaseMetal::Lead(18));
        v.push(BaseMetal::Copper(2));
        proof {
            assert(v@ =~= seq![BaseMetal::Lead(18i32), BaseMetal::Copper(2i32)]);
        }
        Molybdochalkos(v)
    }
}

/// Nuggets of tin and lead.
#[derive(PartialEq, Eq, Debug)]
pub struct LeadSolder(pub(crate) Vec<BaseMetal<i32>>);

impl LeadSolder {
    /// The tagged nugget counts, in canonical order.
    pub closed spec fn spec_nuggets(self) -> Seq<BaseMetal<i32>> {
        self.0@
    }

    /// The array of constituent nugget amounts.
    pub fn nuggets(&self) -> (r: &Vec<BaseMetal<i32>>)
        ensures
            r@ == self.spec_nuggets(),
    {
        &self.0
    }

    /// The tagged nugget counts, surrendering the container.
    pub(crate) fn into_nuggets(self) -> (r: Vec<BaseMetal<i32>>)
        ensures
            r@ == self.spec_nuggets(),
    {
        self.0
    }

    /// Wraps raw amounts in this alloy's tags: tin, then lead.
    pub fn try_from_vec(value: Vec<i32>) -> (r: Result<Self, AlloyError>)
        ensures
            value@.len() >= 2 ==> r is Ok && (r->Ok_0).spec_nuggets() == seq![
                BaseMetal::Tin(value@[0]),
                BaseMetal::Lead(value@[1]),
            ],
            value@.len() < 2 ==> r == Err::<Self, _>(AlloyError::InvalidConstituentAmounts),
    {
        if value.len() < 2 {
            Err(AlloyError::InvalidConstituentAmounts)
        } else {
            let mut v: Vec<BaseMetal<i32>> = Vec::new();
            v.push(BaseMetal::Tin(value[0]));
            v.push(BaseMetal::Lead(value[1]));
            proof {
                assert(v@ =~= seq![BaseMetal::Tin(value@[0]), BaseMetal::Lead(value@[1])]);
            }
            Ok(LeadSolder(v))
        }
    }
}

impl Default for LeadSolder {
    /// The recipe's default nugget vector.
    fn default() -> (r: Self)
        ensures
            r.spec_nuggets() == seq![BaseMetal::Tin(9i32), BaseMetal::Lead(11i32)],
    {
        let mut v: Vec<BaseMetal<i32>> = Vec::new();
        v.push(BaseMetal::Tin(9));
        v.push(BaseMetal::Lead(11));
        proof {
            assert(v@ =~= seq![BaseMetal::Tin(9i32), BaseMetal::Lead(11i32)]);
        }
        LeadSolder(v)
    }
}

/// Nuggets of tin and silver.
#[derive(PartialEq, Eq, Debug)]
pub struct SilverSolder(pub(crate) Vec<BaseMetal<i32>>);

impl SilverSolder {
    /// The tagged nugget counts, in canonical order.
    pub closed spec fn spec_nuggets(self) -> Seq<BaseMetal<i32>> {
        self.0@
    }

    /// The array of constituent nugget amounts.
    pub fn nuggets(&self) -> (r: &Vec<BaseMetal<i32>>)
        ensures
            r@ == self.spec_nuggets(),
    {
        &self.0
    }

    /// The tagged nugget counts, surrendering the container.
    pub(crate) fn into_nuggets(self) -> (r: Vec<BaseMetal<i32>>)
        ensures
            r@ == self.spec_nuggets(),
    {
        self.0
    }

    /// Wraps raw amounts in this alloy's tags: tin, then silver.
    pub fn try_from_vec(value: Vec<i32>) -> (r: Result<Self, AlloyError>)
        ensures
            value@.len() >= 2 ==> r is Ok && (r->Ok_0).spec_nuggets() == seq![
                BaseMetal::Tin(value@[0]),
                BaseMetal::Silver(value@[1]),
            ],
            value@.len() < 2 ==> r == Err::<Self, _>(AlloyError::InvalidConstituentAmounts),
    {
        if value.len() < 2 {
            Err(AlloyError::InvalidConstituentAmounts)
        } else {
            let mut v: Vec<BaseMetal<i32>> = Vec::new();
            v.push(BaseMetal::Tin(value[0]));
            v.push(BaseMetal::Silver(value[1]));
            proof {
                assert(v@ =~= seq![BaseMetal::Tin(value@[0]), BaseMetal::Silver(value@[1])]);
            }
            Ok(SilverSolder(v))
        }
    }
}

impl Default for SilverSolder {
    /// The recipe's default nugget vector.
    fn default() -> (r: Self)
        ensures
            r.spec_nuggets() == seq![BaseMetal::Tin(10i32), BaseMetal::Silver(10i32)],
    {
        let mut v: Vec<BaseMetal<i32>> = Vec::new();
        v.push(BaseMetal::Tin(10));
        v.push(BaseMetal::Silver(10));
        proof {
            assert(v@ =~= seq![BaseMetal::Tin(10i32), BaseMetal::Silver(10i32)]);
        }
        SilverSolder(v)
    }
}

/// Nuggets of gold and silver.
#[derive(PartialEq, Eq, Debug)]
pub struct Electrum(pub(crate) Vec<BaseMetal<i32>>);

impl Electrum {
    /// The tagged nugget counts, in canonical order.
    pub closed spec fn spec_nuggets(self) -> Seq<BaseMetal<i32>> {
        self.0@
    }

    /// The array of constituent nugget amounts.
    pub fn nuggets(&self) -> (r: &Vec<BaseMetal<i32>>)
        ensures
            r@ == self.spec_nuggets(),
    {
        &self.0
    }

    /// The tagged nugget counts, surrendering the container.
    pub(crate) fn into_nuggets(self) -> (r: Vec<BaseMetal<i32>>)
        ensures
            r@ == self.spec_nuggets(),
    {
        self.0
    }

    /// Wraps raw amounts in this alloy's tags: gold, then silver.
    pub fn try_from_vec(value: Vec<i32>) -> (r: Result<Self, AlloyError>)
        ensures
            value@.len() >= 2 ==> r is Ok && (r->Ok_0).spec_nuggets() == seq![
                BaseMetal::Gold(value@[0]),
                BaseMetal::Silver(value@[1]),
            ],
            value@.len() < 2 ==> r == Err::<Self, _>(AlloyError::InvalidConstituentAmounts),
    {
        if value.len() < 2 {
            Err(AlloyError::InvalidConstituentAmounts)
        } else {
            let mut v: Vec<BaseMetal<i32>> = Vec::new();
            v.push(BaseMetal::Gold(value[0]));
            v.push(BaseMetal::Silver(value[1]));
            proof {
                assert(v@ =~= seq![BaseMetal::Gold(value@[0]), BaseMetal::Silver(value@[1])]);
            }
            Ok(Electrum(v))
        }
    }
}

impl Default for Electrum {
    /// The recipe's default nugget vector.
    fn default() -> (r: Self)
        ensures
            r.spec_nuggets() == seq![BaseMetal::Gold(8i32), BaseMetal::Silver(12i32)],
    {
        let mut v: Vec<BaseMetal<i32>> = Vec::new();
        v.push(BaseMetal::Gold(8));
        v.push(BaseMetal::Silver(12));
        proof {
            assert(v@ =~= seq![BaseMetal::Gold(8i32), BaseMetal::Silver(12i32)]);
        }
        Electrum(v)
    }
}

/// Nuggets of copper and nickel.
#[derive(PartialEq, Eq, Debug)]
pub struct Cupronickel(pub(crate) Vec<BaseMetal<i32>>);

impl Cupronickel {
    /// The tagged nugget counts, in canonical order.
    pub closed spec fn spec_nuggets(self) -> Seq<BaseMetal<i32>> {
        self.0@
    }

    /// The array of constituent nugget amounts.
    pub fn nuggets(&self) -> (r: &Vec<BaseMetal<i32>>)
        ensures
            r@ == self.spec_nuggets(),
    {
        &self.0
    }

    /// The tagged nugget counts, surrendering the container.
    pub(crate) fn into_nuggets(self) -> (r: Vec<BaseMetal<i32>>)
        ensures
            r@ == self.spec_nuggets(),
    {
        self.0
    }

    /// Wraps raw amounts in this alloy's tags: copper, then nickel.
    pub fn try_from_vec(value: Vec<i32>) -> (r: Result<Self, AlloyError>)
        ensures
            value@.len() >= 2 ==> r is Ok && (r->Ok_0).spec_nuggets() == seq![
                BaseMetal::Copper(value@[0]),
                BaseMetal::Nickel(value@[1]),
            ],
            value@.len() < 2 ==> r == Err::<Self, _>(AlloyError::InvalidConstituentAmounts),
    {
        if value.len() < 2 {
            Err(AlloyError::InvalidConstituentAmounts)
        } else {
            let mut v: Vec<BaseMetal<i32>> = Vec::new();
            v.push(BaseMetal::Copper(value[0]));
            v.push(BaseMetal::Nickel(value[1]));
            proof {
                assert(v@ =~= seq![BaseMetal::Copper(value@[0]), BaseMetal::Nickel(value@[1])]);
            }
            Ok(Cupronickel(v))
        }
    }
}

impl Default for Cupronickel {
    /// The recipe's default nugget vector.
    fn default() -> (r: Self)
        ensures
            r.spec_nuggets() == seq![BaseMetal::Copper(15i32), BaseMetal::Nickel(5i32)],
    {
        let mut v: Vec<BaseMetal<i32>> = Vec::new();
        v.push(BaseMetal::Copper(15));
        v.push(BaseMetal::Nickel(5));
        proof {
            assert(v@ =~= seq![BaseMetal::Copper(15i32), BaseMetal::Nickel(5i32)]);
        }
        Cupronickel(v)
    }
}

} // verus!
