//! The base metals that alloys are made of, and the carrier that pairs a
//! base metal with a payload: a nugget count, a percentage, or a percentage
//! range.

use vstd::prelude::*;

verus! {

/// The eight base metals, without a payload.
#[derive(Clone, Copy, PartialEq, Eq, Structural, Debug)]
pub enum MetalTag {
    Nickel,
    Copper,
    Zinc,
    Silver,
    Tin,
    Gold,
    Lead,
    Bismuth,
}

/// A base metal together with one payload of arbitrary type.
#[derive(Clone, Copy, PartialEq, Eq, Structural, Debug)]
pub enum BaseMetal<T> {
    Nickel(T),
    Copper(T),
    Zinc(T),
    Silver(T),
    Tin(T),
    Gold(T),
    Lead(T),
    Bismuth(T),
}

/// The carrier with the given tag and payload.
pub open spec fn with_tag<T>(tag: MetalTag, value: T) -> BaseMetal<T> {
    match tag {
        MetalTag::Nickel => BaseMetal::Nickel(value),
        MetalTag::Copper => BaseMetal::Copper(value),
        MetalTag::Zinc => BaseMetal::Zinc(value),
        MetalTag::Silver => BaseMetal::Silver(value),
        MetalTag::Tin => BaseMetal::Tin(value),
        MetalTag::Gold => BaseMetal::Gold(value),
        MetalTag::Lead => BaseMetal::Lead(value),
        MetalTag::Bismuth => BaseMetal::Bismuth(value),
    }
}

/// A carrier is exactly its tag paired with its payload.
pub proof fn lemma_with_tag_id<T>(tag: MetalTag, value: T)
    ensures
        with_tag(tag, value).spec_tag() == tag,
        with_tag(tag, value).spec_value() == value,
        forall|x: BaseMetal<T>| #![all_triggers] with_tag(x.spec_tag(), x.spec_value()) == x,
{
}

impl<T> BaseMetal<T> {
    /// Which base metal this carrier holds.
    pub open spec fn spec_tag(self) -> MetalTag {
        match self {
            BaseMetal::Nickel(_) => MetalTag::Nickel,
            BaseMetal::Copper(_) => MetalTag::Copper,
            BaseMetal::Zinc(_) => MetalTag::Zinc,
            BaseMetal::Silver(_) => MetalTag::Silver,
            BaseMetal::Tin(_) => MetalTag::Tin,
            BaseMetal::Gold(_) => MetalTag::Gold,
            BaseMetal::Lead(_) => MetalTag::Lead,
            BaseMetal::Bismuth(_) => MetalTag::Bismuth,
        }
    }

    /// The payload.
    pub open spec fn spec_value(self) -> T {
        match self {
            BaseMetal::Nickel(t) => t,
            BaseMetal::Copper(t) => t,
            BaseMetal::Zinc(t) => t,
            BaseMetal::Silver(t) => t,
            BaseMetal::Tin(t) => t,
            BaseMetal::Gold(t) => t,
            BaseMetal::Lead(t) => t,
            BaseMetal::Bismuth(t) => t,
        }
    }

    /// The display name of the base metal.
    pub open spec fn spec_name(self) -> Seq<char> {
        match self {
            BaseMetal::Nickel(_) => "Nickel"@,
            BaseMetal::Copper(_) => "Copper"@,
            BaseMetal::Zinc(_) => "Zinc"@,
            BaseMetal::Silver(_) => "Silver"@,
            BaseMetal::Tin(_) => "Tin"@,
            BaseMetal::Gold(_) => "Gold"@,
            BaseMetal::Lead(_) => "Lead"@,
            BaseMetal::Bismuth(_) => "Bismuth"@,
        }
    }

    pub fn tag(&self) -> (t: MetalTag)
        ensures
            t == self.spec_tag(),
    {
        match self {
            BaseMetal::Nickel(_) => MetalTag::Nickel,
            BaseMetal::Copper(_) => MetalTag::Copper,
            BaseMetal::Zinc(_) => MetalTag::Zinc,
            BaseMetal::Silver(_) => MetalTag::Silver,
            BaseMetal::Tin(_) => MetalTag::Tin,
            BaseMetal::Gold(_) => MetalTag::Gold,
            BaseMetal::Lead(_) => MetalTag::Lead,
            BaseMetal::Bismuth(_) => MetalTag::Bismuth,
        }
    }

    /// Returns the name of the base metal variant as a string.
    pub fn name(&self) -> (r: &'static str)
        ensures
            r@ == self.spec_name(),
    {
        match self {
            BaseMetal::Nickel(_) => "Nickel",
            BaseMetal::Copper(_) => "Copper",
            BaseMetal::Zinc(_) => "Zinc",
            BaseMetal::Silver(_) => "Silver",
            BaseMetal::Tin(_) => "Tin",
            BaseMetal::Gold(_) => "Gold",
            BaseMetal::Lead(_) => "Lead",
            BaseMetal::Bismuth(_) => "Bismuth",
        }
    }
}

impl<T: Copy> BaseMetal<T> {
    /// The payload.
    pub fn value(&self) -> (v: T)
        ensures
            v == self.spec_value(),
    {
        match self {
            BaseMetal::Nickel(t) => *t,
            BaseMetal::Copper(t) => *t,
            BaseMetal::Zinc(t) => *t,
            BaseMetal::Silver(t) => *t,
            BaseMetal::Tin(t) => *t,
            BaseMetal::Gold(t) => *t,
            BaseMetal::Lead(t) => *t,
            BaseMetal::Bismuth(t) => *t,
        }
    }

    /// Updates the base metal with the new value in place.
    pub fn update(&mut self, value: T)
        ensures
            *final(self) == with_tag(old(self).spec_tag(), value),
    {
        match self {
            BaseMetal::Nickel(_) => *self = BaseMetal::Nickel(value),
            BaseMetal::Copper(_) => *self = BaseMetal::Copper(value),
            BaseMetal::Zinc(_) => *self = BaseMetal::Zinc(value),
            BaseMetal::Silver(_) => *self = BaseMetal::Silver(value),
            BaseMetal::Tin(_) => *self = BaseMetal::Tin(value),
            BaseMetal::Gold(_) => *self = BaseMetal::Gold(value),
            BaseMetal::Lead(_) => *self = BaseMetal::Lead(value),
            BaseMetal::Bismuth(_) => *self = BaseMetal::Bismuth(value),
        }
    }

    /// Creates a new instance of the same base metal but with a new inner
    /// value and possibly a new payload type.
    pub fn update_inner_value<U: Copy>(&self, value: U) -> (r: BaseMetal<U>)
        ensures
            r == with_tag(self.spec_tag(), value),
    {
        match self {
            BaseMetal::Nickel(_) => BaseMetal::Nickel(value),
            BaseMetal::Copper(_) => BaseMetal::Copper(value),
            BaseMetal::Zinc(_) => BaseMetal::Zinc(value),
            BaseMetal::Silver(_) => BaseMetal::Silver(value),
            BaseMetal::Tin(_) => BaseMetal::Tin(value),
            BaseMetal::Gold(_) => BaseMetal::Gold(value),
            BaseMetal::Lead(_) => BaseMetal::Lead(value),
            BaseMetal::Bismuth(_) => BaseMetal::Bismuth(value),
        }
    }
}

} // verus!
