//! The caller-facing alloy handle: an alloy kind, its current canonical
//! composition, the requested ingot count, the largest achievable ingot
//! count, and the derived nugget vector. Mutators re-run validation and
//! recalculation and leave the handle untouched on error.

use vstd::prelude::*;

use crate::alloy_types::BismuthBronze;
use crate::alloy_types::BlackBronze;
use crate::alloy_types::Brass;
use crate::alloy_types::Cupronickel;
use crate::alloy_types::Electrum;
use crate::alloy_types::LeadSolder;
use crate::alloy_types::Molybdochalkos;
use crate::alloy_types::SilverSolder;
use crate::alloy_types::TinBronze;
use crate::base_metal::lemma_with_tag_id;
use crate::base_metal::BaseMetal;
use crate::compute::calculate_max_ingots;
use crate::compute::compute_amounts;
use crate::compute::corrected;
use crate::compute::lemma_corrected_sum;
use crate::compute::lemma_defaults_canonical;
use crate::compute::lemma_fits_one;
use crate::compute::lemma_max_ingots_bounds;
use crate::compute::lemma_max_ingots_fits;
use crate::compute::lemma_max_ingots_ge_one;
use crate::compute::lemma_sum_int_2;
use crate::compute::lemma_sum_int_3;
use crate::compute::lemma_sum_nuggets_2;
use crate::compute::lemma_sum_nuggets_3;
use crate::compute::nugget_cap;
use crate::compute::spec_max_ingots;
use crate::compute::sum_bp;
use crate::compute::sum_nuggets;
use crate::recipe::canonical_wf;
use crate::recipe::lemma_recipe_wf;
use crate::recipe::Alloys;
use crate::validate::spec_validate;
use crate::validate::validate_percentages;
use crate::AlloyError;
use crate::ConstituentRange;

verus! {

/// Whether `nv` is the corrected nugget vector for `n` ingots of the
/// canonical composition `p`, wrapped in the recipe's tags.
pub open spec fn nuggets_match(
    kind: Alloys,
    p: Seq<BaseMetal<u32>>,
    n: int,
    nv: Seq<BaseMetal<i32>>,
) -> bool {
    &&& nv.len() == kind.arity_spec()
    &&& forall|j: int| 0 <= j < nv.len() ==> (#[trigger] nv[j]).spec_tag() == kind.tag_at(j)
    &&& forall|j: int|
        0 <= j < nv.len() ==> (#[trigger] nv[j]).spec_value() as int == corrected(kind, p, n)[j]
}

/// Wraps raw nugget amounts in the tags of the alloy's recipe, in canonical
/// order, through the alloy's fixed-shape constructor.
fn tag_amounts(kind: Alloys, amounts: Vec<i32>) -> (r: Result<Vec<BaseMetal<i32>>, AlloyError>)
    ensures
        amounts@.len() >= kind.arity_spec() ==> r is Ok && (r->Ok_0)@.len() == kind.arity_spec()
            && (forall|j: int|
            0 <= j < kind.arity_spec() ==> (#[trigger] (r->Ok_0)@[j]).spec_tag() == kind.tag_at(j)
                && (r->Ok_0)@[j].spec_value() == amounts@[j]),
        amounts@.len() < kind.arity_spec() ==> r == Err::<Vec<BaseMetal<i32>>, _>(
            AlloyError::InvalidConstituentAmounts,
        ),
{
    match kind {
        Alloys::TinBronze => match TinBronze::try_from_vec(amounts) {
            Ok(t) => Ok(t.into_nuggets()),
            Err(e) => Err(e),
        },
        Alloys::BismuthBronze => match BismuthBronze::try_from_vec(amounts) {
            Ok(t) => Ok(t.into_nuggets()),
            Err(e) => Err(e),
        },
        Alloys::BlackBronze => match BlackBronze::try_from_vec(amounts) {
            Ok(t) => Ok(t.into_nuggets()),
            Err(e) => Err(e),
        },
        Alloys::Brass => match Brass::try_from_vec(amounts) {
            Ok(t) => Ok(t.into_nuggets()),
            Err(e) => Err(e),
        },
        Alloys::Molybdochalkos => match Molybdochalkos::try_from_vec(amounts) {
            Ok(t) => Ok(t.into_nuggets()),
            Err(e) => Err(e),
        },
        Alloys::LeadSolder => match LeadSolder::try_from_vec(amounts) {
            Ok(t) => Ok(t.into_nuggets()),
            Err(e) => Err(e),
        },
        Alloys::SilverSolder => match SilverSolder::try_from_vec(amounts) {
            Ok(t) => Ok(t.into_nuggets()),
            Err(e) => Err(e),
        },
        Alloys::Electrum => match Electrum::try_from_vec(amounts) {
            Ok(t) => Ok(t.into_nuggets()),
            Err(e) => Err(e),
        },
        Alloys::Cupronickel => match Cupronickel::try_from_vec(amounts) {
            Ok(t) => Ok(t.into_nuggets()),
            Err(e) => Err(e),
        },
    }
}

/// Derives the nugget vector and the largest achievable ingot count for a
/// canonical composition, failing when the request exceeds what fits.
fn get_updated_values(kind: Alloys, percentages: &Vec<BaseMetal<u32>>, num_ingots: i32) -> (r:
    Result<(Vec<BaseMetal<i32>>, i32), AlloyError>)
    requires
        canonical_wf(kind, percentages@),
        1 <= num_ingots <= 25,
    ensures
        match r {
            Err(e) => e == AlloyError::TooManyIngots && num_ingots as int > spec_max_ingots(
                percentages@,
            ),
            Ok((nv, mi)) => num_ingots as int <= spec_max_ingots(percentages@) && mi as int
                == spec_max_ingots(percentages@) && nuggets_match(
                kind,
                percentages@,
                num_ingots as int,
                nv@,
            ),
        },
{
    proof {
        lemma_recipe_wf(kind);
        assert(forall|j: int|
            0 <= j < percentages@.len() ==> (#[trigger] percentages@[j]).spec_value() <= 10000);
    }
    let max_ingots = calculate_max_ingots(percentages);
    if num_ingots > max_ingots {
        return Err(AlloyError::TooManyIngots);
    }
    proof {
        lemma_max_ingots_fits(percentages@, 25);
    }
    let amounts = compute_amounts(kind, percentages, num_ingots);
    let ghost gamounts = amounts@;
    match tag_amounts(kind, amounts) {
        Ok(nv) => {
            proof {
                assert forall|j: int| 0 <= j < nv@.len() implies (#[trigger] nv@[j]).spec_value()
                    as int == corrected(kind, percentages@, num_ingots as int)[j] by {
                    assert(nv@[j].spec_value() == gamounts[j]);
                }
            }
            Ok((nv, max_ingots))
        },
        Err(e) => {
            proof {
                assert(false);
            }
            Err(e)
        },
    }
}

/// Everything that holds of a handle built from accepted parts: the melt is
/// fully accounted for, the ingot counts are in bounds, and the nugget
/// vector sums to twenty nuggets per ingot and stays near every cap.
proof fn lemma_wf_parts(kind: Alloys, p: Seq<BaseMetal<u32>>, n: i32, mi: i32, nv: Seq<
    BaseMetal<i32>,
>)
    requires
        canonical_wf(kind, p),
        1 <= n <= 25,
        n as int <= spec_max_ingots(p),
        mi as int == spec_max_ingots(p),
        nuggets_match(kind, p, n as int, nv),
    ensures
        sum_bp(p) == 10000,
        n <= mi <= 25,
        sum_nuggets(nv) == 20 * n,
        forall|j: int| 0 <= j < nv.len() ==> 0 <= (#[trigger] nv[j]).spec_value(),
        forall|j: int|
            1 <= j < nv.len() ==> (#[trigger] nv[j]).spec_value() as int <= nugget_cap(
                kind,
                n as int,
                j,
            ) + 1,
        forall|j: int|
            1 <= j < nv.len() - 1 ==> (#[trigger] nv[j]).spec_value() as int <= nugget_cap(
                kind,
                n as int,
                j,
            ),
        nv.len() == 2 ==> nv[1].spec_value() as int <= nugget_cap(kind, n as int, 1),
{
    lemma_recipe_wf(kind);
    lemma_max_ingots_bounds(p, 25);
    lemma_max_ingots_fits(p, 25);
    lemma_corrected_sum(kind, p, n as int);
    crate::compute::lemma_corrected_near_range(kind, p, n as int);
    let cor = corrected(kind, p, n as int);
    if nv.len() == 2 {
        lemma_sum_nuggets_2(nv);
        lemma_sum_int_2(cor);
    } else {
        lemma_sum_nuggets_3(nv);
        lemma_sum_int_3(cor);
    }
}

/// A handle on one alloy: the kind, the canonical composition, the current
/// and the largest achievable ingot count, and the nugget vector.
#[derive(PartialEq, Eq, Debug)]
pub struct AlloyData {
    kind: Alloys,
    percentages: Vec<BaseMetal<u32>>,
    num_ingots: i32,
    max_ingots: i32,
    nuggets: Vec<BaseMetal<i32>>,
}

impl AlloyData {
    /// The alloy kind.
    pub closed spec fn kind_spec(self) -> Alloys {
        self.kind
    }

    /// The canonical composition, in basis points.
    pub closed spec fn percentages_spec(self) -> Seq<BaseMetal<u32>> {
        self.percentages@
    }

    /// The requested ingot count.
    pub closed spec fn num_ingots_spec(self) -> i32 {
        self.num_ingots
    }

    /// The largest achievable ingot count at the current composition.
    pub closed spec fn max_ingots_spec(self) -> i32 {
        self.max_ingots
    }

    /// The derived nugget vector, in canonical order.
    pub closed spec fn nuggets_spec(self) -> Seq<BaseMetal<i32>> {
        self.nuggets@
    }

    /// The invariant of every handle: the composition is canonical for the
    /// kind and accounts for the whole melt; the ingot count lies between
    /// one and the largest achievable count, which itself never exceeds the
    /// crucible's limit of 25 and is exactly what the composition allows;
    /// and the nugget vector carries the recipe's base metals in canonical
    /// order, sums to twenty nuggets per ingot, and respects each
    /// constituent's cap after the first, with at most one nugget of slack
    /// at the last position of a three-part alloy.
    pub open spec fn wf(self) -> bool {
        &&& canonical_wf(self.kind_spec(), self.percentages_spec())
        &&& sum_bp(self.percentages_spec()) == 10000
        &&& 1 <= self.num_ingots_spec() <= self.max_ingots_spec() <= 25
        &&& self.max_ingots_spec() as int == spec_max_ingots(self.percentages_spec())
        &&& self.nuggets_spec().len() == self.kind_spec().arity_spec()
        &&& forall|j: int|
            0 <= j < self.nuggets_spec().len() ==> (#[trigger] self.nuggets_spec()[j]).spec_tag()
                == self.kind_spec().tag_at(j)
        &&& forall|j: int|
            0 <= j < self.nuggets_spec().len() ==> 0 <= (
            #[trigger] self.nuggets_spec()[j]).spec_value()
        &&& sum_nuggets(self.nuggets_spec()) == 20 * self.num_ingots_spec()
        &&& forall|j: int|
            1 <= j < self.nuggets_spec().len() ==> (#[trigger] self.nuggets_spec()[j]).spec_value()
                as int <= nugget_cap(self.kind_spec(), self.num_ingots_spec() as int, j) + 1
        &&& forall|j: int|
            1 <= j < self.nuggets_spec().len() - 1 ==> (
            #[trigger] self.nuggets_spec()[j]).spec_value() as int <= nugget_cap(
                self.kind_spec(),
                self.num_ingots_spec() as int,
                j,
            )
        &&& (self.nuggets_spec().len() == 2 ==> self.nuggets_spec()[1].spec_value() as int
            <= nugget_cap(self.kind_spec(), self.num_ingots_spec() as int, 1))
    }

    /// Tries to create a new handle. Checks the ingot bounds, validates the
    /// composition, and derives the remaining values; any failure returns
    /// the error and no handle.
    pub fn try_new(kind: Alloys, percentages: &Vec<BaseMetal<u32>>, num_ingots: i32) -> (r: Result<
        AlloyData,
        AlloyError,
    >)
        ensures
            num_ingots > 25 ==> r == Err::<AlloyData, AlloyError>(AlloyError::TooManyIngots),
            num_ingots <= 0 ==> r == Err::<AlloyData, AlloyError>(AlloyError::TooFewIngots),
            1 <= num_ingots <= 25 ==> (match spec_validate(kind, percentages@) {
                Err(e) => r == Err::<AlloyData, AlloyError>(e),
                Ok(q) => (if num_ingots as int > spec_max_ingots(q) {
                    r == Err::<AlloyData, AlloyError>(AlloyError::TooManyIngots)
                } else {
                    r is Ok && (r->Ok_0).wf() && (r->Ok_0).kind_spec() == kind && (
                    r->Ok_0).percentages_spec() == q && (r->Ok_0).num_ingots_spec() == num_ingots
                        && (r->Ok_0).max_ingots_spec() as int == spec_max_ingots(q)
                        && nuggets_match(kind, q, num_ingots as int, (r->Ok_0).nuggets_spec())
                }),
            }),
    {
        if num_ingots > crate::unit_constants::MAX_POSSIBLE_INGOTS {
            Err(AlloyError::TooManyIngots)
        } else if num_ingots <= 0 {
            Err(AlloyError::TooFewIngots)
        } else {
            match validate_percentages(kind, percentages) {
                Ok(p) => {
                    match get_updated_values(kind, &p, num_ingots) {
                        Ok((nv, mi)) => {
                            proof {
                                lemma_wf_parts(kind, p@, num_ingots, mi, nv@);
                            }
                            Ok(
                                AlloyData {
                                    kind,
                                    percentages: p,
                                    num_ingots,
                                    max_ingots: mi,
                                    nuggets: nv,
                                },
                            )
                        },
                        Err(e) => Err(e),
                    }
                },
                Err(e) => Err(e),
            }
        }
    }

    /// The recipe's default handle: the default composition, nugget vector
    /// and maximum from the recipe table, at one ingot, with no validation
    /// to re-run.
    pub fn get_default(kind: Alloys) -> (h: AlloyData)
        ensures
            h.wf(),
            h.kind_spec() == kind,
            h.percentages_spec() == kind.defaults_seq(),
            h.num_ingots_spec() == 1,
            h.max_ingots_spec() as int == spec_max_ingots(kind.defaults_seq()),
            h.max_ingots_spec() as int == kind.default_max_ingots(),
            h.nuggets_spec() == kind.default_nuggets_seq(),
    {
        proof {
            lemma_recipe_wf(kind);
            lemma_defaults_canonical(kind);
            crate::compute::lemma_default_max_ingots(kind);
            lemma_fits_one(kind, kind.defaults_seq());
            lemma_max_ingots_ge_one(kind.defaults_seq(), 25);
            lemma_max_ingots_bounds(kind.defaults_seq(), 25);
        }
        let p = kind.default_percentages();
        let max_ingots = calculate_max_ingots(&p);
        let nuggets: Vec<BaseMetal<i32>> = match kind {
            Alloys::TinBronze => TinBronze::default().into_nuggets(),
            Alloys::BismuthBronze => BismuthBronze::default().into_nuggets(),
            Alloys::BlackBronze => BlackBronze::default().into_nuggets(),
            Alloys::Brass => Brass::default().into_nuggets(),
            Alloys::Molybdochalkos => Molybdochalkos::default().into_nuggets(),
            Alloys::LeadSolder => LeadSolder::default().into_nuggets(),
            Alloys::SilverSolder => SilverSolder::default().into_nuggets(),
            Alloys::Electrum => Electrum::default().into_nuggets(),
            Alloys::Cupronickel => Cupronickel::default().into_nuggets(),
        };
        proof {
            assert(nuggets@ =~= kind.default_nuggets_seq());
            assert forall|j: int| 0 <= j < nuggets@.len() implies (
            #[trigger] nuggets@[j]).spec_tag() == kind.tag_at(j) && nuggets@[j].spec_value()
                == kind.default_nugget_at(j) by {
                lemma_with_tag_id(kind.tag_at(j), kind.default_nugget_at(j));
            }
            if nuggets@.len() == 2 {
                lemma_sum_nuggets_2(nuggets@);
            } else {
                lemma_sum_nuggets_3(nuggets@);
            }
        }
        AlloyData { kind, percentages: p, num_ingots: 1, max_ingots, nuggets }
    }

    /// The alloy kind of this handle.
    pub fn kind(&self) -> (r: Alloys)
        ensures
            r == self.kind_spec(),
    {
        self.kind
    }

    /// The number of nuggets of each constituent needed to create the
    /// current number of ingots with the current constituent ratios.
    pub fn nuggets(&self) -> (r: &Vec<BaseMetal<i32>>)
        ensures
            r@ == self.nuggets_spec(),
    {
        &self.nuggets
    }

    /// The current number of ingots.
    pub fn num_ingots(&self) -> (r: i32)
        ensures
            r == self.num_ingots_spec(),
    {
        self.num_ingots
    }

    /// The largest number of ingots possible with the current constituent
    /// percentages.
    pub fn max_ingots(&self) -> (r: i32)
        ensures
            r == self.max_ingots_spec(),
    {
        self.max_ingots
    }

    /// The percentages of the constituents of the alloy, in canonical order
    /// and basis points.
    pub fn percentages(&self) -> (r: &Vec<BaseMetal<u32>>)
        ensures
            r@ == self.percentages_spec(),
    {
        &self.percentages
    }

    /// The ranges of percentages allowed for the constituents of this
    /// handle's alloy, in canonical order.
    pub fn percentage_ranges(&self) -> (v: Vec<BaseMetal<ConstituentRange>>)
        ensures
            v@ == self.kind_spec().ranges_seq(),
    {
        self.kind.percentage_ranges()
    }

    /// Checks whether the supplied percentages are valid for the given
    /// alloy. Returns the validated percentages reordered to canonical
    /// order, or the error of the first check that fails.
    pub fn check_valid_percentages(kind: Alloys, percentages: &Vec<BaseMetal<u32>>) -> (r: Result<
        Vec<BaseMetal<u32>>,
        AlloyError,
    >)
        ensures
            match r {
                Ok(v) => spec_validate(kind, percentages@) == Ok::<_, AlloyError>(v@),
                Err(e) => spec_validate(kind, percentages@) == Err::<Seq<BaseMetal<u32>>, _>(e),
            },
    {
        validate_percentages(kind, percentages)
    }

    /// Tries to update the alloy's values. Should be handed new percentages,
    /// a new ingot count, or both, but never neither. On any failure the
    /// handle is left exactly as it was.
    fn update_values(
        &mut self,
        percentages: Option<Vec<BaseMetal<u32>>>,
        num_ingots: Option<i32>,
    ) -> (r: Result<(), AlloyError>)
        requires
            old(self).wf(),
            percentages matches Some(p) ==> canonical_wf(old(self).kind_spec(), p@),
            num_ingots matches Some(n) ==> 1 <= n <= 25,
        ensures
            final(self).wf(),
            r is Err ==> *final(self) == *old(self),
            r is Err ==> (match (percentages, num_ingots) {
                (None, None) => r == Err::<(), AlloyError>(AlloyError::InvalidValues),
                (Some(p), Some(n)) => r == Err::<(), AlloyError>(AlloyError::TooManyIngots)
                    && n as int > spec_max_ingots(p@),
                (Some(p), None) => r == Err::<(), AlloyError>(AlloyError::TooManyIngots)
                    && old(self).num_ingots_spec() as int > spec_max_ingots(p@),
                (None, Some(n)) => r == Err::<(), AlloyError>(AlloyError::TooManyIngots) && n as int
                    > spec_max_ingots(old(self).percentages_spec()),
            }),
            r is Ok ==> final(self).kind_spec() == old(self).kind_spec()
                && final(self).percentages_spec() == (match percentages {
                Some(p) => p@,
                None => old(self).percentages_spec(),
            }) && final(self).num_ingots_spec() == (match num_ingots {
                Some(n) => n,
                None => old(self).num_ingots_spec(),
            }) && nuggets_match(
                final(self).kind_spec(),
                final(self).percentages_spec(),
                final(self).num_ingots_spec() as int,
                final(self).nuggets_spec(),
            ),
    {
        match (percentages, num_ingots) {
            (Some(p), Some(n)) => {
                match get_updated_values(self.kind, &p, n) {
                    Ok((nv, mi)) => {
                        proof {
                            lemma_wf_parts(self.kind, p@, n, mi, nv@);
                        }
                        self.percentages = p;
                        self.num_ingots = n;
                        self.nuggets = nv;
                        self.max_ingots = mi;
                        Ok(())
                    },
                    Err(e) => Err(e),
                }
            },
            (Some(p), None) => {
                let n = self.num_ingots;
                match get_updated_values(self.kind, &p, n) {
                    Ok((nv, mi)) => {
                        proof {
                            lemma_wf_parts(self.kind, p@, n, mi, nv@);
                        }
                        self.percentages = p;
                        self.nuggets = nv;
                        self.max_ingots = mi;
                        Ok(())
                    },
                    Err(e) => Err(e),
                }
            },
            (None, Some(n)) => {
                match get_updated_values(self.kind, &self.percentages, n) {
                    Ok((nv, mi)) => {
                        proof {
                            lemma_wf_parts(self.kind, self.percentages@, n, mi, nv@);
                        }
                        self.num_ingots = n;
                        self.nuggets = nv;
                        self.max_ingots = mi;
                        Ok(())
                    },
                    Err(e) => Err(e),
                }
            },
            (None, None) => Err(AlloyError::InvalidValues),
        }
    }

    /// Tries to update the number of ingots for the alloy, recomputing the
    /// nugget vector on success. On error the handle is left exactly as it
    /// was: too few for a request of zero or less, too many for one beyond
    /// the current maximum.
    pub fn set_num_ingots(&mut self, num_ingots: i32) -> (r: Result<(), AlloyError>)
        requires
            old(self).wf(),
        ensures
            final(self).wf(),
            r is Err ==> *final(self) == *old(self),
            num_ingots <= 0 ==> r == Err::<(), AlloyError>(AlloyError::TooFewIngots),
            num_ingots > 0 && num_ingots > old(self).max_ingots_spec() ==> r == Err::<
                (),
                AlloyError,
            >(AlloyError::TooManyIngots),
            1 <= num_ingots <= old(self).max_ingots_spec() ==> r is Ok
                && final(self).kind_spec() == old(self).kind_spec()
                && final(self).percentages_spec() == old(self).percentages_spec()
                && final(self).num_ingots_spec() == num_ingots
                && final(self).max_ingots_spec() == old(self).max_ingots_spec()
                && nuggets_match(
                final(self).kind_spec(),
                final(self).percentages_spec(),
                num_ingots as int,
                final(self).nuggets_spec(),
            ),
    {
        if num_ingots <= 0 {
            Err(AlloyError::TooFewIngots)
        } else if self.max_ingots < num_ingots {
            Err(AlloyError::TooManyIngots)
        } else {
            let r = self.update_values(None, Some(num_ingots));
            proof {
                if r is Err {
                    assert(false);
                }
            }
            r
        }
    }

    /// Tries to update the percentages for the alloy, revalidating them and
    /// recomputing the nugget vector and the maximum at the current ingot
    /// count. On error the handle is left exactly as it was.
    pub fn set_percentages(&mut self, percentages: &Vec<BaseMetal<u32>>) -> (r: Result<
        (),
        AlloyError,
    >)
        requires
            old(self).wf(),
        ensures
            final(self).wf(),
            r is Err ==> *final(self) == *old(self),
            match spec_validate(old(self).kind_spec(), percentages@) {
                Err(e) => r == Err::<(), AlloyError>(e),
                Ok(q) => (if old(self).num_ingots_spec() as int > spec_max_ingots(q) {
                    r == Err::<(), AlloyError>(AlloyError::TooManyIngots)
                } else {
                    r is Ok && final(self).kind_spec() == old(self).kind_spec()
                        && final(self).percentages_spec() == q
                        && final(self).num_ingots_spec() == old(self).num_ingots_spec()
                        && final(self).max_ingots_spec() as int == spec_max_ingots(q)
                        && nuggets_match(
                        final(self).kind_spec(),
                        q,
                        final(self).num_ingots_spec() as int,
                        final(self).nuggets_spec(),
                    )
                }),
            },
    {
        match validate_percentages(self.kind, percentages) {
            Ok(p) => self.update_values(Some(p), None),
            Err(e) => Err(e),
        }
    }
}

// ---------------------------------------------------------------------------
// Laws of every valid handle.
// ---------------------------------------------------------------------------

/// Sum of nuggets: every valid handle asks for exactly twenty nuggets per
/// requested ingot, across its constituents.
pub proof fn lemma_sum_of_nuggets(h: AlloyData)
    requires
        h.wf(),
    ensures
        sum_nuggets(h.nuggets_spec()) == 20 * h.num_ingots_spec(),
{
}

/// Ingot bounds: every valid handle requests at least one ingot, at most
/// its own maximum, which never exceeds the crucible's limit of 25.
pub proof fn lemma_ingot_bounds(h: AlloyData)
    requires
        h.wf(),
    ensures
        1 <= h.num_ingots_spec() <= h.max_ingots_spec() <= 25,
{
}

/// Range containment: no constituent after the first receives more than one
/// nugget beyond what the upper end of its range allows of the total, and
/// only the last constituent of a three-part alloy can exceed it at all.
pub proof fn lemma_nuggets_near_caps(h: AlloyData)
    requires
        h.wf(),
    ensures
        forall|j: int|
            1 <= j < h.nuggets_spec().len() ==> (#[trigger] h.nuggets_spec()[j]).spec_value() as int
                <= crate::compute::nugget_cap(h.kind_spec(), h.num_ingots_spec() as int, j) + 1,
        forall|j: int|
            1 <= j < h.nuggets_spec().len() - 1 ==> (#[trigger] h.nuggets_spec()[j]).spec_value()
                as int <= crate::compute::nugget_cap(h.kind_spec(), h.num_ingots_spec() as int, j),
        h.nuggets_spec().len() == 2 ==> h.nuggets_spec()[1].spec_value() as int
            <= crate::compute::nugget_cap(h.kind_spec(), h.num_ingots_spec() as int, 1),
{
}

/// Canonicalization: two handles built from one legal composition, supplied
/// in any two orders related by a permutation, hold identical percentages —
/// and with an equal ingot count their derived values agree as well, since
/// every derived field is a function of the kind, the canonical percentages
/// and the ingot count.
pub proof fn lemma_handle_canonicalization(
    kind: Alloys,
    p1: Seq<BaseMetal<u32>>,
    p2: Seq<BaseMetal<u32>>,
    perm: Seq<int>,
    h1: AlloyData,
    h2: AlloyData,
)
    requires
        perm.len() == p1.len(),
        p2.len() == p1.len(),
        forall|i: int| 0 <= i < perm.len() ==> 0 <= #[trigger] perm[i] < p1.len(),
        forall|i1: int, i2: int|
            0 <= i1 < i2 < perm.len() ==> #[trigger] perm[i1] != #[trigger] perm[i2],
        forall|i: int| 0 <= i < p2.len() ==> #[trigger] p2[i] == p1[perm[i]],
        spec_validate(kind, p1) is Ok,
        h1.percentages_spec() == spec_validate(kind, p1)->Ok_0,
        h2.percentages_spec() == spec_validate(kind, p2)->Ok_0,
    ensures
        h1.percentages_spec() == h2.percentages_spec(),
{
    crate::validate::lemma_validate_permutation(kind, p1, p2, perm);
}

/// Range containment, in full, for a handle whose nugget vector was derived
/// from its composition, as every constructed or updated handle's is: when
/// the uncorrected vector either already sums to twenty nuggets per ingot or
/// keeps its last entry within its cap, every constituent after the first
/// stays within the upper end of its range applied to the total nugget
/// count. Two-part alloys always do.
pub proof fn lemma_nuggets_within_caps(h: AlloyData)
    requires
        h.wf(),
        nuggets_match(
            h.kind_spec(),
            h.percentages_spec(),
            h.num_ingots_spec() as int,
            h.nuggets_spec(),
        ),
        h.nuggets_spec().len() == 2 || crate::compute::sum_int(
            crate::compute::raw_nuggets(h.percentages_spec(), h.num_ingots_spec() as int),
        ) == 20 * h.num_ingots_spec() || crate::compute::raw_nuggets(
            h.percentages_spec(),
            h.num_ingots_spec() as int,
        )[h.nuggets_spec().len() - 1] <= crate::compute::nugget_cap(
            h.kind_spec(),
            h.num_ingots_spec() as int,
            h.nuggets_spec().len() - 1,
        ),
    ensures
        forall|j: int|
            1 <= j < h.nuggets_spec().len() ==> (#[trigger] h.nuggets_spec()[j]).spec_value() as int
                <= crate::compute::nugget_cap(h.kind_spec(), h.num_ingots_spec() as int, j),
{
    crate::compute::lemma_corrected_in_range(
        h.kind_spec(),
        h.percentages_spec(),
        h.num_ingots_spec() as int,
    );
}

} // verus!
