//! The validation engine: checks that a proposed composition uses exactly
//! the constituents of the alloy's recipe, each exactly once and inside its
//! range, with a sum close to 100%, and reorders it to the recipe's
//! canonical order.

use vstd::prelude::*;

use crate::base_metal::lemma_with_tag_id;
use crate::base_metal::with_tag;
use crate::base_metal::BaseMetal;
use crate::base_metal::MetalTag;
use crate::compute::lemma_sum_bp_2;
use crate::compute::lemma_sum_bp_3;
use crate::compute::sum_bp;
use crate::recipe::canonical_wf;
use crate::recipe::lemma_recipe_wf;
use crate::recipe::Alloys;
use crate::unit_constants::PERCENT_SCALE;
use crate::unit_constants::PERCENT_TOLERANCE;
use crate::AlloyError;

verus! {

/// The position of base metal `t` in the alloy's canonical order, or -1 when
/// the recipe does not use it.
pub open spec fn tag_index(kind: Alloys, t: MetalTag) -> int {
    if kind.tag_at(0) == t {
        0
    } else if kind.tag_at(1) == t {
        1
    } else if kind.arity_spec() == 3 && kind.tag_at(2) == t {
        2
    } else {
        -1
    }
}

/// Whether the summed percentages differ from 100% by less than the
/// tolerance of one percent point.
pub open spec fn sum_within_tolerance(items: Seq<BaseMetal<u32>>) -> bool {
    PERCENT_SCALE - PERCENT_TOLERANCE < sum_bp(items) < PERCENT_SCALE + PERCENT_TOLERANCE
}

/// The error item `i` contributes when the items before it were accepted: an
/// unknown or repeated base metal, or a percentage outside its range.
pub open spec fn item_error(kind: Alloys, items: Seq<BaseMetal<u32>>, i: int) -> Option<
    AlloyError,
> {
    let t = items[i].spec_tag();
    let j = tag_index(kind, t);
    if j < 0 {
        Some(AlloyError::InvalidBaseMetals)
    } else if exists|i2: int| 0 <= i2 < i && items[i2].spec_tag() == t {
        Some(AlloyError::InvalidBaseMetals)
    } else if !kind.range_at(j).spec_contains(items[i].spec_value()) {
        Some(AlloyError::InvalidPercentages)
    } else {
        None
    }
}

/// The first error that scanning the items in the order supplied, from
/// position `i` on, runs into.
pub open spec fn first_error_from(kind: Alloys, items: Seq<BaseMetal<u32>>, i: int) -> Option<
    AlloyError,
>
    decreases items.len() - i,
{
    if i >= items.len() {
        None
    } else if item_error(kind, items, i) is Some {
        item_error(kind, items, i)
    } else {
        first_error_from(kind, items, i + 1)
    }
}

/// The first position at or after `i` that carries base metal `t`, or the
/// length when none does.
pub open spec fn first_with_tag(items: Seq<BaseMetal<u32>>, t: MetalTag, i: int) -> int
    decreases items.len() - i,
{
    if i >= items.len() {
        items.len() as int
    } else if items[i].spec_tag() == t {
        i
    } else {
        first_with_tag(items, t, i + 1)
    }
}

/// The percentage supplied for base metal `t`: the payload of the first item
/// that carries it.
pub open spec fn payload_at(items: Seq<BaseMetal<u32>>, t: MetalTag) -> u32 {
    items[first_with_tag(items, t, 0)].spec_value()
}

/// The composition reordered to the recipe's canonical order.
pub open spec fn canon(kind: Alloys, items: Seq<BaseMetal<u32>>) -> Seq<BaseMetal<u32>> {
    Seq::new(
        kind.arity_spec() as nat,
        |j: int| with_tag(kind.tag_at(j), payload_at(items, kind.tag_at(j))),
    )
}

/// What validation returns: the canonical reordering when the composition
/// has one entry per recipe constituent whose percentages sum close enough
/// to 100%, each carrying a recipe base metal at most once with a percentage
/// in its range; otherwise the error of the first check that fails, with the
/// length checked first, the sum second, and the items scanned in the order
/// supplied.
pub open spec fn spec_validate(kind: Alloys, items: Seq<BaseMetal<u32>>) -> Result<
    Seq<BaseMetal<u32>>,
    AlloyError,
> {
    if items.len() != kind.arity_spec() {
        Err(AlloyError::InvalidPercentages)
    } else if !sum_within_tolerance(items) {
        Err(AlloyError::InvalidPercentages)
    } else {
        match first_error_from(kind, items, 0) {
            Some(e) => Err(e),
            None => Ok(canon(kind, items)),
        }
    }
}

// ---------------------------------------------------------------------------
// Facts about the scan.
// ---------------------------------------------------------------------------

/// The first position with a tag is a position with that tag, and no
/// earlier position has it.
proof fn lemma_first_with_tag_props(items: Seq<BaseMetal<u32>>, t: MetalTag, i: int)
    requires
        0 <= i <= items.len(),
    ensures
        i <= first_with_tag(items, t, i) <= items.len(),
        first_with_tag(items, t, i) < items.len() ==> items[first_with_tag(
            items,
            t,
            i,
        )].spec_tag() == t,
        forall|k: int|
            i <= k < first_with_tag(items, t, i) ==> (#[trigger] items[k]).spec_tag() != t,
    decreases items.len() - i,
{
    if i < items.len() && items[i].spec_tag() != t {
        lemma_first_with_tag_props(items, t, i + 1);
    }
}

/// Scanning finds no error exactly when no item contributes one.
proof fn lemma_first_error_none_iff(kind: Alloys, items: Seq<BaseMetal<u32>>, i: int)
    requires
        0 <= i <= items.len(),
    ensures
        first_error_from(kind, items, i) == None::<AlloyError> <==> (forall|k: int|
            i <= k < items.len() ==> #[trigger] item_error(kind, items, k) == None::<AlloyError>),
    decreases items.len() - i,
{
    if i < items.len() {
        lemma_first_error_none_iff(kind, items, i + 1);
    }
}

/// Scanning starts at the first item whose error is still open.
proof fn lemma_first_error_skip(kind: Alloys, items: Seq<BaseMetal<u32>>, i: int)
    requires
        0 <= i <= items.len(),
        forall|k: int| 0 <= k < i ==> #[trigger] item_error(kind, items, k) == None::<AlloyError>,
    ensures
        first_error_from(kind, items, 0) == first_error_from(kind, items, i),
    decreases i,
{
    if i > 0 {
        lemma_first_error_skip(kind, items, i - 1);
        assert(first_error_from(kind, items, i - 1) == first_error_from(kind, items, i));
    }
}

/// When no item contributes an error, every item carries a recipe base
/// metal, no two items carry the same one, and every percentage lies in the
/// range of its base metal's position.
proof fn lemma_no_error_facts(kind: Alloys, items: Seq<BaseMetal<u32>>)
    requires
        forall|k: int|
            0 <= k < items.len() ==> #[trigger] item_error(kind, items, k) == None::<AlloyError>,
    ensures
        forall|i: int|
            0 <= i < items.len() ==> 0 <= tag_index(kind, (#[trigger] items[i]).spec_tag())
                < kind.arity_spec(),
        forall|i: int|
            0 <= i < items.len() ==> kind.range_at(
                tag_index(kind, (#[trigger] items[i]).spec_tag()),
            ).spec_contains(items[i].spec_value()),
        forall|i1: int, i2: int|
            0 <= i1 < i2 < items.len() ==> (#[trigger] items[i1]).spec_tag() != (
            #[trigger] items[i2]).spec_tag(),
{
    lemma_recipe_wf(kind);
    assert forall|i: int| 0 <= i < items.len() implies 0 <= tag_index(
        kind,
        (#[trigger] items[i]).spec_tag(),
    ) < kind.arity_spec() by {
        assert(item_error(kind, items, i) == None::<AlloyError>);
    }
    assert forall|i: int| 0 <= i < items.len() implies kind.range_at(
        tag_index(kind, (#[trigger] items[i]).spec_tag()),
    ).spec_contains(items[i].spec_value()) by {
        assert(item_error(kind, items, i) == None::<AlloyError>);
    }
    assert forall|i1: int, i2: int| 0 <= i1 < i2 < items.len() implies (
    #[trigger] items[i1]).spec_tag() != (#[trigger] items[i2]).spec_tag() by {
        assert(item_error(kind, items, i2) == None::<AlloyError>);
    }
}

/// When the scan accepts a composition of the recipe's length, every recipe
/// base metal occurs in it.
proof fn lemma_all_tags_present(kind: Alloys, items: Seq<BaseMetal<u32>>)
    requires
        items.len() == kind.arity_spec(),
        forall|k: int|
            0 <= k < items.len() ==> #[trigger] item_error(kind, items, k) == None::<AlloyError>,
    ensures
        forall|j: int|
            0 <= j < kind.arity_spec() ==> first_with_tag(items, kind.tag_at(j), 0) < items.len(),
        forall|j: int|
            0 <= j < kind.arity_spec() ==> tag_index(kind, #[trigger] kind.tag_at(j)) == j,
{
    lemma_recipe_wf(kind);
    lemma_no_error_facts(kind, items);
    assert forall|j: int| 0 <= j < kind.arity_spec() implies tag_index(
        kind,
        #[trigger] kind.tag_at(j),
    ) == j by {}
    let n = kind.arity_spec();
    assert forall|j: int| 0 <= j < n implies first_with_tag(items, kind.tag_at(j), 0)
        < items.len() by {
        lemma_first_with_tag_props(items, kind.tag_at(j), 0);
        let i0 = tag_index(kind, items[0].spec_tag());
        let i1 = tag_index(kind, items[1].spec_tag());
        if n == 2 {
            assert(i0 != i1);
            assert(j == i0 || j == i1);
            if j == i0 {
                assert(items[0].spec_tag() == kind.tag_at(j));
            } else {
                assert(items[1].spec_tag() == kind.tag_at(j));
            }
        } else {
            let i2 = tag_index(kind, items[2].spec_tag());
            assert(i0 != i1 && i0 != i2 && i1 != i2);
            assert(j == i0 || j == i1 || j == i2);
            if j == i0 {
                assert(items[0].spec_tag() == kind.tag_at(j));
            } else if j == i1 {
                assert(items[1].spec_tag() == kind.tag_at(j));
            } else {
                assert(items[2].spec_tag() == kind.tag_at(j));
            }
        }
    }
}

/// The canonical reordering of an accepted composition is canonical, and its
/// percentages sum to the same total.
pub proof fn lemma_canon_props(kind: Alloys, items: Seq<BaseMetal<u32>>)
    requires
        items.len() == kind.arity_spec(),
        first_error_from(kind, items, 0) == None::<AlloyError>,
    ensures
        canonical_wf(kind, canon(kind, items)),
        sum_bp(canon(kind, items)) == sum_bp(items),
{
    lemma_recipe_wf(kind);
    lemma_first_error_none_iff(kind, items, 0);
    lemma_no_error_facts(kind, items);
    lemma_all_tags_present(kind, items);
    let q = canon(kind, items);
    let n = kind.arity_spec();
    assert forall|j: int| 0 <= j < n implies (#[trigger] q[j]).spec_tag() == kind.tag_at(j)
        && q[j].spec_value() == payload_at(items, kind.tag_at(j)) by {
        lemma_with_tag_id(kind.tag_at(j), payload_at(items, kind.tag_at(j)));
    }
    assert forall|j: int| 0 <= j < n implies kind.range_at(j).spec_contains(
        (#[trigger] q[j]).spec_value(),
    ) by {
        let t = kind.tag_at(j);
        let f = first_with_tag(items, t, 0);
        lemma_first_with_tag_props(items, t, 0);
        assert(items[f].spec_tag() == t);
        assert(tag_index(kind, items[f].spec_tag()) == j);
        assert(kind.range_at(j).spec_contains(items[f].spec_value()));
    }
    // The sum is preserved: the canonical order is a rearrangement.
    let f0 = first_with_tag(items, kind.tag_at(0), 0);
    let f1 = first_with_tag(items, kind.tag_at(1), 0);
    lemma_first_with_tag_props(items, kind.tag_at(0), 0);
    lemma_first_with_tag_props(items, kind.tag_at(1), 0);
    if n == 2 {
        lemma_sum_bp_2(q);
        lemma_sum_bp_2(items);
        assert(f0 != f1);
    } else {
        let f2 = first_with_tag(items, kind.tag_at(2), 0);
        lemma_first_with_tag_props(items, kind.tag_at(2), 0);
        lemma_sum_bp_3(q);
        lemma_sum_bp_3(items);
        assert(f0 != f1 && f0 != f2 && f1 != f2);
    }
}

// ---------------------------------------------------------------------------
// The executable validator.
// ---------------------------------------------------------------------------

/// What the scan has gathered for canonical position `j` after the first
/// `upto` items: the percentage of the first item carrying that position's
/// base metal, when one was seen.
spec fn spec_slot(kind: Alloys, items: Seq<BaseMetal<u32>>, upto: int, j: int) -> Option<u32> {
    let f = first_with_tag(items, kind.tag_at(j), 0);
    if f < upto {
        Some(items[f].spec_value())
    } else {
        None
    }
}

/// Checks whether the supplied percentages are valid for the alloy and
/// returns them reordered to the recipe's canonical order, or the error of
/// the first check that fails.
pub(crate) fn validate_percentages(kind: Alloys, percentages: &Vec<BaseMetal<u32>>) -> (r: Result<
    Vec<BaseMetal<u32>>,
    AlloyError,
>)
    ensures
        match r {
            Ok(v) => spec_validate(kind, percentages@) == Ok::<_, AlloyError>(v@),
            Err(e) => spec_validate(kind, percentages@) == Err::<Seq<BaseMetal<u32>>, _>(e),
        },
        r is Ok ==> canonical_wf(kind, (r->Ok_0)@) && sum_bp((r->Ok_0)@) == sum_bp(percentages@)
            && sum_within_tolerance((r->Ok_0)@),
{
    let ghost items = percentages@;
    proof {
        lemma_recipe_wf(kind);
    }
    let ranges = kind.percentage_ranges();
    let n = ranges.len();
    proof {
        assert forall|k: int| 0 <= k < n implies (#[trigger] ranges@[k]).spec_tag() == kind.tag_at(
            k,
        ) && ranges@[k].spec_value() == kind.range_at(k) by {
            lemma_with_tag_id(kind.tag_at(k), kind.range_at(k));
        }
    }
    if percentages.len() != n {
        return Err(AlloyError::InvalidPercentages);
    }
    // The sum must lie within tolerance of 100%.
    let mut total: u64 = 0;
    let mut i: usize = 0;
    while i < n
        invariant
            0 <= i <= n,
            percentages@ == items,
            n == items.len(),
            n <= 3,
            total == sum_bp(items.take(i as int)),
            total <= i * 0xffffffffu64,
        decreases n - i,
    {
        proof {
            assert(items.take(i + 1).drop_last() =~= items.take(i as int));
            assert(items.take(i + 1).last() == items[i as int]);
        }
        total = total + (percentages[i].value() as u64);
        i = i + 1;
    }
    proof {
        assert(items.take(n as int) =~= items);
    }
    if total <= ((PERCENT_SCALE - PERCENT_TOLERANCE) as u64) || total >= ((PERCENT_SCALE
        + PERCENT_TOLERANCE) as u64) {
        return Err(AlloyError::InvalidPercentages);
    }
    // Scan the items in the order supplied, placing each at its canonical
    // position.
    let mut slots: Vec<Option<u32>> = Vec::new();
    let mut j: usize = 0;
    while j < n
        invariant
            slots@.len() == j,
            0 <= j <= n,
            forall|k: int| 0 <= k < j ==> #[trigger] slots@[k] is None,
        decreases n - j,
    {
        slots.push(None);
        j = j + 1;
    }
    proof {
        assert forall|k: int| 0 <= k < n implies #[trigger] spec_slot(kind, items, 0, k)
            is None by {
            lemma_first_with_tag_props(items, kind.tag_at(k), 0);
        }
    }
    let mut i: usize = 0;
    while i < n
        invariant
            0 <= i <= n,
            percentages@ == items,
            n == items.len(),
            n == kind.arity_spec(),
            2 <= n <= 3,
            sum_within_tolerance(items),
            slots@.len() == n,
            ranges@ == kind.ranges_seq(),
            forall|k: int|
                0 <= k < n ==> (#[trigger] ranges@[k]).spec_tag() == kind.tag_at(k)
                    && ranges@[k].spec_value() == kind.range_at(k),
            forall|k: int|
                0 <= k < i ==> #[trigger] item_error(kind, items, k) == None::<AlloyError>,
            forall|k: int| 0 <= k < n ==> #[trigger] slots@[k] == spec_slot(kind, items, i as int, k),
        decreases n - i,
    {
        let item = percentages[i];
        let t = item.tag();
        // Find the canonical position of this item's base metal.
        let mut found: Option<usize> = None;
        let mut k: usize = 0;
        while k < n
            invariant
                0 <= k <= n,
                n == kind.arity_spec(),
                forall|k2: int|
                    0 <= k2 < n ==> (#[trigger] ranges@[k2]).spec_tag() == kind.tag_at(k2)
                        && ranges@[k2].spec_value() == kind.range_at(k2),
                n == ranges@.len(),
                match found {
                    None => forall|k2: int| 0 <= k2 < k ==> #[trigger] kind.tag_at(k2) != t,
                    Some(jj) => jj < k && kind.tag_at(jj as int) == t,
                },
            decreases n - k,
        {
            if ranges[k].tag() == t && found.is_none() {
                found = Some(k);
            }
            k = k + 1;
        }
        let ghost gt = items[i as int].spec_tag();
        proof {
            assert(gt == t);
        }
        match found {
            None => {
                proof {
                    assert(tag_index(kind, gt) == -1);
                    assert(item_error(kind, items, i as int) == Some(
                        AlloyError::InvalidBaseMetals,
                    ));
                    lemma_first_error_skip(kind, items, i as int);
                }
                return Err(AlloyError::InvalidBaseMetals);
            },
            Some(j) => {
                proof {
                    assert(kind.tag_at(j as int) == gt);
                    assert(tag_index(kind, gt) == j as int);
                    lemma_first_with_tag_props(items, gt, 0);
                }
                let dup = slots[j].is_some();
                if dup {
                    proof {
                        let f = first_with_tag(items, gt, 0);
                        assert(f < i);
                        assert(items[f].spec_tag() == gt);
                        assert(item_error(kind, items, i as int) == Some(
                            AlloyError::InvalidBaseMetals,
                        ));
                        lemma_first_error_skip(kind, items, i as int);
                    }
                    return Err(AlloyError::InvalidBaseMetals);
                }
                proof {
                    let f = first_with_tag(items, gt, 0);
                    assert(f >= i);
                    assert(forall|i2: int|
                        0 <= i2 < i ==> (#[trigger] items[i2]).spec_tag() != gt);
                }
                let rng = ranges[j].value();
                if !rng.contains(item.value()) {
                    proof {
                        assert(item_error(kind, items, i as int) == Some(
                            AlloyError::InvalidPercentages,
                        ));
                        lemma_first_error_skip(kind, items, i as int);
                    }
                    return Err(AlloyError::InvalidPercentages);
                }
                slots[j] = Some(item.value());
                proof {
                    assert(item_error(kind, items, i as int) == None::<AlloyError>);
                    let f = first_with_tag(items, gt, 0);
                    assert(f <= i) by {
                        if f > i {
                            assert(items[i as int].spec_tag() != gt);
                        }
                    }
                    assert(f == i);
                    assert(slots@[j as int] == spec_slot(kind, items, i + 1, j as int));
                    assert forall|k2: int| 0 <= k2 < n && k2 != j implies #[trigger] slots@[k2]
                        == spec_slot(kind, items, i + 1, k2) by {
                        let f2 = first_with_tag(items, kind.tag_at(k2), 0);
                        lemma_first_with_tag_props(items, kind.tag_at(k2), 0);
                        if f2 == i {
                            assert(items[i as int].spec_tag() == kind.tag_at(k2));
                            assert(kind.tag_at(k2) != kind.tag_at(j as int));
                            assert(false);
                        }
                    }
                }
            },
        }
        i = i + 1;
    }
    proof {
        lemma_first_error_none_iff(kind, items, 0);
        lemma_all_tags_present(kind, items);
        lemma_canon_props(kind, items);
    }
    // Every canonical position was filled: emit the canonical order.
    let mut out: Vec<BaseMetal<u32>> = Vec::new();
    let mut j: usize = 0;
    while j < n
        invariant
            0 <= j <= n,
            n == items.len(),
            n == kind.arity_spec(),
            slots@.len() == n,
            ranges@.len() == n,
            forall|k: int|
                0 <= k < n ==> (#[trigger] ranges@[k]).spec_tag() == kind.tag_at(k)
                    && ranges@[k].spec_value() == kind.range_at(k),
            forall|k: int| 0 <= k < n ==> #[trigger] slots@[k] == spec_slot(kind, items, n as int, k),
            forall|k: int|
                0 <= k < n ==> first_with_tag(items, #[trigger] kind.tag_at(k), 0) < items.len(),
            out@.len() == j,
            forall|k: int| 0 <= k < j ==> #[trigger] out@[k] == canon(kind, items)[k],
        decreases n - j,
    {
        match slots[j] {
            Some(val) => {
                proof {
                    lemma_with_tag_id(kind.tag_at(j as int), val);
                }
                out.push(ranges[j].update_inner_value(val));
            },
            None => {
                proof {
                    assert(false);
                }
            },
        }
        j = j + 1;
    }
    proof {
        assert(out@ =~= canon(kind, items));
    }
    Ok(out)
}

// ---------------------------------------------------------------------------
// Laws of validation.
// ---------------------------------------------------------------------------

/// Validating is idempotent: the canonical reordering of a legal composition
/// is itself legal, and validating it again returns it unchanged.
pub proof fn lemma_validate_idempotent(kind: Alloys, items: Seq<BaseMetal<u32>>)
    requires
        spec_validate(kind, items) is Ok,
    ensures
        spec_validate(kind, spec_validate(kind, items)->Ok_0) == spec_validate(kind, items),
{
    lemma_recipe_wf(kind);
    let q = canon(kind, items);
    assert(spec_validate(kind, items) == Ok::<_, AlloyError>(q));
    lemma_first_error_none_iff(kind, items, 0);
    lemma_all_tags_present(kind, items);
    lemma_canon_props(kind, items);
    assert(q.len() == kind.arity_spec());
    assert(sum_within_tolerance(q));
    // No item of the canonical order contributes an error.
    assert forall|i: int| 0 <= i < q.len() implies #[trigger] item_error(kind, q, i)
        == None::<AlloyError> by {
        assert(q[i].spec_tag() == kind.tag_at(i));
        assert(tag_index(kind, q[i].spec_tag()) == i);
        if exists|i2: int| 0 <= i2 < i && q[i2].spec_tag() == q[i].spec_tag() {
            let i2 = choose|i2: int| 0 <= i2 < i && q[i2].spec_tag() == q[i].spec_tag();
            assert(kind.tag_at(i2) == kind.tag_at(i));
            assert(false);
        }
    }
    lemma_first_error_none_iff(kind, q, 0);
    // Reordering the canonical order changes nothing.
    assert forall|j: int| 0 <= j < q.len() implies #[trigger] canon(kind, q)[j] == q[j] by {
        let t = kind.tag_at(j);
        let f = first_with_tag(q, t, 0);
        lemma_first_with_tag_props(q, t, 0);
        assert(q[j].spec_tag() == t);
        assert(f <= j);
        if f < j {
            assert(q[f].spec_tag() == kind.tag_at(f));
            assert(kind.tag_at(f) == kind.tag_at(j));
            assert(false);
        }
        lemma_with_tag_id(t, q[j].spec_value());
    }
    assert(canon(kind, q) =~= q);
}

/// Validation does not depend on the order in which the constituents are
/// supplied: a composition reached from a legal one by a permutation
/// validates to the same canonical order.
pub proof fn lemma_validate_permutation(
    kind: Alloys,
    p1: Seq<BaseMetal<u32>>,
    p2: Seq<BaseMetal<u32>>,
    perm: Seq<int>,
)
    requires
        perm.len() == p1.len(),
        p2.len() == p1.len(),
        forall|i: int| 0 <= i < perm.len() ==> 0 <= #[trigger] perm[i] < p1.len(),
        forall|i1: int, i2: int|
            0 <= i1 < i2 < perm.len() ==> #[trigger] perm[i1] != #[trigger] perm[i2],
        forall|i: int| 0 <= i < p2.len() ==> #[trigger] p2[i] == p1[perm[i]],
        spec_validate(kind, p1) is Ok,
    ensures
        spec_validate(kind, p2) == spec_validate(kind, p1),
{
    lemma_recipe_wf(kind);
    let n = kind.arity_spec();
    assert(p1.len() == n);
    lemma_first_error_none_iff(kind, p1, 0);
    lemma_no_error_facts(kind, p1);
    lemma_all_tags_present(kind, p1);

    // Items of `p2` carry the same distinct recipe base metals in range.
    assert forall|i1: int, i2: int| 0 <= i1 < i2 < p2.len() implies (
    #[trigger] p2[i1]).spec_tag() != (#[trigger] p2[i2]).spec_tag() by {
        if p2[i1].spec_tag() == p2[i2].spec_tag() {
            assert(p1[perm[i1]].spec_tag() == p1[perm[i2]].spec_tag());
            assert(perm[i1] != perm[i2]);
            if perm[i1] < perm[i2] {
                assert(p1[perm[i1]].spec_tag() != p1[perm[i2]].spec_tag());
            } else {
                assert(p1[perm[i2]].spec_tag() != p1[perm[i1]].spec_tag());
            }
        }
    }
    assert forall|i: int| 0 <= i < p2.len() implies #[trigger] item_error(kind, p2, i)
        == None::<AlloyError> by {
        assert(p2[i] == p1[perm[i]]);
        assert(0 <= tag_index(kind, p2[i].spec_tag()) < n);
        if exists|i2: int| 0 <= i2 < i && p2[i2].spec_tag() == p2[i].spec_tag() {
            let i2 = choose|i2: int| 0 <= i2 < i && p2[i2].spec_tag() == p2[i].spec_tag();
            assert(false);
        }
    }
    lemma_first_error_none_iff(kind, p2, 0);

    // The sum is preserved by the permutation.
    assert(sum_bp(p2) == sum_bp(p1)) by {
        if n == 2 {
            lemma_sum_bp_2(p1);
            lemma_sum_bp_2(p2);
            assert(perm[0] != perm[1]);
        } else {
            lemma_sum_bp_3(p1);
            lemma_sum_bp_3(p2);
            assert(perm[0] != perm[1] && perm[0] != perm[2] && perm[1] != perm[2]);
            assert(0 <= perm[0] < 3 && 0 <= perm[1] < 3 && 0 <= perm[2] < 3);
        }
    }

    // Each recipe base metal is supplied the same percentage in both orders.
    assert forall|j: int| 0 <= j < n implies #[trigger] canon(kind, p2)[j] == canon(
        kind,
        p1,
    )[j] by {
        let t = kind.tag_at(j);
        let f1 = first_with_tag(p1, t, 0);
        let f2 = first_with_tag(p2, t, 0);
        lemma_first_with_tag_props(p1, t, 0);
        lemma_first_with_tag_props(p2, t, 0);
        assert(f1 < p1.len());
        // Some position of `p2` maps to `f1`.
        assert(exists|i: int| 0 <= i < p2.len() && #[trigger] perm[i] == f1) by {
            if n == 2 {
                assert(perm[0] == f1 || perm[1] == f1);
            } else {
                assert(perm[0] != perm[1] && perm[0] != perm[2] && perm[1] != perm[2]);
                assert(0 <= perm[0] < 3 && 0 <= perm[1] < 3 && 0 <= perm[2] < 3);
                assert(perm[0] == f1 || perm[1] == f1 || perm[2] == f1);
            }
        }
        let w = choose|i: int| 0 <= i < p2.len() && #[trigger] perm[i] == f1;
        assert(p2[w].spec_tag() == t);
        assert(f2 < p2.len());
        // The item found in `p2` is the item found in `p1`.
        assert(p2[f2] == p1[perm[f2]]);
        assert(p1[perm[f2]].spec_tag() == t);
        assert(perm[f2] == f1) by {
            if perm[f2] < f1 {
                assert(p1[perm[f2]].spec_tag() != t);
            }
            if f1 < perm[f2] {
                assert(p1[f1].spec_tag() == p1[perm[f2]].spec_tag());
                assert(false);
            }
        }
        assert(payload_at(p2, t) == payload_at(p1, t));
    }
    assert(canon(kind, p2) =~= canon(kind, p1));
}

} // verus!
