//! The calculation engine: from a canonical composition and a requested
//! ingot count it derives the integer nugget vector and the largest ingot
//! count that still fits in the crucible.
//!
//! All arithmetic is exact: percentages are basis points, so the units a
//! constituent contributes to `n` ingots are `n * bp / 100`, a rational with
//! denominator 100. The engine works with the numerators scaled by 100.

use vstd::prelude::*;

use vstd::arithmetic::div_mod::lemma_div_is_ordered;
use vstd::arithmetic::div_mod::lemma_fundamental_div_mod;
use vstd::arithmetic::div_mod::lemma_fundamental_div_mod_converse;

use crate::base_metal::BaseMetal;
use crate::recipe::canonical_wf;
use crate::recipe::lemma_recipe_wf;
use crate::recipe::Alloys;

verus! {

/// Ceiling division, for a nonnegative dividend and a positive divisor.
pub open spec fn ceil_div(a: int, b: int) -> int {
    (a + b - 1) / b
}

/// The sum, in basis points, of the percentages of a composition.
pub open spec fn sum_bp(s: Seq<BaseMetal<u32>>) -> int
    decreases s.len(),
{
    if s.len() == 0 {
        0
    } else {
        sum_bp(s.drop_last()) + s.last().spec_value()
    }
}

/// The sum of a sequence of integers.
pub open spec fn sum_int(s: Seq<int>) -> int
    decreases s.len(),
{
    if s.len() == 0 {
        0
    } else {
        sum_int(s.drop_last()) + s.last()
    }
}

/// How many crucible slots the composition needs for `num` ingots: each
/// constituent contributes `num * bp / 100` units, and a slot holds 640
/// units, so it occupies `ceil(num * bp / 64000)` slots.
pub open spec fn slots_needed(p: Seq<BaseMetal<u32>>, num: int) -> int
    decreases p.len(),
{
    if p.len() == 0 {
        0
    } else {
        slots_needed(p.drop_last(), num) + ceil_div(num * p.last().spec_value(), 64000)
    }
}

/// Whether `num` ingots of the composition fit in the crucible: the
/// percentages account for the whole melt and at most four slots are used.
pub open spec fn fits(p: Seq<BaseMetal<u32>>, num: int) -> bool {
    sum_bp(p) == 10000 && slots_needed(p, num) <= 4
}

/// The largest ingot count at most `num` that fits, or 0 when none does.
pub open spec fn spec_max_ingots_from(p: Seq<BaseMetal<u32>>, num: int) -> int
    decreases num,
{
    if num <= 0 {
        0
    } else if fits(p, num) {
        num
    } else {
        spec_max_ingots_from(p, num - 1)
    }
}

/// The largest achievable ingot count for the composition.
pub open spec fn spec_max_ingots(p: Seq<BaseMetal<u32>>) -> int {
    spec_max_ingots_from(p, 25)
}

/// The nugget vector before the correction pass: every constituent but the
/// last gets the floor of its share in nuggets, the last gets the ceiling of
/// whatever units remain.
pub open spec fn raw_nuggets(p: Seq<BaseMetal<u32>>, n: int) -> Seq<int> {
    Seq::new(
        p.len(),
        |i: int|
            if i < p.len() - 1 {
                (n * p[i].spec_value()) / 500
            } else {
                ceil_div(n * (10000 - sum_bp(p.drop_last())), 500)
            },
    )
}

/// The largest nugget count the recipe allows constituent `j` when `n`
/// ingots are made: the floor of the range's upper end applied to the total
/// nugget count `20 * n`.
pub open spec fn nugget_cap(kind: Alloys, n: int, j: int) -> int {
    (kind.range_at(j).max * (20 * n)) / 10000
}

/// The correction pass over a nugget vector: when the sum disagrees with the
/// exact requirement `20 * n` one nugget is added, preferably to the last
/// constituent whose cap leaves room; when the sum agrees but the last
/// constituent exceeds its cap, one nugget moves off it.
pub open spec fn correct_seq(kind: Alloys, s: Seq<int>, n: int) -> Seq<int> {
    let t = 20 * n;
    if s.len() == 2 {
        let a = s[0];
        let b = s[1];
        let max_b = nugget_cap(kind, n, 1);
        if sum_int(s) != t {
            if b < max_b {
                seq![a, b + 1]
            } else {
                seq![a + 1, b]
            }
        } else if b > max_b {
            seq![a + 1, b - 1]
        } else {
            s
        }
    } else if s.len() == 3 {
        let a = s[0];
        let b = s[1];
        let c = s[2];
        let max_b = nugget_cap(kind, n, 1);
        let max_c = nugget_cap(kind, n, 2);
        if sum_int(s) != t {
            if c < max_c {
                seq![a, b, c + 1]
            } else if b < max_b {
                seq![a, b + 1, c]
            } else {
                seq![a + 1, b, c]
            }
        } else if c > max_c {
            if b + 1 > max_b {
                seq![a + 1, b, c - 1]
            } else {
                seq![a, b + 1, c - 1]
            }
        } else {
            s
        }
    } else {
        s
    }
}

/// The corrected nugget vector for `n` ingots of the composition.
pub open spec fn corrected(kind: Alloys, p: Seq<BaseMetal<u32>>, n: int) -> Seq<int> {
    correct_seq(kind, raw_nuggets(p, n), n)
}

/// The payloads of a vector of nugget counts, as mathematical integers.
pub open spec fn as_ints(s: Seq<i32>) -> Seq<int> {
    s.map_values(|x: i32| x as int)
}

/// The total nugget count of a tagged nugget vector.
pub open spec fn sum_nuggets(s: Seq<BaseMetal<i32>>) -> int
    decreases s.len(),
{
    if s.len() == 0 {
        0
    } else {
        sum_nuggets(s.drop_last()) + s.last().spec_value()
    }
}

/// The total of a two-element nugget vector, element by element.
pub proof fn lemma_sum_nuggets_2(s: Seq<BaseMetal<i32>>)
    requires
        s.len() == 2,
    ensures
        sum_nuggets(s) == s[0].spec_value() + s[1].spec_value(),
{
    let s1 = s.drop_last();
    assert(s1.drop_last() =~= Seq::<BaseMetal<i32>>::empty());
    assert(sum_nuggets(s1.drop_last()) == 0);
    assert(sum_nuggets(s1) == s1.last().spec_value());
    assert(s1.last() == s[0]);
    assert(sum_nuggets(s) == sum_nuggets(s1) + s.last().spec_value());
}

/// The total of a three-element nugget vector, element by element.
pub proof fn lemma_sum_nuggets_3(s: Seq<BaseMetal<i32>>)
    requires
        s.len() == 3,
    ensures
        sum_nuggets(s) == s[0].spec_value() + s[1].spec_value() + s[2].spec_value(),
{
    let s2 = s.drop_last();
    lemma_sum_nuggets_2(s2);
    assert(s2[0] == s[0] && s2[1] == s[1]);
    assert(sum_nuggets(s) == sum_nuggets(s2) + s.last().spec_value());
}

// ---------------------------------------------------------------------------
// Small arithmetic and summation lemmas.
// ---------------------------------------------------------------------------

/// Ceiling division is bracketed by floor division and floor plus one.
proof fn lemma_ceil_div_bounds(x: int, b: int)
    requires
        0 <= x,
        0 < b,
    ensures
        x / b <= ceil_div(x, b) <= x / b + 1,
        x % b == 0 ==> ceil_div(x, b) == x / b,
        x % b != 0 ==> ceil_div(x, b) == x / b + 1,
{
    lemma_fundamental_div_mod(x, b);
    let q = x / b;
    let r = x % b;
    if r == 0 {
        assert(x + b - 1 == q * b + (b - 1)) by (nonlinear_arith)
            requires
                x == b * q,
        ;
        lemma_fundamental_div_mod_converse(x + b - 1, b, q, b - 1);
    } else {
        assert(x + b - 1 == (q + 1) * b + (r - 1)) by (nonlinear_arith)
            requires
                x == b * q + r,
        ;
        lemma_fundamental_div_mod_converse(x + b - 1, b, q + 1, r - 1);
    }
}

/// Floor division is monotone in the dividend.
proof fn lemma_floor_mono(x: int, y: int, b: int)
    requires
        0 <= x <= y,
        0 < b,
    ensures
        x / b <= y / b,
{
    lemma_div_is_ordered(x, y, b);
}

/// Ceiling division is monotone in the dividend.
proof fn lemma_ceil_mono(x: int, y: int, b: int)
    requires
        0 <= x <= y,
        0 < b,
    ensures
        ceil_div(x, b) <= ceil_div(y, b),
{
    lemma_div_is_ordered(x + b - 1, y + b - 1, b);
}

/// The ceiling of what remains after taking `x` of `b * m` units is the
/// complement of the floor of `x`.
proof fn lemma_ceil_complement(m: int, x: int, b: int)
    requires
        0 < b,
        0 <= x <= b * m,
    ensures
        ceil_div(b * m - x, b) == m - x / b,
{
    lemma_fundamental_div_mod(x, b);
    let q = x / b;
    let r = x % b;
    assert(b * m - x + b - 1 == (m - q) * b + (b - 1 - r)) by (nonlinear_arith)
        requires
            x == b * q + r,
    ;
    assert(0 <= b - 1 - r < b);
    lemma_fundamental_div_mod_converse(b * m - x + b - 1, b, m - q, b - 1 - r);
}

/// The floor of a sum of two nonnegative dividends equals the sum of their
/// floors, possibly plus one.
proof fn lemma_floor_pair(x0: int, x1: int, b: int)
    requires
        0 <= x0,
        0 <= x1,
        0 < b,
    ensures
        x0 / b + x1 / b <= (x0 + x1) / b <= x0 / b + x1 / b + 1,
{
    lemma_fundamental_div_mod(x0, b);
    lemma_fundamental_div_mod(x1, b);
    let q0 = x0 / b;
    let r0 = x0 % b;
    let q1 = x1 / b;
    let r1 = x1 % b;
    if r0 + r1 < b {
        assert(x0 + x1 == (q0 + q1) * b + (r0 + r1)) by (nonlinear_arith)
            requires
                x0 == b * q0 + r0 && x1 == b * q1 + r1,
        ;
        lemma_fundamental_div_mod_converse(x0 + x1, b, q0 + q1, r0 + r1);
    } else {
        assert(x0 + x1 == (q0 + q1 + 1) * b + (r0 + r1 - b)) by (nonlinear_arith)
            requires
                x0 == b * q0 + r0 && x1 == b * q1 + r1,
        ;
        lemma_fundamental_div_mod_converse(x0 + x1, b, q0 + q1 + 1, r0 + r1 - b);
    }
}

/// The cap of constituent `j`, stated at the scale the raw vector uses:
/// `20 * n` nuggets over 10000 basis points is `n` over 500.
proof fn lemma_cap_eq(kind: Alloys, n: int, j: int)
    requires
        0 <= n,
    ensures
        nugget_cap(kind, n, j) == (n * kind.range_at(j).max) / 500,
{
    let rmax = kind.range_at(j).max as int;
    let y = n * rmax;
    assert(rmax * (20 * n) == 20 * (n * rmax)) by (nonlinear_arith);
    assert(0 <= n * rmax) by (nonlinear_arith)
        requires
            0 <= n && 0 <= rmax,
    ;
    lemma_fundamental_div_mod(y, 500);
    let q = y / 500;
    let r = y % 500;
    assert(20 * y == q * 10000 + 20 * r) by (nonlinear_arith)
        requires
            y == 500 * q + r,
    ;
    lemma_fundamental_div_mod_converse(20 * y, 10000, q, 20 * r);
}

/// The sum of a two-element composition, element by element.
pub proof fn lemma_sum_bp_2(p: Seq<BaseMetal<u32>>)
    requires
        p.len() == 2,
    ensures
        sum_bp(p) == p[0].spec_value() + p[1].spec_value(),
{
    let p1 = p.drop_last();
    assert(p1.drop_last() =~= Seq::<BaseMetal<u32>>::empty());
    assert(sum_bp(p1.drop_last()) == 0);
    assert(sum_bp(p1) == p1.last().spec_value());
    assert(p1.last() == p[0]);
    assert(sum_bp(p) == sum_bp(p1) + p.last().spec_value());
}

/// The sum of a three-element composition, element by element.
pub proof fn lemma_sum_bp_3(p: Seq<BaseMetal<u32>>)
    requires
        p.len() == 3,
    ensures
        sum_bp(p) == p[0].spec_value() + p[1].spec_value() + p[2].spec_value(),
{
    let p2 = p.drop_last();
    lemma_sum_bp_2(p2);
    assert(p2[0] == p[0] && p2[1] == p[1]);
    assert(sum_bp(p) == sum_bp(p2) + p.last().spec_value());
}

/// The sum of a two-element integer sequence, element by element.
pub proof fn lemma_sum_int_2(s: Seq<int>)
    requires
        s.len() == 2,
    ensures
        sum_int(s) == s[0] + s[1],
{
    let s1 = s.drop_last();
    assert(s1.drop_last() =~= Seq::<int>::empty());
    assert(sum_int(s1.drop_last()) == 0);
    assert(sum_int(s1) == s1.last());
    assert(s1.last() == s[0]);
    assert(sum_int(s) == sum_int(s1) + s.last());
}

/// The sum of a three-element integer sequence, element by element.
pub proof fn lemma_sum_int_3(s: Seq<int>)
    requires
        s.len() == 3,
    ensures
        sum_int(s) == s[0] + s[1] + s[2],
{
    let s2 = s.drop_last();
    lemma_sum_int_2(s2);
    assert(s2[0] == s[0] && s2[1] == s[1]);
    assert(sum_int(s) == sum_int(s2) + s.last());
}

// ---------------------------------------------------------------------------
// Facts about the maximum ingot count.
// ---------------------------------------------------------------------------

/// The search result never exceeds where it started and is never negative.
pub proof fn lemma_max_ingots_bounds(p: Seq<BaseMetal<u32>>, num: int)
    ensures
        0 <= spec_max_ingots_from(p, num),
        spec_max_ingots_from(p, num) <= num || num <= 0,
    decreases num,
{
    if num > 0 && !fits(p, num) {
        lemma_max_ingots_bounds(p, num - 1);
    }
}

/// A positive search result fits.
pub proof fn lemma_max_ingots_fits(p: Seq<BaseMetal<u32>>, num: int)
    requires
        spec_max_ingots_from(p, num) >= 1,
    ensures
        fits(p, spec_max_ingots_from(p, num)),
    decreases num,
{
    if num > 0 && !fits(p, num) {
        lemma_max_ingots_fits(p, num - 1);
    }
}

/// When a single ingot fits, the search finds at least one.
pub proof fn lemma_max_ingots_ge_one(p: Seq<BaseMetal<u32>>, num: int)
    requires
        fits(p, 1),
        num >= 1,
    ensures
        spec_max_ingots_from(p, num) >= 1,
    decreases num,
{
    if num > 1 && !fits(p, num) {
        lemma_max_ingots_ge_one(p, num - 1);
    }
}

/// With at most 10000 basis points per constituent, a single ingot needs at
/// most one slot per constituent.
proof fn lemma_slots_one_ingot(p: Seq<BaseMetal<u32>>)
    requires
        forall|j: int| 0 <= j < p.len() ==> (#[trigger] p[j]).spec_value() <= 10000,
    ensures
        slots_needed(p, 1) <= p.len(),
    decreases p.len(),
{
    if p.len() > 0 {
        lemma_slots_one_ingot(p.drop_last());
        assert(ceil_div(1 * p.last().spec_value(), 64000) <= 1) by {
            lemma_ceil_mono(1 * p.last().spec_value(), 10000, 64000);
            assert(ceil_div(10000int, 64000) == 1) by {
                lemma_fundamental_div_mod_converse(73999, 64000, 1, 9999);
            }
            assert(0 <= ceil_div(1 * p.last().spec_value(), 64000)) by {
                vstd::arithmetic::div_mod::lemma_div_pos_is_pos(
                    1 * p.last().spec_value() + 63999,
                    64000,
                );
            }
        }
    }
}

/// A canonical composition that accounts for the whole melt always yields at
/// least one ingot.
pub proof fn lemma_fits_one(kind: Alloys, p: Seq<BaseMetal<u32>>)
    requires
        canonical_wf(kind, p),
        sum_bp(p) == 10000,
    ensures
        fits(p, 1),
{
    lemma_recipe_wf(kind);
    assert(forall|j: int| 0 <= j < p.len() ==> (#[trigger] p[j]).spec_value() <= 10000);
    lemma_slots_one_ingot(p);
}

/// The defaults of every recipe are themselves a canonical composition that
/// accounts for the whole melt.
pub proof fn lemma_defaults_canonical(kind: Alloys)
    ensures
        canonical_wf(kind, kind.defaults_seq()),
        sum_bp(kind.defaults_seq()) == 10000,
        forall|j: int|
            0 <= j < kind.defaults_seq().len() ==> (#[trigger] kind.defaults_seq()[j]).spec_value()
                == kind.default_percent_at(j),
{
    lemma_recipe_wf(kind);
    let d = kind.defaults_seq();
    assert forall|j: int| 0 <= j < d.len() implies (#[trigger] d[j]).spec_tag() == kind.tag_at(j)
        && d[j].spec_value() == kind.default_percent_at(j) by {
        crate::base_metal::lemma_with_tag_id(kind.tag_at(j), kind.default_percent_at(j));
    }
    if kind.arity_spec() == 2 {
        lemma_sum_bp_2(d);
    } else {
        lemma_sum_bp_3(d);
    }
}

// ---------------------------------------------------------------------------
// Facts about the raw and corrected nugget vectors.
// ---------------------------------------------------------------------------

/// The raw vector stays within a nugget of everything the correction pass
/// must establish: entries are nonnegative, entries before the last respect
/// their caps, the last exceeds its cap by at most one, and the sum reaches
/// `20 * n`, short by at most one nugget for three constituents and exactly
/// for two.
proof fn lemma_raw_facts(kind: Alloys, p: Seq<BaseMetal<u32>>, n: int)
    requires
        canonical_wf(kind, p),
        sum_bp(p) == 10000,
        1 <= n <= 25,
    ensures
        forall|j: int| 0 <= j < p.len() ==> 0 <= #[trigger] raw_nuggets(p, n)[j],
        forall|j: int|
            0 <= j < p.len() - 1 ==> #[trigger] raw_nuggets(p, n)[j] <= nugget_cap(kind, n, j),
        raw_nuggets(p, n)[p.len() - 1] <= nugget_cap(kind, n, p.len() - 1) + 1,
        p.len() == 2 ==> sum_int(raw_nuggets(p, n)) == 20 * n,
        p.len() == 3 ==> 20 * n - 1 <= sum_int(raw_nuggets(p, n)) <= 20 * n,
{
    lemma_recipe_wf(kind);
    let raw = raw_nuggets(p, n);
    let m = 20 * n;
    let last = p.len() - 1;
    let b_last = p[last].spec_value() as int;
    let head = sum_bp(p.drop_last());
    assert(p.last() == p[last]);
    assert(head == 10000 - b_last);

    // Entries before the last: floors of shares that respect the ranges.
    assert forall|j: int| 0 <= j < p.len() - 1 implies 0 <= #[trigger] raw[j] && raw[j]
        <= nugget_cap(kind, n, j) by {
        let bj = p[j].spec_value() as int;
        let rj = kind.range_at(j).max as int;
        assert(0 <= n * bj <= n * rj) by (nonlinear_arith)
            requires
                0 <= n && 0 <= bj <= rj,
        ;
        vstd::arithmetic::div_mod::lemma_div_pos_is_pos(n * bj, 500);
        lemma_floor_mono(n * bj, n * rj, 500);
        lemma_cap_eq(kind, n, j);
    }

    // The last entry: the ceiling of the remaining units.
    let r_last = kind.range_at(last).max as int;
    assert(0 <= n * b_last <= n * r_last) by (nonlinear_arith)
        requires
            0 <= n && 0 <= b_last <= r_last,
    ;
    assert(n * (10000 - head) == n * b_last) by (nonlinear_arith)
        requires
            head == 10000 - b_last,
    ;
    assert(raw[last] == ceil_div(n * b_last, 500));
    vstd::arithmetic::div_mod::lemma_div_pos_is_pos(n * b_last + 499, 500);
    lemma_ceil_mono(n * b_last, n * r_last, 500);
    lemma_ceil_div_bounds(n * r_last, 500);
    lemma_cap_eq(kind, n, last);

    // The sum.
    if p.len() == 2 {
        let x0 = n * p[0].spec_value();
        lemma_sum_bp_2(p);
        assert(x0 + n * b_last == 500 * m) by (nonlinear_arith)
            requires
                x0 == n * p[0].spec_value(),
                p[0].spec_value() + b_last == 10000,
                m == 20 * n,
        ;
        lemma_ceil_complement(m, x0, 500);
        assert(raw[1] == ceil_div(500 * m - x0, 500)) by {
            assert(n * b_last == 500 * m - x0);
        }
        lemma_sum_int_2(raw);
    } else {
        assert(p.len() == 3);
        let x0 = n * p[0].spec_value();
        let x1 = n * p[1].spec_value();
        lemma_sum_bp_3(p);
        assert(x0 + x1 + n * b_last == 500 * m) by (nonlinear_arith)
            requires
                x0 == n * p[0].spec_value(),
                x1 == n * p[1].spec_value(),
                p[0].spec_value() + p[1].spec_value() + b_last == 10000,
                m == 20 * n,
        ;
        assert(0 <= x0 && 0 <= x1) by (nonlinear_arith)
            requires
                x0 == n * p[0].spec_value(),
                x1 == n * p[1].spec_value(),
                0 <= n,
                0 <= p[0].spec_value(),
                0 <= p[1].spec_value(),
        ;
        lemma_ceil_complement(m, x0 + x1, 500);
        assert(raw[2] == ceil_div(500 * m - (x0 + x1), 500)) by {
            assert(n * b_last == 500 * m - (x0 + x1));
        }
        lemma_floor_pair(x0, x1, 500);
        lemma_sum_int_3(raw);
    }
}

/// The corrected vector always sums to exactly twenty nuggets per ingot.
pub proof fn lemma_corrected_sum(kind: Alloys, p: Seq<BaseMetal<u32>>, n: int)
    requires
        canonical_wf(kind, p),
        sum_bp(p) == 10000,
        1 <= n <= 25,
    ensures
        corrected(kind, p, n).len() == p.len(),
        sum_int(corrected(kind, p, n)) == 20 * n,
        forall|j: int| 0 <= j < p.len() ==> 0 <= #[trigger] corrected(kind, p, n)[j],
{
    lemma_recipe_wf(kind);
    lemma_raw_facts(kind, p, n);
    let raw = raw_nuggets(p, n);
    let cor = corrected(kind, p, n);
    let m = 20 * n;
    if p.len() == 2 {
        lemma_sum_int_2(raw);
        lemma_sum_int_2(cor);
        assert(0 <= nugget_cap(kind, n, 1)) by {
            vstd::arithmetic::div_mod::lemma_div_pos_is_pos(
                kind.range_at(1).max * (20 * n),
                10000,
            );
            assert(0 <= kind.range_at(1).max * (20 * n)) by (nonlinear_arith)
                requires
                    0 <= kind.range_at(1).max && 1 <= n,
            ;
        }
    } else {
        lemma_sum_int_3(raw);
        lemma_sum_int_3(cor);
        assert(0 <= nugget_cap(kind, n, 2)) by {
            vstd::arithmetic::div_mod::lemma_div_pos_is_pos(
                kind.range_at(2).max * (20 * n),
                10000,
            );
            assert(0 <= kind.range_at(2).max * (20 * n)) by (nonlinear_arith)
                requires
                    0 <= kind.range_at(2).max && 1 <= n,
            ;
        }
    }
}

/// The corrected vector never exceeds a constituent's cap by more than one
/// nugget, and only the last constituent of a three-part alloy can exceed it
/// at all.
pub proof fn lemma_corrected_near_range(kind: Alloys, p: Seq<BaseMetal<u32>>, n: int)
    requires
        canonical_wf(kind, p),
        sum_bp(p) == 10000,
        1 <= n <= 25,
    ensures
        forall|j: int|
            1 <= j < p.len() ==> #[trigger] corrected(kind, p, n)[j] <= nugget_cap(kind, n, j) + 1,
        forall|j: int|
            1 <= j < p.len() - 1 ==> #[trigger] corrected(kind, p, n)[j] <= nugget_cap(kind, n, j),
        p.len() == 2 ==> corrected(kind, p, n)[1] <= nugget_cap(kind, n, 1),
{
    lemma_recipe_wf(kind);
    lemma_raw_facts(kind, p, n);
    let raw = raw_nuggets(p, n);
    if p.len() == 2 {
        lemma_sum_int_2(raw);
    } else {
        lemma_sum_int_3(raw);
    }
}

/// When the raw vector either already sums to `20 * n` or keeps its last
/// entry within the cap, every constituent after the first respects its cap
/// in the corrected vector. Two-part alloys always do.
pub proof fn lemma_corrected_in_range(kind: Alloys, p: Seq<BaseMetal<u32>>, n: int)
    requires
        canonical_wf(kind, p),
        sum_bp(p) == 10000,
        1 <= n <= 25,
        p.len() == 2 || sum_int(raw_nuggets(p, n)) == 20 * n || raw_nuggets(p, n)[p.len() - 1]
            <= nugget_cap(kind, n, p.len() - 1),
    ensures
        forall|j: int|
            1 <= j < p.len() ==> #[trigger] corrected(kind, p, n)[j] <= nugget_cap(kind, n, j),
{
    lemma_recipe_wf(kind);
    lemma_raw_facts(kind, p, n);
    let raw = raw_nuggets(p, n);
    if p.len() == 2 {
        lemma_sum_int_2(raw);
    } else {
        lemma_sum_int_3(raw);
    }
}

// ---------------------------------------------------------------------------
// The executable engine.
// ---------------------------------------------------------------------------

/// Calculates the maximum number of ingots possible with the supplied
/// constituent percentages, starting at the crucible's outright limit and
/// working downwards.
pub(crate) fn calculate_max_ingots(p: &Vec<BaseMetal<u32>>) -> (r: i32)
    requires
        p@.len() <= 3,
        forall|j: int| 0 <= j < p@.len() ==> (#[trigger] p@[j]).spec_value() <= 10000,
    ensures
        r as int == spec_max_ingots(p@),
        0 <= r <= 25,
{
    let mut total: u32 = 0;
    let mut i: usize = 0;
    while i < p.len()
        invariant
            0 <= i <= p@.len(),
            p@.len() <= 3,
            forall|j: int| 0 <= j < p@.len() ==> (#[trigger] p@[j]).spec_value() <= 10000,
            total == sum_bp(p@.take(i as int)),
            total <= 10000 * i,
        decreases p@.len() - i,
    {
        proof {
            assert(p@.take(i + 1).drop_last() =~= p@.take(i as int));
            assert(p@.take(i + 1).last() == p@[i as int]);
        }
        total = total + p[i].value();
        i = i + 1;
    }
    proof {
        assert(p@.take(p@.len() as int) =~= p@);
    }
    let mut num: i32 = 25;
    while num > 0
        invariant
            0 <= num <= 25,
            p@.len() <= 3,
            forall|j: int| 0 <= j < p@.len() ==> (#[trigger] p@[j]).spec_value() <= 10000,
            total == sum_bp(p@),
            spec_max_ingots(p@) == spec_max_ingots_from(p@, num as int),
        decreases num,
    {
        let mut slots: u32 = 0;
        let mut j: usize = 0;
        while j < p.len()
            invariant
                0 <= j <= p@.len(),
                p@.len() <= 3,
                1 <= num <= 25,
                forall|k: int| 0 <= k < p@.len() ==> (#[trigger] p@[k]).spec_value() <= 10000,
                slots == slots_needed(p@.take(j as int), num as int),
                slots <= 4 * j,
            decreases p@.len() - j,
        {
            proof {
                assert((num as int) * p@[j as int].spec_value() <= 250000) by (nonlinear_arith)
                    requires
                        0 <= num <= 25 && 0 <= p@[j as int].spec_value() <= 10000,
                ;
                assert(0 <= (num as int) * p@[j as int].spec_value()) by (nonlinear_arith)
                    requires
                        0 <= num && 0 <= p@[j as int].spec_value(),
                ;
            }
            let units: u32 = (num as u32) * p[j].value();
            let s: u32 = (units + 63999) / 64000;
            proof {
                assert(p@.take(j + 1).drop_last() =~= p@.take(j as int));
                assert(p@.take(j + 1).last() == p@[j as int]);
                assert(s as int == ceil_div((num as int) * p@[j as int].spec_value(), 64000));
                assert(s <= 4) by {
                    lemma_floor_mono(units as int + 63999, 313999, 64000);
                }
            }
            slots = slots + s;
            j = j + 1;
        }
        proof {
            assert(p@.take(p@.len() as int) =~= p@);
        }
        if total == 10000 && slots <= 4 {
            proof {
                assert(fits(p@, num as int));
            }
            return num;
        }
        proof {
            assert(!fits(p@, num as int));
        }
        num = num - 1;
    }
    0
}

/// Computes the corrected nugget vector, without tags, for `num_ingots`
/// ingots of a canonical composition: floors for every constituent but the
/// last, the ceiling of the remainder for the last, then the correction
/// pass.
pub(crate) fn compute_amounts(kind: Alloys, p: &Vec<BaseMetal<u32>>, num_ingots: i32) -> (v: Vec<i32>)
    requires
        canonical_wf(kind, p@),
        sum_bp(p@) == 10000,
        1 <= num_ingots <= 25,
    ensures
        as_ints(v@) == corrected(kind, p@, num_ingots as int),
        v@.len() == kind.arity_spec(),
{
    proof {
        lemma_recipe_wf(kind);
        lemma_raw_facts(kind, p@, num_ingots as int);
    }
    let ghost gn = num_ingots as int;
    let ghost raw = raw_nuggets(p@, gn);
    let n = num_ingots as u32;
    let len = p.len();
    let mut v: Vec<i32> = Vec::new();
    let mut head: u32 = 0;
    let mut i: usize = 0;
    while i < len - 1
        invariant
            0 <= i < len,
            len == p@.len(),
            2 <= len <= 3,
            n == gn,
            1 <= gn <= 25,
            canonical_wf(kind, p@),
            sum_bp(p@) == 10000,
            raw == raw_nuggets(p@, gn),
            forall|j: int| 0 <= j < p@.len() ==> (#[trigger] p@[j]).spec_value() <= 10000,
            head == sum_bp(p@.take(i as int)),
            head <= 10000 * i,
            v@.len() == i,
            forall|k: int| 0 <= k < i ==> #[trigger] v@[k] as int == raw[k],
            forall|k: int| 0 <= k < i ==> 0 <= #[trigger] v@[k] <= 500,
        decreases len - i,
    {
        let bp = p[i].value();
        proof {
            assert(0 <= gn * p@[i as int].spec_value() <= 250000) by (nonlinear_arith)
                requires
                    1 <= gn <= 25 && 0 <= p@[i as int].spec_value() <= 10000,
            ;
        }
        let q: u32 = (n * bp) / 500;
        proof {
            assert(p@.take(i + 1).drop_last() =~= p@.take(i as int));
            assert(p@.take(i + 1).last() == p@[i as int]);
            assert(q as int == (gn * p@[i as int].spec_value()) / 500);
            assert(q <= 500) by {
                lemma_floor_mono(gn * p@[i as int].spec_value(), 250000, 500);
            }
        }
        v.push(q as i32);
        head = head + bp;
        i = i + 1;
    }
    proof {
        assert(p@.take(len - 1) =~= p@.drop_last());
        assert(head == sum_bp(p@.drop_last()));
        assert(head == 10000 - p@.last().spec_value());
        assert(head <= 10000);
    }
    proof {
        assert(0 <= gn * (10000 - head as int) <= 250000) by (nonlinear_arith)
            requires
                1 <= gn <= 25 && 0 <= 10000 - head as int <= 10000,
        ;
    }
    let rem: u32 = n * (10000 - head);
    let q_last: u32 = (rem + 499) / 500;
    proof {
        assert(q_last as int == ceil_div(gn * (10000 - sum_bp(p@.drop_last())), 500));
        assert(q_last as int == raw[len - 1]);
        assert(q_last <= 501) by {
            lemma_floor_mono(gn * (10000 - head as int) + 499, 250499, 500);
        }
    }
    v.push(q_last as i32);
    proof {
        assert(as_ints(v@) =~= raw);
    }

    // The correction pass.
    let t: i32 = 20 * num_ingots;
    let ranges = kind.percentage_ranges();
    let mut w: Vec<i32> = Vec::new();
    if len == 2 {
        let a = v[0];
        let b = v[1];
        let s = a + b;
        proof {
            assert(ranges@[1].spec_value() == kind.range_at(1));
            assert(0 <= kind.range_at(1).max * (20 * gn) <= 5000000) by (nonlinear_arith)
                requires
                    0 <= kind.range_at(1).max <= 10000 && 1 <= gn <= 25,
            ;
        }
        let max_b: i32 = ((ranges[1].value().max * (20 * n)) / 10000) as i32;
        proof {
            assert(max_b as int == nugget_cap(kind, gn, 1)) by {
                lemma_floor_mono(kind.range_at(1).max * (20 * gn), 5000000, 10000);
            }
            lemma_sum_int_2(as_ints(v@));
            assert(s as int == sum_int(raw));
        }
        if s != t {
            if b < max_b {
                w.push(a);
                w.push(b + 1);
            } else {
                w.push(a + 1);
                w.push(b);
            }
        } else if b > max_b {
            w.push(a + 1);
            w.push(b - 1);
        } else {
            w.push(a);
            w.push(b);
        }
        proof {
            assert(as_ints(w@) =~= correct_seq(kind, raw, gn));
        }
    } else {
        let a = v[0];
        let b = v[1];
        let c = v[2];
        let s = a + b + c;
        proof {
            assert(ranges@[1].spec_value() == kind.range_at(1));
            assert(ranges@[2].spec_value() == kind.range_at(2));
            assert(0 <= kind.range_at(1).max * (20 * gn) <= 5000000) by (nonlinear_arith)
                requires
                    0 <= kind.range_at(1).max <= 10000 && 1 <= gn <= 25,
            ;
            assert(0 <= kind.range_at(2).max * (20 * gn) <= 5000000) by (nonlinear_arith)
                requires
                    0 <= kind.range_at(2).max <= 10000 && 1 <= gn <= 25,
            ;
        }
        let max_b: i32 = ((ranges[1].value().max * (20 * n)) / 10000) as i32;
        let max_c: i32 = ((ranges[2].value().max * (20 * n)) / 10000) as i32;
        proof {
            assert(max_b as int == nugget_cap(kind, gn, 1)) by {
                lemma_floor_mono(kind.range_at(1).max * (20 * gn), 5000000, 10000);
            }
            assert(max_c as int == nugget_cap(kind, gn, 2)) by {
                lemma_floor_mono(kind.range_at(2).max * (20 * gn), 5000000, 10000);
            }
            lemma_sum_int_3(as_ints(v@));
            assert(s as int == sum_int(raw));
        }
        if s != t {
            if c < max_c {
                w.push(a);
                w.push(b);
                w.push(c + 1);
            } else if b < max_b {
                w.push(a);
                w.push(b + 1);
                w.push(c);
            } else {
                w.push(a + 1);
                w.push(b);
                w.push(c);
            }
        } else if c > max_c {
            if b + 1 > max_b {
                w.push(a + 1);
                w.push(b);
                w.push(c - 1);
            } else {
                w.push(a);
                w.push(b + 1);
                w.push(c - 1);
            }
        } else {
            w.push(a);
            w.push(b);
            w.push(c);
        }
        proof {
            assert(as_ints(w@) =~= correct_seq(kind, raw, gn));
        }
    }
    w
}

// ---------------------------------------------------------------------------
// The default maxima of the recipe table, computed once and for all.
// ---------------------------------------------------------------------------

/// The slots of a two-part composition, constituent by constituent.
proof fn lemma_slots_2(p: Seq<BaseMetal<u32>>, num: int)
    requires
        p.len() == 2,
    ensures
        slots_needed(p, num) == ceil_div(num * p[0].spec_value(), 64000) + ceil_div(
            num * p[1].spec_value(),
            64000,
        ),
{
    let p1 = p.drop_last();
    assert(p1.drop_last() =~= Seq::<BaseMetal<u32>>::empty());
    assert(slots_needed(p1.drop_last(), num) == 0);
    assert(p1.last() == p[0]);
    assert(slots_needed(p, num) == slots_needed(p1, num) + ceil_div(
        num * p.last().spec_value(),
        64000,
    ));
}

/// The slots of a three-part composition, constituent by constituent.
proof fn lemma_slots_3(p: Seq<BaseMetal<u32>>, num: int)
    requires
        p.len() == 3,
    ensures
        slots_needed(p, num) == ceil_div(num * p[0].spec_value(), 64000) + ceil_div(
            num * p[1].spec_value(),
            64000,
        ) + ceil_div(num * p[2].spec_value(), 64000),
{
    let p2 = p.drop_last();
    lemma_slots_2(p2, num);
    assert(p2[0] == p[0] && p2[1] == p[1]);
    assert(slots_needed(p, num) == slots_needed(p2, num) + ceil_div(
        num * p.last().spec_value(),
        64000,
    ));
}

/// More ingots never need fewer slots.
proof fn lemma_slots_mono(p: Seq<BaseMetal<u32>>, m1: int, m2: int)
    requires
        0 <= m1 <= m2,
    ensures
        slots_needed(p, m1) <= slots_needed(p, m2),
    decreases p.len(),
{
    if p.len() > 0 {
        lemma_slots_mono(p.drop_last(), m1, m2);
        let v = p.last().spec_value() as int;
        assert(0 <= m1 * v && m1 * v <= m2 * v) by (nonlinear_arith)
            requires
                0 <= m1 <= m2 && 0 <= v,
        ;
        lemma_ceil_mono(m1 * v, m2 * v, 64000);
    }
}

/// The search from `hi` lands exactly on the largest count that fits.
proof fn lemma_max_exact(p: Seq<BaseMetal<u32>>, hi: int, t: int)
    requires
        1 <= t <= hi,
        fits(p, t),
        forall|m: int| t < m <= hi ==> !#[trigger] fits(p, m),
    ensures
        spec_max_ingots_from(p, hi) == t,
    decreases hi - t,
{
    if hi > t {
        lemma_max_exact(p, hi - 1, t);
    }
}

/// Every recipe's default maximum ingot count is exactly what the search
/// computes for its default composition.
pub proof fn lemma_default_max_ingots(kind: Alloys)
    ensures
        spec_max_ingots(kind.defaults_seq()) == kind.default_max_ingots(),
{
    lemma_defaults_canonical(kind);
    let d = kind.defaults_seq();
    let t = kind.default_max_ingots();
    if kind.arity_spec() == 2 {
        lemma_slots_2(d, t);
        if t < 25 {
            lemma_slots_2(d, t + 1);
        }
    } else {
        lemma_slots_3(d, t);
        lemma_slots_3(d, t + 1);
    }
    assert(slots_needed(d, t) <= 4);
    match kind {
        Alloys::TinBronze => {
            assert(ceil_div(21int * 9200, 64000) == 4 && ceil_div(21int * 800, 64000) == 1) by {
                lemma_ceil_div_bounds(21int * 9200, 64000);
                lemma_ceil_div_bounds(21int * 800, 64000);
            }
        },
        Alloys::BismuthBronze => {
            assert(ceil_div(22int * 6000, 64000) == 3 && ceil_div(22int * 2000, 64000) == 1) by {
                lemma_ceil_div_bounds(22int * 6000, 64000);
                lemma_ceil_div_bounds(22int * 2000, 64000);
            }
        },
        Alloys::BlackBronze => {
            assert(ceil_div(16int * 8400, 64000) == 3 && ceil_div(16int * 800, 64000) == 1) by {
                lemma_ceil_div_bounds(16int * 8400, 64000);
                lemma_ceil_div_bounds(16int * 800, 64000);
            }
        },
        Alloys::Brass => {
            assert(ceil_div(22int * 7000, 64000) == 3 && ceil_div(22int * 3000, 64000) == 2) by {
                lemma_ceil_div_bounds(22int * 7000, 64000);
                lemma_ceil_div_bounds(22int * 3000, 64000);
            }
        },
        Alloys::Molybdochalkos => {
            assert(ceil_div(21int * 9200, 64000) == 4 && ceil_div(21int * 800, 64000) == 1) by {
                lemma_ceil_div_bounds(21int * 9200, 64000);
                lemma_ceil_div_bounds(21int * 800, 64000);
            }
        },
        Alloys::LeadSolder => {
            assert(ceil_div(24int * 4500, 64000) == 2 && ceil_div(24int * 5500, 64000) == 3) by {
                lemma_ceil_div_bounds(24int * 4500, 64000);
                lemma_ceil_div_bounds(24int * 5500, 64000);
            }
        },
        Alloys::SilverSolder => {},
        Alloys::Electrum => {
            assert(ceil_div(22int * 4000, 64000) == 2 && ceil_div(22int * 6000, 64000) == 3) by {
                lemma_ceil_div_bounds(22int * 4000, 64000);
                lemma_ceil_div_bounds(22int * 6000, 64000);
            }
        },
        Alloys::Cupronickel => {},
    }
    assert(t < 25 ==> slots_needed(d, t + 1) > 4);
    assert forall|m: int| t < m <= 25 implies !#[trigger] fits(d, m) by {
        lemma_slots_mono(d, t + 1, m);
    }
    lemma_max_exact(d, 25, t);
}

} // verus!
