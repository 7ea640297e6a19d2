//! Weighted reel-symbol generator.
//!
//! A raw 64-bit random value is reduced modulo the total weight and mapped
//! to a symbol index by scanning the weight table in index order: the first
//! symbol whose cumulative weight exceeds the residue is returned. Symbol
//! `i` therefore owns exactly `symbol_weight(i)` of the `TOTAL_WEIGHT`
//! residues, which fixes its long-run frequency at `w_i / total`.

use vstd::prelude::*;
use vstd::set_lib::set_int_range;
use vstd::set_lib::lemma_int_range;

verus! {

/// Number of distinct reel symbols.
pub const SYMBOL_COUNT: usize = 12;

/// Sum of all symbol weights.
pub const TOTAL_WEIGHT: u64 = 78;

/// Selection weight of symbol `i`: the table is `1, 2, .., 12`, so lower
/// indices are rarer. Indices outside the table weigh nothing.
pub open spec fn symbol_weight(i: int) -> int {
    if 0 <= i < SYMBOL_COUNT { i + 1 } else { 0 }
}

/// Total weight of the symbols before index `i` (the scan's running sum).
pub open spec fn cum_weight(i: int) -> int
    decreases i,
{
    if i <= 0 {
        0
    } else {
        cum_weight(i - 1) + symbol_weight(i - 1)
    }
}

/// The index the scan settles on when started at `i` with residue `r`:
/// the first index from `i` on whose cumulative weight exceeds `r`, and the
/// last index as a fallback.
pub open spec fn symbol_from(r: int, i: int) -> int
    decreases SYMBOL_COUNT - i,
{
    if i >= SYMBOL_COUNT - 1 {
        SYMBOL_COUNT - 1
    } else if r < cum_weight(i + 1) {
        i
    } else {
        symbol_from(r, i + 1)
    }
}

/// The symbol owning residue `r`.
pub open spec fn symbol_for(r: int) -> int {
    symbol_from(r, 0)
}

/// The cumulative weights are nondecreasing in the index.
pub proof fn lemma_cum_weight_monotonic(i: int, j: int)
    requires
        i <= j,
    ensures
        cum_weight(i) <= cum_weight(j),
    decreases j - i,
{
    if i < j {
        lemma_cum_weight_monotonic(i, j - 1);
    }
}

/// The cumulative weight of the whole table is the total weight.
pub proof fn lemma_cum_weight_total()
    ensures
        cum_weight(SYMBOL_COUNT as int) == TOTAL_WEIGHT,
{
    reveal_with_fuel(cum_weight, 13);
}

/// Started at `i` on a residue at or past `i`'s cumulative weight, the scan
/// lands on a symbol whose residue interval contains `r`.
pub proof fn lemma_symbol_from_bounds(r: int, i: int)
    requires
        0 <= i < SYMBOL_COUNT,
        cum_weight(i) <= r < TOTAL_WEIGHT,
    ensures
        i <= symbol_from(r, i) < SYMBOL_COUNT,
        cum_weight(symbol_from(r, i)) <= r < cum_weight(symbol_from(r, i) + 1),
    decreases SYMBOL_COUNT - i,
{
    if i >= SYMBOL_COUNT - 1 {
        lemma_cum_weight_total();
    } else if r < cum_weight(i + 1) {
    } else {
        lemma_symbol_from_bounds(r, i + 1);
    }
}

/// A residue inside symbol `i`'s interval maps to symbol `i`.
pub proof fn lemma_symbol_for_interval(r: int, i: int)
    requires
        0 <= i < SYMBOL_COUNT,
        cum_weight(i) <= r,
        r < cum_weight(i + 1),
    ensures
        symbol_for(r) == i,
{
    lemma_cum_weight_monotonic(i + 1, SYMBOL_COUNT as int);
    lemma_cum_weight_total();
    lemma_cum_weight_monotonic(0, i);
    lemma_symbol_from_bounds(r, 0);
    let s = symbol_for(r);
    if s < i {
        lemma_cum_weight_monotonic(s + 1, i);
    } else if s > i {
        lemma_cum_weight_monotonic(i + 1, s);
    }
}

/// Exactly `symbol_weight(i)` of the `TOTAL_WEIGHT` residues map to symbol
/// `i`: over uniformly distributed raw values, symbol `i`'s frequency is
/// `symbol_weight(i) / TOTAL_WEIGHT`.
pub proof fn lemma_symbol_frequency(i: int)
    requires
        0 <= i < SYMBOL_COUNT,
    ensures
        Set::new(|r: int| 0 <= r < TOTAL_WEIGHT && symbol_for(r) == i) == set_int_range(
            cum_weight(i),
            cum_weight(i) + symbol_weight(i),
        ),
        Set::new(|r: int| 0 <= r < TOTAL_WEIGHT && symbol_for(r) == i).len() == symbol_weight(i),
{
    let owned = Set::new(|r: int| 0 <= r < TOTAL_WEIGHT && symbol_for(r) == i);
    let range = set_int_range(cum_weight(i), cum_weight(i) + symbol_weight(i));
    assert forall|r: int| owned.contains(r) implies range.contains(r) by {
        lemma_symbol_from_bounds(r, 0);
        if symbol_for(r) < i {
            lemma_cum_weight_monotonic(symbol_for(r) + 1, i);
        } else if symbol_for(r) > i {
            lemma_cum_weight_monotonic(i + 1, symbol_for(r));
        }
    }
    assert forall|r: int| range.contains(r) implies owned.contains(r) by {
        lemma_cum_weight_monotonic(0, i);
        lemma_cum_weight_monotonic(i + 1, SYMBOL_COUNT as int);
        lemma_cum_weight_total();
        lemma_symbol_for_interval(r, i);
    }
    assert(owned =~= range);
    lemma_int_range(cum_weight(i), cum_weight(i) + symbol_weight(i));
}

/// Weight of symbol `idx` as executable code; mirrors `symbol_weight`.
pub fn weight_of(idx: usize) -> (w: u64)
    requires
        idx < SYMBOL_COUNT,
    ensures
        w == symbol_weight(idx as int),
{
    (idx as u64) + 1
}

/// Samples a reel symbol from a raw 64-bit random value: reduces it modulo
/// `TOTAL_WEIGHT` and scans the weight table in index order, returning the
/// first index whose cumulative weight exceeds the residue.
pub fn generate_weighted_symbol(random_u64: u64) -> (s: u8)
    ensures
        (s as int) < SYMBOL_COUNT,
        s as int == symbol_for((random_u64 % TOTAL_WEIGHT) as int),
{
    let r0: u64 = random_u64 % TOTAL_WEIGHT;
    let mut r: u64 = r0;
    let mut idx: usize = 0;
    while idx < SYMBOL_COUNT
        invariant
            idx <= SYMBOL_COUNT,
            r0 == random_u64 % TOTAL_WEIGHT,
            r0 < TOTAL_WEIGHT,
            cum_weight(idx as int) <= r0 as int,
            r as int == r0 as int - cum_weight(idx as int),
        decreases SYMBOL_COUNT - idx,
    {
        let w = weight_of(idx);
        if r < w {
            proof {
                lemma_symbol_for_interval(r0 as int, idx as int);
            }
            return idx as u8;
        }
        r = r - w;
        idx = idx + 1;
    }
    proof {
        lemma_cum_weight_total();
    }
    (SYMBOL_COUNT - 1) as u8
}

} // verus!
