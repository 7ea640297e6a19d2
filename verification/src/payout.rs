//! Base payout calculator.
//!
//! Only exact three-of-a-kind combinations pay: the payout is the bet times
//! a fixed per-symbol multiplier, with rarer symbols configured higher.
//! Partial matches pay nothing, and a symbol index outside the table is a
//! defensive zero. The multiplication is checked: overflow aborts the
//! settlement rather than clamping.

use vstd::prelude::*;
use crate::errors::ErrorCode;
use crate::symbols::SYMBOL_COUNT;

verus! {

/// Three-of-a-kind multiplier of symbol `i`; zero outside the table.
pub open spec fn symbol_multiplier(i: int) -> int {
    if i == 0 {
        553
    } else if i == 1 {
        387
    } else if i == 2 {
        276
    } else if i == 3 {
        221
    } else if i == 4 {
        166
    } else if i == 5 {
        124
    } else if i == 6 {
        97
    } else if i == 7 {
        69
    } else if i == 8 {
        55
    } else if i == 9 {
        41
    } else if i == 10 {
        28
    } else if i == 11 {
        14
    } else {
        0
    }
}

/// The base payout owed for three symbols and a bet: `bet * multiplier`
/// for a three-of-a-kind within the table, zero otherwise, and an overflow
/// error when the product does not fit.
pub open spec fn spec_base_payout(s1: u8, s2: u8, s3: u8, bet: u64) -> Result<u64, ErrorCode> {
    if s1 as int >= SYMBOL_COUNT || s2 as int >= SYMBOL_COUNT || s3 as int >= SYMBOL_COUNT {
        Ok(0)
    } else if s1 == s2 && s2 == s3 {
        let full = (bet as int) * symbol_multiplier(s1 as int);
        if full <= u64::MAX {
            Ok(full as u64)
        } else {
            Err(ErrorCode::MathOverflow)
        }
    } else {
        Ok(0)
    }
}

/// Multiplier of symbol `idx` as executable code; mirrors
/// `symbol_multiplier`.
pub fn multiplier_of(idx: usize) -> (m: u64)
    ensures
        m == symbol_multiplier(idx as int),
{
    if idx == 0 {
        553
    } else if idx == 1 {
        387
    } else if idx == 2 {
        276
    } else if idx == 3 {
        221
    } else if idx == 4 {
        166
    } else if idx == 5 {
        124
    } else if idx == 6 {
        97
    } else if idx == 7 {
        69
    } else if idx == 8 {
        55
    } else if idx == 9 {
        41
    } else if idx == 10 {
        28
    } else if idx == 11 {
        14
    } else {
        0
    }
}

/// Computes the base payout for a spin: only exact three-of-a-kind pays,
/// and the bet-times-multiplier product is checked for overflow.
pub fn calculate_payout_3oak(symbols: [u8; 3], bet_amount: u64) -> (result: Result<u64, ErrorCode>)
    ensures
        result == spec_base_payout(symbols[0], symbols[1], symbols[2], bet_amount),
{
    let s1 = symbols[0];
    let s2 = symbols[1];
    let s3 = symbols[2];

    if s1 as usize >= SYMBOL_COUNT || s2 as usize >= SYMBOL_COUNT || s3 as usize >= SYMBOL_COUNT {
        return Ok(0);
    }

    if s1 == s2 && s2 == s3 {
        let mult = multiplier_of(s1 as usize);
        return match bet_amount.checked_mul(mult) {
            Some(v) => Ok(v),
            None => Err(ErrorCode::MathOverflow),
        };
    }

    Ok(0)
}

/// The base payout is nonzero exactly for a three-of-a-kind: with in-range
/// symbols, a positive bet and a product that fits, the payout is
/// `bet * multiplier` when all three symbols agree and zero otherwise.
/// (With a zero bet, even a three-of-a-kind pays zero.)
pub proof fn lemma_payout_nonzero_iff_three_of_a_kind(s1: u8, s2: u8, s3: u8, bet: u64)
    requires
        (s1 as int) < SYMBOL_COUNT,
        (s2 as int) < SYMBOL_COUNT,
        (s3 as int) < SYMBOL_COUNT,
        bet > 0,
        (bet as int) * symbol_multiplier(s1 as int) <= u64::MAX,
    ensures
        spec_base_payout(s1, s2, s3, bet) matches Ok(p) ==> ((p != 0 <==> (s1 == s2 && s2
            == s3)) && (s1 == s2 && s2 == s3 ==> p == (bet as int) * symbol_multiplier(s1 as int))),
        spec_base_payout(s1, s2, s3, bet) is Ok,
{
    if s1 == s2 && s2 == s3 {
        assert(symbol_multiplier(s1 as int) >= 14);
        assert((bet as int) * symbol_multiplier(s1 as int) >= (bet as int) * 14 >= 14) by (nonlinear_arith)
            requires bet >= 1 && symbol_multiplier(s1 as int) >= 14;
    }
}

} // verus!
