use vstd::prelude::*;
use vstd::arithmetic::div_mod::*;
use vstd::arithmetic::mul::*;

verus! {

/// Blocks produced in one year (about six blocks per minute).
pub const BLOCKS_PER_YEAR: u64 = 3_153_600;

/// Staking horizon used when sizing the yield tokens minted at stake time (two years).
pub const MAX_BLOCKS_STAKED: u64 = 6_307_200;

/// Yield owed on `stake_amount` after `blocks_passed` blocks at `annual_rate` percent a year:
/// `principal * rate * time / (100 * blocks_per_year)`, rounded down.
pub open spec fn yield_for(stake_amount: int, blocks_passed: int, annual_rate: int) -> int {
    (stake_amount * annual_rate * blocks_passed) / (100 * BLOCKS_PER_YEAR as int)
}

/// The product that `calculate_yield` forms fits in a `u64` (or is never formed,
/// because one of the factors is zero).
pub open spec fn yield_fits(stake_amount: u64, blocks_passed: u64, annual_rate: u64) -> bool {
    stake_amount == 0 || blocks_passed == 0 || annual_rate == 0
        || stake_amount * annual_rate * blocks_passed <= u64::MAX
}

proof fn lemma_partial_product_fits(a: u64, b: u64, c: u64)
    requires
        c >= 1,
        a * b * c <= u64::MAX,
    ensures
        a * b <= u64::MAX,
        (a * b) * c == a * b * c,
{
    assert(a * b <= a * b * c) by (nonlinear_arith)
        requires c >= 1, a >= 0, b >= 0;
}

/// Yield earned by a stake over a number of blocks.
pub fn calculate_yield(stake_amount: u64, blocks_passed: u64, annual_rate: u64) -> (r: u64)
    requires
        yield_fits(stake_amount, blocks_passed, annual_rate),
    ensures
        r == yield_for(stake_amount as int, blocks_passed as int, annual_rate as int),
{
    if stake_amount == 0 || blocks_passed == 0 || annual_rate == 0 {
        proof {
            lemma_mul_by_zero_is_zero(stake_amount as int);
            lemma_mul_by_zero_is_zero(annual_rate as int);
            lemma_mul_by_zero_is_zero(blocks_passed as int);
            lemma_mul_by_zero_is_zero(stake_amount * annual_rate);
            assert(stake_amount * annual_rate * blocks_passed == 0);
        }
        return 0;
    }
    proof {
        lemma_partial_product_fits(stake_amount, annual_rate, blocks_passed);
    }
    let product: u64 = stake_amount * annual_rate * blocks_passed;
    product / (100 * BLOCKS_PER_YEAR)
}

/// Yield a stake would earn over the full two-year staking horizon.
pub fn calculate_max_yield(stake_amount: u64, annual_rate: u64) -> (r: u64)
    requires
        yield_fits(stake_amount, MAX_BLOCKS_STAKED, annual_rate),
    ensures
        r == yield_for(stake_amount as int, MAX_BLOCKS_STAKED as int, annual_rate as int),
{
    calculate_yield(stake_amount, MAX_BLOCKS_STAKED, annual_rate)
}

/// Tells whether `calculate_yield` can be called on these values without overflow.
pub fn yield_fits_exec(stake_amount: u64, blocks_passed: u64, annual_rate: u64) -> (b: bool)
    ensures
        b == yield_fits(stake_amount, blocks_passed, annual_rate),
{
    if stake_amount == 0 || blocks_passed == 0 || annual_rate == 0 {
        return true;
    }
    match stake_amount.checked_mul(annual_rate) {
        None => {
            proof {
                assert(stake_amount * annual_rate <= stake_amount * annual_rate * blocks_passed)
                    by (nonlinear_arith)
                    requires blocks_passed >= 1, stake_amount >= 0, annual_rate >= 0;
            }
            false
        },
        Some(sr) => match sr.checked_mul(blocks_passed) {
            None => false,
            Some(_) => true,
        },
    }
}

/// Law: a stake earns nothing when the stake, the elapsed time or the rate is zero.
pub proof fn lemma_yield_zero_when_any_input_zero(stake_amount: int, blocks_passed: int, annual_rate: int)
    requires
        stake_amount == 0 || blocks_passed == 0 || annual_rate == 0,
    ensures
        yield_for(stake_amount, blocks_passed, annual_rate) == 0,
{
    lemma_mul_by_zero_is_zero(stake_amount);
    lemma_mul_by_zero_is_zero(annual_rate);
    lemma_mul_by_zero_is_zero(blocks_passed);
    lemma_mul_by_zero_is_zero(stake_amount * annual_rate);
}

/// Law: yield never decreases as more blocks pass.
pub proof fn lemma_yield_monotone_in_blocks(stake_amount: int, annual_rate: int, b1: int, b2: int)
    requires
        0 <= stake_amount,
        0 <= annual_rate,
        0 <= b1 <= b2,
    ensures
        yield_for(stake_amount, b1, annual_rate) <= yield_for(stake_amount, b2, annual_rate),
{
    let sr = stake_amount * annual_rate;
    assert(sr * b1 <= sr * b2) by (nonlinear_arith)
        requires sr == stake_amount * annual_rate, 0 <= stake_amount, 0 <= annual_rate, 0 <= b1 <= b2;
    lemma_div_is_ordered(sr * b1, sr * b2, 100 * BLOCKS_PER_YEAR as int);
}

/// Law: over exactly one year a stake earns `annual_rate` percent of itself, rounded down.
pub proof fn lemma_yield_over_one_year(stake_amount: int, annual_rate: int)
    requires
        0 <= stake_amount,
        0 <= annual_rate,
    ensures
        yield_for(stake_amount, BLOCKS_PER_YEAR as int, annual_rate) == (stake_amount * annual_rate) / 100,
{
    let sr = stake_amount * annual_rate;
    let y = BLOCKS_PER_YEAR as int;
    assert(sr >= 0) by (nonlinear_arith) requires 0 <= stake_amount, 0 <= annual_rate, sr == stake_amount * annual_rate;
    lemma_mul_is_commutative(100, y);
    lemma_div_denominator(sr * y, y, 100);
    lemma_div_multiples_vanish(sr, y);
    lemma_mul_is_commutative(sr, y);
}

/// Law: splitting a staking period in two never earns more than the whole period, and
/// loses at most one token to rounding.
pub proof fn lemma_yield_period_split(stake_amount: int, annual_rate: int, b1: int, b2: int)
    requires
        0 <= stake_amount,
        0 <= annual_rate,
        0 <= b1,
        0 <= b2,
    ensures
        yield_for(stake_amount, b1, annual_rate) + yield_for(stake_amount, b2, annual_rate)
            <= yield_for(stake_amount, b1 + b2, annual_rate),
        yield_for(stake_amount, b1 + b2, annual_rate) <= yield_for(stake_amount, b1, annual_rate)
            + yield_for(stake_amount, b2, annual_rate) + 1,
{
    let sr = stake_amount * annual_rate;
    let d = 100 * BLOCKS_PER_YEAR as int;
    let x = sr * b1;
    let y = sr * b2;
    assert(sr * (b1 + b2) == x + y) by {
        lemma_mul_is_distributive_add(sr, b1, b2);
    }
    assert(x >= 0 && y >= 0) by (nonlinear_arith)
        requires sr == stake_amount * annual_rate, x == sr * b1, y == sr * b2,
            0 <= stake_amount, 0 <= annual_rate, 0 <= b1, 0 <= b2;
    lemma_fundamental_div_mod(x, d);
    lemma_fundamental_div_mod(y, d);
    lemma_fundamental_div_mod(x + y, d);
    lemma_remainder(x, d);
    lemma_remainder(y, d);
    lemma_remainder(x + y, d);
    let qx = x / d;
    let qy = y / d;
    let q = (x + y) / d;
    assert(qx + qy <= q <= qx + qy + 1) by (nonlinear_arith)
        requires
            d > 0,
            x == d * qx + x % d,
            y == d * qy + y % d,
            x + y == d * q + (x + y) % d,
            0 <= x % d < d,
            0 <= y % d < d,
            0 <= (x + y) % d < d;
}

} // verus!
