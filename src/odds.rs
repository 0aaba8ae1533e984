//! Solvency bounds of a pool and the odds of a lottery entry, in basis points.
use vstd::prelude::*;
use crate::types::InvoiceError;

verus! {

/// One whole, in basis points.
pub const BPS_DIVISOR: u64 = 10000;

/// Ceiling on a pool's house edge (10%).
pub const MAX_HOUSE_EDGE_BPS: u16 = 1000;

/// Ceiling on the share of a pool that is kept in reserve (50%).
pub const MAX_POOL_RESERVE_BPS: u16 = 5000;

/// Ceiling on the share of available liquidity that one entry may win (10%).
pub const MAX_WIN_PCT_BPS: u16 = 1000;

/// Ceiling on any entry's probability of winning (95%).
pub const MAX_WIN_PROBABILITY_BPS: u16 = 9500;

/// `a * b`, held at `u64::MAX` where the product does not fit.
pub open spec fn saturating_product(a: int, b: int) -> int {
    if a * b > u64::MAX as int {
        u64::MAX as int
    } else {
        a * b
    }
}

/// The liquidity that may be put at risk: the balance less the reserve.
pub open spec fn available_pool_of(total_balance: int, min_pool_reserve_bps: int) -> int {
    saturating_product(total_balance, BPS_DIVISOR - min_pool_reserve_bps) / BPS_DIVISOR as int
}

/// The largest invoice amount that one entry may be admitted for.
pub open spec fn max_win_of(total_balance: int, min_pool_reserve_bps: int, max_win_pct_bps: int) -> int {
    saturating_product(available_pool_of(total_balance, min_pool_reserve_bps), max_win_pct_bps)
        / BPS_DIVISOR as int
}

/// The invoice amount raised by the house edge.
pub open spec fn effective_invoice_of(invoice_amount: int, house_edge_bps: int) -> int {
    invoice_amount * (BPS_DIVISOR + house_edge_bps) / BPS_DIVISOR as int
}

/// Whether the raised amount can be computed in 64 bits.
pub open spec fn effective_invoice_fits(invoice_amount: int, house_edge_bps: int) -> bool {
    invoice_amount * (BPS_DIVISOR + house_edge_bps) <= u64::MAX as int
}

/// `min(9500, premium * 10000 / effective_invoice)`, and 0 where the
/// effective invoice is 0.
pub open spec fn win_probability_of(invoice_amount: int, house_edge_bps: int, premium: int) -> int {
    let effective = effective_invoice_of(invoice_amount, house_edge_bps);
    if effective == 0 {
        0
    } else if premium * BPS_DIVISOR / effective > MAX_WIN_PROBABILITY_BPS as int {
        MAX_WIN_PROBABILITY_BPS as int
    } else {
        premium * BPS_DIVISOR / effective
    }
}

/// The draw from a random value: its first two bytes read little-endian,
/// modulo 10000.
pub open spec fn draw_of(random: Seq<u8>) -> int {
    (random[0] as int + 256 * random[1] as int) % BPS_DIVISOR as int
}

/// A draw wins when it lies strictly below the probability.
pub open spec fn wins(draw: int, win_probability_bps: int) -> bool {
    draw < win_probability_bps
}

/// `a * b`, held at `u64::MAX` where the product does not fit.
pub fn saturating_mul(a: u64, b: u64) -> (r: u64)
    ensures
        r == saturating_product(a as int, b as int),
{
    match a.checked_mul(b) {
        Some(p) => p,
        None => u64::MAX,
    }
}

/// Liquidity that the reserve leaves open to risk, with a saturating multiply.
pub fn available_pool(total_balance: u64, min_pool_reserve_bps: u16) -> (r: u64)
    requires
        min_pool_reserve_bps <= BPS_DIVISOR,
    ensures
        r == available_pool_of(total_balance as int, min_pool_reserve_bps as int),
        r <= total_balance,
{
    let share = BPS_DIVISOR - min_pool_reserve_bps as u64;
    let product = saturating_mul(total_balance, share);
    proof {
        assert(total_balance * share <= total_balance * BPS_DIVISOR) by (nonlinear_arith)
            requires share <= BPS_DIVISOR;
    }
    product / BPS_DIVISOR
}

/// The largest invoice amount that a pool with these figures may admit.
pub fn max_win(total_balance: u64, min_pool_reserve_bps: u16, max_win_pct_bps: u16) -> (r: u64)
    requires
        min_pool_reserve_bps <= BPS_DIVISOR,
    ensures
        r == max_win_of(total_balance as int, min_pool_reserve_bps as int, max_win_pct_bps as int),
{
    let available = available_pool(total_balance, min_pool_reserve_bps);
    saturating_mul(available, max_win_pct_bps as u64) / BPS_DIVISOR
}

/// The invoice amount raised by the house edge, or `ArithmeticOverflow`
/// where the product does not fit in 64 bits.
pub fn effective_invoice(invoice_amount: u64, house_edge_bps: u16) -> (r: Result<u64, InvoiceError>)
    ensures
        effective_invoice_fits(invoice_amount as int, house_edge_bps as int)
            ==> r == Ok::<u64, InvoiceError>(
            effective_invoice_of(invoice_amount as int, house_edge_bps as int) as u64,
        ),
        !effective_invoice_fits(invoice_amount as int, house_edge_bps as int)
            ==> r == Err::<u64, InvoiceError>(InvoiceError::ArithmeticOverflow),
{
    let multiplier = BPS_DIVISOR + house_edge_bps as u64;
    match invoice_amount.checked_mul(multiplier) {
        Some(product) => Ok(product / BPS_DIVISOR),
        None => Err(InvoiceError::ArithmeticOverflow),
    }
}

/// The probability, in basis points, that an entry with this premium wins:
/// `min(9500, premium * 10000 / effective_invoice)`, or 0 where the effective
/// invoice is 0. The only failure is an effective invoice beyond 64 bits.
pub fn win_probability_bps(invoice_amount: u64, house_edge_bps: u16, premium: u64) -> (r: Result<u16, InvoiceError>)
    ensures
        effective_invoice_fits(invoice_amount as int, house_edge_bps as int) ==> r == Ok::<u16, InvoiceError>(
            win_probability_of(invoice_amount as int, house_edge_bps as int, premium as int) as u16,
        ),
        !effective_invoice_fits(invoice_amount as int, house_edge_bps as int)
            ==> r == Err::<u16, InvoiceError>(InvoiceError::ArithmeticOverflow),
        r matches Ok(p) ==> 0 <= p <= MAX_WIN_PROBABILITY_BPS,
{
    let effective = match effective_invoice(invoice_amount, house_edge_bps) {
        Ok(e) => e,
        Err(e) => return Err(e),
    };
    if effective == 0 {
        return Ok(0);
    }
    proof {
        assert(premium as int * BPS_DIVISOR as int <= u64::MAX as int * BPS_DIVISOR as int)
            by (nonlinear_arith);
    }
    let scaled: u128 = premium as u128 * BPS_DIVISOR as u128;
    let ratio: u128 = scaled / effective as u128;
    if ratio > MAX_WIN_PROBABILITY_BPS as u128 {
        Ok(MAX_WIN_PROBABILITY_BPS)
    } else {
        Ok(ratio as u16)
    }
}

/// The draw from a 32-byte random value, in `[0, 10000)`.
pub fn draw_value(random_bytes: &[u8; 32]) -> (r: u16)
    ensures
        r as int == draw_of(random_bytes@),
        r < BPS_DIVISOR,
{
    let low = random_bytes[0] as u16;
    let high = random_bytes[1] as u16;
    (low + high * 256) % 10000
}

/// Whether a draw wins against a probability: strictly below it.
pub fn is_win(draw: u16, win_probability_bps: u16) -> (r: bool)
    ensures
        r == wins(draw as int, win_probability_bps as int),
{
    draw < win_probability_bps
}

} // verus!

verus! {

/// Every probability lies in `[0, 9500]` basis points, whatever the premium,
/// invoice amount and house edge.
pub proof fn lemma_win_probability_bounded(invoice_amount: u64, house_edge_bps: u16, premium: u64)
    ensures
        0 <= win_probability_of(invoice_amount as int, house_edge_bps as int, premium as int)
            <= MAX_WIN_PROBABILITY_BPS,
{
    let effective = effective_invoice_of(invoice_amount as int, house_edge_bps as int);
    assert(invoice_amount as int * (BPS_DIVISOR + house_edge_bps) >= 0) by (nonlinear_arith);
    if effective != 0 {
        assert(premium as int * BPS_DIVISOR as int / effective >= 0) by (nonlinear_arith)
            requires effective > 0, premium >= 0;
    }
}

} // verus!
