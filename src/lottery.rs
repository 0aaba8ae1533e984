//! The lottery pool, admission of entries against its solvency bound, and the
//! one-shot settlement of an entry.
use vstd::prelude::*;
use crate::odds::{
    draw_of, draw_value, effective_invoice_fits, is_win, max_win, max_win_of, win_probability_bps,
    win_probability_of, wins, MAX_HOUSE_EDGE_BPS, MAX_POOL_RESERVE_BPS,
    MAX_WIN_PCT_BPS, MAX_WIN_PROBABILITY_BPS,
};
use crate::types::{
    Holder, Invoice, InvoiceError, InvoiceStatus, LotteryEntry, LotteryPool, LotteryStatus, PartyId,
    Transfer,
};

verus! {

/// Seconds an invoice must have existed before a lottery entry is taken on it.
pub const MIN_INVOICE_AGE_SECS: i64 = 300;

impl LotteryPool {
    /// Bytes that a stored pool takes.
    pub const SPACE: usize = 8 + 32 + 32 + 8 + 8 + 8 + 8 + 8 + 2 + 2 + 2 + 1 + 1;

    /// The risk parameters lie within their ceilings.
    pub open spec fn wf(&self) -> bool {
        &&& self.house_edge_bps <= MAX_HOUSE_EDGE_BPS
        &&& self.min_pool_reserve_bps <= MAX_POOL_RESERVE_BPS
        &&& self.max_win_pct_bps <= MAX_WIN_PCT_BPS
    }

    /// The largest invoice amount that this pool may admit an entry for.
    pub open spec fn max_win_spec(&self) -> int {
        max_win_of(
            self.total_balance as int,
            self.min_pool_reserve_bps as int,
            self.max_win_pct_bps as int,
        )
    }

    /// The largest invoice amount that this pool may admit an entry for.
    pub fn current_max_win(&self) -> (r: u64)
        requires
            self.wf(),
        ensures
            r == self.max_win_spec(),
    {
        max_win(self.total_balance, self.min_pool_reserve_bps, self.max_win_pct_bps)
    }
}

impl LotteryEntry {
    /// Bytes that a stored entry takes.
    pub const SPACE: usize = 8 + 32 + 32 + 8 + 8 + 2 + 1 + 1 + 32 + 8 + 8 + 1;
}

/// The first risk parameter above its ceiling, if any.
pub open spec fn pool_params_error(house_edge_bps: u16, min_pool_reserve_bps: u16, max_win_pct_bps: u16) -> Option<InvoiceError> {
    if house_edge_bps > MAX_HOUSE_EDGE_BPS {
        Some(InvoiceError::HouseEdgeTooHigh)
    } else if min_pool_reserve_bps > MAX_POOL_RESERVE_BPS {
        Some(InvoiceError::ReserveTooHigh)
    } else if max_win_pct_bps > MAX_WIN_PCT_BPS {
        Some(InvoiceError::MaxWinTooHigh)
    } else {
        None
    }
}

/// An empty, running pool with the given parameters.
pub open spec fn new_pool(
    authority: PartyId,
    token_mint: PartyId,
    house_edge_bps: u16,
    min_pool_reserve_bps: u16,
    max_win_pct_bps: u16,
) -> LotteryPool {
    LotteryPool {
        authority,
        token_mint,
        total_balance: 0,
        total_premiums_collected: 0,
        total_payouts: 0,
        total_entries: 0,
        total_wins: 0,
        house_edge_bps,
        min_pool_reserve_bps,
        max_win_pct_bps,
        paused: false,
    }
}

/// Creates the pool of `token_mint`, administered by `authority`, or names
/// the risk parameter that is above its ceiling.
pub fn initialize_lottery_pool(
    authority: PartyId,
    token_mint: PartyId,
    house_edge_bps: u16,
    min_pool_reserve_bps: u16,
    max_win_pct_bps: u16,
) -> (r: Result<LotteryPool, InvoiceError>)
    ensures
        match pool_params_error(house_edge_bps, min_pool_reserve_bps, max_win_pct_bps) {
            Some(e) => r == Err::<LotteryPool, InvoiceError>(e),
            None => r == Ok::<LotteryPool, InvoiceError>(
                new_pool(authority, token_mint, house_edge_bps, min_pool_reserve_bps, max_win_pct_bps),
            ),
        },
        r matches Ok(p) ==> p.wf(),
{
    if house_edge_bps > MAX_HOUSE_EDGE_BPS {
        return Err(InvoiceError::HouseEdgeTooHigh);
    }
    if min_pool_reserve_bps > MAX_POOL_RESERVE_BPS {
        return Err(InvoiceError::ReserveTooHigh);
    }
    if max_win_pct_bps > MAX_WIN_PCT_BPS {
        return Err(InvoiceError::MaxWinTooHigh);
    }
    Ok(LotteryPool {
        authority,
        token_mint,
        total_balance: 0,
        total_premiums_collected: 0,
        total_payouts: 0,
        total_entries: 0,
        total_wins: 0,
        house_edge_bps,
        min_pool_reserve_bps,
        max_win_pct_bps,
        paused: false,
    })
}

/// The first precondition of a deposit into the pool that fails, if any.
pub open spec fn seed_error(pool: LotteryPool, amount: u64) -> Option<InvoiceError> {
    if pool.paused {
        Some(InvoiceError::PoolPaused)
    } else if amount == 0 {
        Some(InvoiceError::InvalidAmount)
    } else if pool.total_balance + amount > u64::MAX {
        Some(InvoiceError::ArithmeticOverflow)
    } else {
        None
    }
}

/// Deposits `amount` into a running pool. On success the balance has grown
/// by `amount` and the result is the transfer from the seeder into the pool
/// vault; on failure nothing changes.
pub fn seed_lottery_pool(pool: &mut LotteryPool, amount: u64) -> (r: Result<Transfer, InvoiceError>)
    ensures
        match seed_error(*old(pool), amount) {
            Some(e) => r == Err::<Transfer, InvoiceError>(e) && *final(pool) == *old(pool),
            None => {
                &&& r == Ok::<Transfer, InvoiceError>(
                    Transfer { from: Holder::Seeder, to: Holder::PoolVault, amount },
                )
                &&& *final(pool) == (LotteryPool {
                    total_balance: (old(pool).total_balance + amount) as u64,
                    ..*old(pool)
                })
            },
        },
{
    if pool.paused {
        return Err(InvoiceError::PoolPaused);
    }
    if amount == 0 {
        return Err(InvoiceError::InvalidAmount);
    }
    match pool.total_balance.checked_add(amount) {
        Some(balance) => {
            pool.total_balance = balance;
            Ok(Transfer { from: Holder::Seeder, to: Holder::PoolVault, amount })
        },
        None => Err(InvoiceError::ArithmeticOverflow),
    }
}

/// Pauses a running pool or resumes a paused one, on its authority's request.
pub fn toggle_lottery_pool(pool: &mut LotteryPool, caller: PartyId) -> (r: Result<(), InvoiceError>)
    ensures
        caller != old(pool).authority ==> r == Err::<(), InvoiceError>(InvoiceError::Unauthorized)
            && *final(pool) == *old(pool),
        caller == old(pool).authority ==> r == Ok::<(), InvoiceError>(()) && *final(pool) == (
        LotteryPool { paused: !old(pool).paused, ..*old(pool) }),
{
    if caller != pool.authority {
        return Err(InvoiceError::Unauthorized);
    }
    pool.paused = !pool.paused;
    Ok(())
}

/// The first precondition of a lottery entry that fails, if any. The amount
/// check reads the pool as it stands just before admission.
pub open spec fn entry_error(pool: LotteryPool, invoice: Invoice, premium: u64, now: i64) -> Option<InvoiceError> {
    if pool.paused {
        Some(InvoiceError::PoolPaused)
    } else if invoice.status != InvoiceStatus::Pending {
        Some(InvoiceError::InvalidInvoiceStatus)
    } else if premium == 0 {
        Some(InvoiceError::InvalidAmount)
    } else if (now as int) - (invoice.created_at as int) < MIN_INVOICE_AGE_SECS as int {
        Some(InvoiceError::InvoiceTooNew)
    } else if invoice.amount > pool.max_win_spec() {
        Some(InvoiceError::InvoiceExceedsMaxWin)
    } else if !effective_invoice_fits(invoice.amount as int, pool.house_edge_bps as int)
        || invoice.amount + premium > u64::MAX
        || pool.total_balance + premium > u64::MAX
        || pool.total_premiums_collected + premium > u64::MAX
        || pool.total_entries + 1 > u64::MAX {
        Some(InvoiceError::ArithmeticOverflow)
    } else {
        None
    }
}

/// The entry frozen at admission.
pub open spec fn new_entry(
    pool: LotteryPool,
    invoice: Invoice,
    invoice_key: PartyId,
    participant: PartyId,
    premium: u64,
    now: i64,
) -> LotteryEntry {
    LotteryEntry {
        invoice: invoice_key,
        client: participant,
        invoice_amount: invoice.amount,
        premium_paid: premium,
        win_probability_bps: win_probability_of(
            invoice.amount as int,
            pool.house_edge_bps as int,
            premium as int,
        ) as u16,
        status: LotteryStatus::PendingSettlement,
        random_result: None,
        created_at: now,
        resolved_at: 0,
    }
}

/// The pool once an entry with this premium is admitted: the premium alone
/// counts towards its balance.
pub open spec fn pool_after_entry(pool: LotteryPool, premium: u64) -> LotteryPool {
    LotteryPool {
        total_balance: (pool.total_balance + premium) as u64,
        total_premiums_collected: (pool.total_premiums_collected + premium) as u64,
        total_entries: (pool.total_entries + 1) as u64,
        ..pool
    }
}

/// Takes a lottery entry of `participant` on `invoice` (stored under
/// `invoice_key`) with the given premium, at time `now`.
///
/// On success the result is the entry, with its probability frozen, and the
/// single transfer of invoice amount plus premium from the participant into
/// the pool vault; the pool counts the premium. An entry is admitted only
/// for an invoice amount within the pool's current `max_win`. On failure
/// nothing changes and nothing is to be transferred.
pub fn pay_with_lottery(
    pool: &mut LotteryPool,
    invoice: &Invoice,
    invoice_key: PartyId,
    participant: PartyId,
    premium_amount: u64,
    now: i64,
) -> (r: Result<(LotteryEntry, Transfer), InvoiceError>)
    requires
        old(pool).wf(),
    ensures
        final(pool).wf(),
        match entry_error(*old(pool), *invoice, premium_amount, now) {
            Some(e) => r == Err::<(LotteryEntry, Transfer), InvoiceError>(e) && *final(pool) == *old(pool),
            None => {
                &&& r == Ok::<(LotteryEntry, Transfer), InvoiceError>(
                    (
                        new_entry(*old(pool), *invoice, invoice_key, participant, premium_amount, now),
                        Transfer {
                            from: Holder::Client,
                            to: Holder::PoolVault,
                            amount: (invoice.amount + premium_amount) as u64,
                        },
                    ),
                )
                &&& *final(pool) == pool_after_entry(*old(pool), premium_amount)
            },
        },
        r is Ok ==> invoice.amount <= old(pool).max_win_spec(),
        r matches Ok((entry, _)) ==> entry.win_probability_bps <= MAX_WIN_PROBABILITY_BPS,
{
    if pool.paused {
        return Err(InvoiceError::PoolPaused);
    }
    if invoice.status != InvoiceStatus::Pending {
        return Err(InvoiceError::InvalidInvoiceStatus);
    }
    if premium_amount == 0 {
        return Err(InvoiceError::InvalidAmount);
    }
    if (now as i128) - (invoice.created_at as i128) < MIN_INVOICE_AGE_SECS as i128 {
        return Err(InvoiceError::InvoiceTooNew);
    }
    let invoice_amount = invoice.amount;
    let bound = pool.current_max_win();
    if invoice_amount > bound {
        return Err(InvoiceError::InvoiceExceedsMaxWin);
    }
    let probability = match win_probability_bps(invoice_amount, pool.house_edge_bps, premium_amount) {
        Ok(p) => p,
        Err(e) => return Err(e),
    };
    let total_payment = match invoice_amount.checked_add(premium_amount) {
        Some(t) => t,
        None => return Err(InvoiceError::ArithmeticOverflow),
    };
    let balance = match pool.total_balance.checked_add(premium_amount) {
        Some(b) => b,
        None => return Err(InvoiceError::ArithmeticOverflow),
    };
    let premiums = match pool.total_premiums_collected.checked_add(premium_amount) {
        Some(p) => p,
        None => return Err(InvoiceError::ArithmeticOverflow),
    };
    let entries = match pool.total_entries.checked_add(1) {
        Some(n) => n,
        None => return Err(InvoiceError::ArithmeticOverflow),
    };
    pool.total_balance = balance;
    pool.total_premiums_collected = premiums;
    pool.total_entries = entries;
    let entry = LotteryEntry {
        invoice: invoice_key,
        client: participant,
        invoice_amount,
        premium_paid: premium_amount,
        win_probability_bps: probability,
        status: LotteryStatus::PendingSettlement,
        random_result: None,
        created_at: now,
        resolved_at: 0,
    };
    Ok((entry, Transfer { from: Holder::Client, to: Holder::PoolVault, amount: total_payment }))
}

/// Whether an entry wins against this random value.
pub open spec fn entry_wins(entry: LotteryEntry, random: [u8; 32]) -> bool {
    wins(draw_of(random@), entry.win_probability_bps as int)
}

/// The first precondition of a settlement that fails, if any.
pub open spec fn settle_error(pool: LotteryPool, entry: LotteryEntry, random: [u8; 32]) -> Option<InvoiceError> {
    if entry.status != LotteryStatus::PendingSettlement {
        Some(InvoiceError::LotteryAlreadySettled)
    } else if entry_wins(entry, random) && (pool.total_wins + 1 > u64::MAX || pool.total_payouts
        + entry.invoice_amount > u64::MAX) {
        Some(InvoiceError::ArithmeticOverflow)
    } else {
        None
    }
}

/// The entry once settled with this random value at time `now`.
pub open spec fn settled_entry(entry: LotteryEntry, random: [u8; 32], now: i64) -> LotteryEntry {
    LotteryEntry {
        status: if entry_wins(entry, random) { LotteryStatus::Won } else { LotteryStatus::Lost },
        random_result: Some(random),
        resolved_at: now,
        ..entry
    }
}

/// The pool once the entry is settled: a win counts, and the pool bears the
/// invoice amount; a loss leaves the pool's figures as they were.
pub open spec fn pool_after_settlement(pool: LotteryPool, entry: LotteryEntry, won: bool) -> LotteryPool {
    if won {
        LotteryPool {
            total_wins: (pool.total_wins + 1) as u64,
            total_payouts: (pool.total_payouts + entry.invoice_amount) as u64,
            total_balance: if pool.total_balance >= entry.invoice_amount {
                (pool.total_balance - entry.invoice_amount) as u64
            } else {
                0
            },
            ..pool
        }
    } else {
        pool
    }
}

/// The invoice once paid through the entry of `participant` at time `now`.
pub open spec fn invoice_paid_by_lottery(invoice: Invoice, participant: PartyId, now: i64) -> Invoice {
    Invoice { status: InvoiceStatus::Paid, paid_at: now, client: participant, ..invoice }
}

/// The transfers of a settlement: on a win, the invoice amount from the pool
/// vault to the participant and again to the creator; on a loss, only to
/// the creator.
pub open spec fn settlement_transfers(entry: LotteryEntry, won: bool) -> Seq<Transfer> {
    let to_creator = Transfer { from: Holder::PoolVault, to: Holder::Creator, amount: entry.invoice_amount };
    if won {
        seq![Transfer { from: Holder::PoolVault, to: Holder::Client, amount: entry.invoice_amount }, to_creator]
    } else {
        seq![to_creator]
    }
}

/// Settles a pending entry with an externally supplied random value, at time
/// `now`.
///
/// The draw is the first two bytes read little-endian, modulo 10000; the
/// entry wins when the draw is strictly below its probability. On success the
/// entry is `Won` or `Lost` with the random value recorded, the invoice is
/// paid with the participant as its client, the pool is updated as
/// `pool_after_settlement` says, and the result lists the transfers to carry
/// out. On failure (among them any second settlement) nothing changes and
/// nothing is to be transferred.
pub fn settle_lottery(
    pool: &mut LotteryPool,
    invoice: &mut Invoice,
    entry: &mut LotteryEntry,
    random_bytes: [u8; 32],
    now: i64,
) -> (r: Result<Vec<Transfer>, InvoiceError>)
    ensures
        match settle_error(*old(pool), *old(entry), random_bytes) {
            Some(e) => {
                &&& r == Err::<Vec<Transfer>, InvoiceError>(e)
                &&& *final(pool) == *old(pool)
                &&& *final(invoice) == *old(invoice)
                &&& *final(entry) == *old(entry)
            },
            None => {
                let won = entry_wins(*old(entry), random_bytes);
                &&& r matches Ok(transfers)
                &&& transfers@ == settlement_transfers(*old(entry), won)
                &&& *final(entry) == settled_entry(*old(entry), random_bytes, now)
                &&& *final(pool) == pool_after_settlement(*old(pool), *old(entry), won)
                &&& *final(invoice) == invoice_paid_by_lottery(*old(invoice), old(entry).client, now)
            },
        },
        old(pool).wf() ==> final(pool).wf(),
        old(invoice).wf() ==> final(invoice).wf(),
{
    if entry.status != LotteryStatus::PendingSettlement {
        return Err(InvoiceError::LotteryAlreadySettled);
    }
    let draw = draw_value(&random_bytes);
    let won = is_win(draw, entry.win_probability_bps);
    let amount = entry.invoice_amount;
    let transfers: Vec<Transfer>;
    if won {
        let wins_count = match pool.total_wins.checked_add(1) {
            Some(n) => n,
            None => return Err(InvoiceError::ArithmeticOverflow),
        };
        let payouts = match pool.total_payouts.checked_add(amount) {
            Some(p) => p,
            None => return Err(InvoiceError::ArithmeticOverflow),
        };
        pool.total_wins = wins_count;
        pool.total_payouts = payouts;
        pool.total_balance = if pool.total_balance >= amount {
            pool.total_balance - amount
        } else {
            0
        };
        entry.status = LotteryStatus::Won;
        transfers = vec![
            Transfer { from: Holder::PoolVault, to: Holder::Client, amount },
            Transfer { from: Holder::PoolVault, to: Holder::Creator, amount },
        ];
    } else {
        entry.status = LotteryStatus::Lost;
        transfers = vec![Transfer { from: Holder::PoolVault, to: Holder::Creator, amount }];
    }
    entry.random_result = Some(random_bytes);
    entry.resolved_at = now;
    invoice.status = InvoiceStatus::Paid;
    invoice.paid_at = now;
    invoice.client = entry.client;
    Ok(transfers)
}

} // verus!

verus! {

/// Settlement is one-shot: once an entry has been settled, any further
/// settlement of it, against any pool and with any random value, is refused
/// as already settled, so it moves no funds.
pub proof fn lemma_settlement_one_shot(
    pool: LotteryPool,
    entry: LotteryEntry,
    random: [u8; 32],
    now: i64,
    later_pool: LotteryPool,
    later_random: [u8; 32],
)
    requires
        settle_error(pool, entry, random) is None,
    ensures
        settle_error(later_pool, settled_entry(entry, random, now), later_random) == Some(
            InvoiceError::LotteryAlreadySettled,
        ),
{
}

/// Admission respects the solvency bound: an entry is admitted only for an
/// invoice amount within `max_win` of the pool as it stood just before.
pub proof fn lemma_admission_within_max_win(pool: LotteryPool, invoice: Invoice, premium: u64, now: i64)
    requires
        entry_error(pool, invoice, premium, now) is None,
    ensures
        invoice.amount <= max_win_of(
            pool.total_balance as int,
            pool.min_pool_reserve_bps as int,
            pool.max_win_pct_bps as int,
        ),
{
}

} // verus!
