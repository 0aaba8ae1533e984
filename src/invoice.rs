//! The invoice state machine and its milestone escrow.
use vstd::prelude::*;
use crate::types::{
    byte_len, byte_length, Escrow, Holder, Invoice, InvoiceError, InvoiceStatus, Milestone, PartyId, Transfer,
};

verus! {

/// Longest invoice identifier, in bytes.
pub const MAX_INVOICE_ID_LEN: usize = 32;

/// Longest memo, in bytes.
pub const MAX_MEMO_LEN: usize = 256;

/// Most milestones an invoice may have.
pub const MAX_MILESTONES: usize = 10;

/// Longest payment reference accepted by `mark_paid`, in bytes.
pub const MAX_TX_SIGNATURE_LEN: usize = 88;

impl Milestone {
    /// Bytes that one stored milestone takes.
    pub const SPACE: usize = 4 + 128 + 8 + 1 + 8;
}

impl Escrow {
    /// Bytes that a stored escrow record takes.
    pub const SPACE: usize = 8 + 4 + 32 + 1;
}

impl Invoice {
    /// The record's invariant: the milestone index stays within the
    /// milestones, of which there are at most ten.
    pub open spec fn wf(&self) -> bool {
        &&& self.current_milestone as int <= self.milestones@.len()
        &&& self.milestones@.len() <= MAX_MILESTONES
    }

    /// Bytes that a stored invoice with this identifier takes.
    pub open spec fn space_of(id_len: nat) -> int {
        8 + 32 + 32 + 4 + id_len + 8 + 32 + 8 + 4 + 256 + 1 + 8 + 8 + 4 + 10 * Milestone::SPACE + 1 + 1
            + 1
    }

    /// Bytes that a stored invoice with this identifier takes.
    pub fn space(invoice_id: &str) -> (r: usize)
        requires
            Invoice::space_of(byte_len(invoice_id@)) <= usize::MAX,
        ensures
            r == Invoice::space_of(byte_len(invoice_id@)),
    {
        8 + 32 + 32 + 4 + byte_length(invoice_id) + 8 + 32 + 8 + 4 + 256 + 1 + 8 + 8 + 4 + (10
            * Milestone::SPACE) + 1 + 1 + 1
    }
}

/// The first length or count rule that a new invoice breaks, if any.
pub open spec fn create_error(id_len: nat, memo_len: nat, milestone_count: nat) -> Option<InvoiceError> {
    if id_len > MAX_INVOICE_ID_LEN {
        Some(InvoiceError::InvoiceIdTooLong)
    } else if memo_len > MAX_MEMO_LEN {
        Some(InvoiceError::MemoTooLong)
    } else if milestone_count > MAX_MILESTONES {
        Some(InvoiceError::TooManyMilestones)
    } else {
        None
    }
}

/// A new invoice: pending, with no client, no milestone released, not paid.
pub open spec fn new_invoice(
    creator: PartyId,
    invoice_id: String,
    amount: u64,
    token_mint: PartyId,
    due_date: i64,
    memo: String,
    milestones: Vec<Milestone>,
    now: i64,
) -> Invoice {
    Invoice {
        creator,
        client: PartyId::zero(),
        invoice_id,
        amount,
        token_mint,
        due_date,
        memo,
        status: InvoiceStatus::Pending,
        created_at: now,
        paid_at: 0,
        milestones,
        current_milestone: 0,
        escrow_funded: false,
    }
}

/// Creates a pending invoice at time `now`, or names the length or count
/// rule that the inputs break.
pub fn create_invoice(
    creator: PartyId,
    invoice_id: String,
    amount: u64,
    token_mint: PartyId,
    due_date: i64,
    memo: String,
    milestones: Vec<Milestone>,
    now: i64,
) -> (r: Result<Invoice, InvoiceError>)
    ensures
        match create_error(byte_len(invoice_id@), byte_len(memo@), milestones@.len()) {
            Some(e) => r == Err::<Invoice, InvoiceError>(e),
            None => r == Ok::<Invoice, InvoiceError>(
                new_invoice(creator, invoice_id, amount, token_mint, due_date, memo, milestones, now),
            ),
        },
        r matches Ok(inv) ==> inv.wf(),
{
    if byte_length(invoice_id.as_str()) > MAX_INVOICE_ID_LEN {
        return Err(InvoiceError::InvoiceIdTooLong);
    }
    if byte_length(memo.as_str()) > MAX_MEMO_LEN {
        return Err(InvoiceError::MemoTooLong);
    }
    if milestones.len() > MAX_MILESTONES {
        return Err(InvoiceError::TooManyMilestones);
    }
    Ok(Invoice {
        creator,
        client: PartyId::unset(),
        invoice_id,
        amount,
        token_mint,
        due_date,
        memo,
        status: InvoiceStatus::Pending,
        created_at: now,
        paid_at: 0,
        milestones,
        current_milestone: 0,
        escrow_funded: false,
    })
}

/// The first precondition of escrow funding that fails, if any.
pub open spec fn fund_escrow_error(invoice: Invoice, amount: u64) -> Option<InvoiceError> {
    if invoice.status != InvoiceStatus::Pending {
        Some(InvoiceError::InvalidInvoiceStatus)
    } else if amount < invoice.amount {
        Some(InvoiceError::InsufficientFunding)
    } else if invoice.milestones@.len() == 0 {
        Some(InvoiceError::NoMilestones)
    } else {
        None
    }
}

/// The invoice once `client` has funded its escrow.
pub open spec fn funded(invoice: Invoice, client: PartyId) -> Invoice {
    Invoice { client, escrow_funded: true, status: InvoiceStatus::EscrowFunded, ..invoice }
}

/// Funds the escrow of a pending invoice with `amount` from `client`.
///
/// On success the invoice is `EscrowFunded` with `client` recorded, and the
/// result holds the new escrow record and the transfer of `amount` from the
/// client into the escrow vault. On failure nothing changes and nothing is to
/// be transferred.
pub fn fund_escrow(invoice: &mut Invoice, client: PartyId, amount: u64) -> (r: Result<(Escrow, Transfer), InvoiceError>)
    ensures
        match fund_escrow_error(*old(invoice), amount) {
            Some(e) => r == Err::<(Escrow, Transfer), InvoiceError>(e) && *final(invoice) == *old(invoice),
            None => {
                &&& r matches Ok((escrow, transfer))
                &&& escrow.invoice_id@ == old(invoice).invoice_id@
                &&& transfer == (Transfer { from: Holder::Client, to: Holder::EscrowVault, amount })
                &&& *final(invoice) == funded(*old(invoice), client)
            },
        },
        old(invoice).wf() ==> final(invoice).wf(),
{
    if invoice.status != InvoiceStatus::Pending {
        return Err(InvoiceError::InvalidInvoiceStatus);
    }
    if amount < invoice.amount {
        return Err(InvoiceError::InsufficientFunding);
    }
    if invoice.milestones.len() == 0 {
        return Err(InvoiceError::NoMilestones);
    }
    let escrow = Escrow { invoice_id: invoice.invoice_id.clone() };
    invoice.client = client;
    invoice.escrow_funded = true;
    invoice.status = InvoiceStatus::EscrowFunded;
    Ok((escrow, Transfer { from: Holder::Client, to: Holder::EscrowVault, amount }))
}

/// The first precondition of a milestone release that fails, if any.
pub open spec fn release_error(invoice: Invoice, authority: PartyId) -> Option<InvoiceError> {
    if invoice.status != InvoiceStatus::EscrowFunded {
        Some(InvoiceError::InvalidInvoiceStatus)
    } else if !invoice.escrow_funded {
        Some(InvoiceError::EscrowNotFunded)
    } else if invoice.current_milestone as int >= invoice.milestones@.len() {
        Some(InvoiceError::AllMilestonesComplete)
    } else if authority != invoice.creator && authority != invoice.client {
        Some(InvoiceError::Unauthorized)
    } else {
        None
    }
}

/// A milestone marked complete at time `now`.
pub open spec fn completed(m: Milestone, now: i64) -> Milestone {
    Milestone { completed: true, completed_at: now, ..m }
}

/// `after` is `before` with its current milestone released at time `now`:
/// that milestone is complete, the index has moved on by one, and the invoice
/// is paid exactly when no milestone is left.
pub open spec fn released(before: Invoice, after: Invoice, now: i64) -> bool {
    let i = before.current_milestone as int;
    let last = i + 1 == before.milestones@.len();
    &&& after.milestones@ == before.milestones@.update(i, completed(before.milestones@[i], now))
    &&& after == Invoice {
        milestones: after.milestones,
        current_milestone: (i + 1) as u8,
        status: if last { InvoiceStatus::Paid } else { before.status },
        paid_at: if last { now } else { before.paid_at },
        ..before
    }
}

/// Releases the current milestone of an escrowed invoice, on behalf of its
/// creator or its client, at time `now`.
///
/// On success the result is the transfer of that milestone's amount from the
/// escrow vault to the creator, and the invoice has moved on as `released`
/// says. On failure nothing changes and nothing is to be transferred.
pub fn release_milestone(invoice: &mut Invoice, authority: PartyId, now: i64) -> (r: Result<Transfer, InvoiceError>)
    requires
        old(invoice).wf(),
    ensures
        final(invoice).wf(),
        match release_error(*old(invoice), authority) {
            Some(e) => r == Err::<Transfer, InvoiceError>(e) && *final(invoice) == *old(invoice),
            None => {
                &&& r == Ok::<Transfer, InvoiceError>(
                    Transfer {
                        from: Holder::EscrowVault,
                        to: Holder::Creator,
                        amount: old(invoice).milestones@[old(invoice).current_milestone as int].amount,
                    },
                )
                &&& released(*old(invoice), *final(invoice), now)
            },
        },
{
    if invoice.status != InvoiceStatus::EscrowFunded {
        return Err(InvoiceError::InvalidInvoiceStatus);
    }
    if !invoice.escrow_funded {
        return Err(InvoiceError::EscrowNotFunded);
    }
    if invoice.current_milestone as usize >= invoice.milestones.len() {
        return Err(InvoiceError::AllMilestonesComplete);
    }
    if authority != invoice.creator && authority != invoice.client {
        return Err(InvoiceError::Unauthorized);
    }
    let idx = invoice.current_milestone as usize;
    let amount = invoice.milestones[idx].amount;
    let ghost before = invoice.milestones@;
    invoice.milestones[idx].completed = true;
    invoice.milestones[idx].completed_at = now;
    assert(invoice.milestones@ =~= before.update(idx as int, completed(before[idx as int], now)));
    invoice.current_milestone = invoice.current_milestone + 1;
    if invoice.current_milestone as usize >= invoice.milestones.len() {
        invoice.status = InvoiceStatus::Paid;
        invoice.paid_at = now;
    }
    Ok(Transfer { from: Holder::EscrowVault, to: Holder::Creator, amount })
}

/// The first precondition of a direct payment record that fails, if any.
pub open spec fn mark_paid_error(invoice: Invoice, reference_len: nat) -> Option<InvoiceError> {
    if invoice.status != InvoiceStatus::Pending {
        Some(InvoiceError::InvalidInvoiceStatus)
    } else if reference_len > MAX_TX_SIGNATURE_LEN {
        Some(InvoiceError::TxSignatureTooLong)
    } else {
        None
    }
}

/// Records a direct payment of a pending invoice by `payer` at time `now`,
/// under the payment reference `tx_signature`. No funds move: the reference
/// is taken on the caller's word.
pub fn mark_paid(invoice: &mut Invoice, payer: PartyId, tx_signature: &str, now: i64) -> (r: Result<(), InvoiceError>)
    ensures
        match mark_paid_error(*old(invoice), byte_len(tx_signature@)) {
            Some(e) => r == Err::<(), InvoiceError>(e) && *final(invoice) == *old(invoice),
            None => r == Ok::<(), InvoiceError>(()) && *final(invoice) == (Invoice {
                status: InvoiceStatus::Paid,
                paid_at: now,
                client: payer,
                ..*old(invoice)
            }),
        },
        old(invoice).wf() ==> final(invoice).wf(),
{
    if invoice.status != InvoiceStatus::Pending {
        return Err(InvoiceError::InvalidInvoiceStatus);
    }
    if byte_length(tx_signature) > MAX_TX_SIGNATURE_LEN {
        return Err(InvoiceError::TxSignatureTooLong);
    }
    invoice.status = InvoiceStatus::Paid;
    invoice.paid_at = now;
    invoice.client = payer;
    Ok(())
}

/// The first precondition of a cancellation that fails, if any.
pub open spec fn cancel_error(invoice: Invoice, caller: PartyId) -> Option<InvoiceError> {
    if invoice.status != InvoiceStatus::Pending {
        Some(InvoiceError::InvalidInvoiceStatus)
    } else if caller != invoice.creator {
        Some(InvoiceError::Unauthorized)
    } else {
        None
    }
}

/// Cancels a pending invoice on its creator's request.
pub fn cancel_invoice(invoice: &mut Invoice, caller: PartyId) -> (r: Result<(), InvoiceError>)
    ensures
        match cancel_error(*old(invoice), caller) {
            Some(e) => r == Err::<(), InvoiceError>(e) && *final(invoice) == *old(invoice),
            None => r == Ok::<(), InvoiceError>(()) && *final(invoice) == (Invoice {
                status: InvoiceStatus::Cancelled,
                ..*old(invoice)
            }),
        },
        old(invoice).wf() ==> final(invoice).wf(),
{
    if invoice.status != InvoiceStatus::Pending {
        return Err(InvoiceError::InvalidInvoiceStatus);
    }
    if caller != invoice.creator {
        return Err(InvoiceError::Unauthorized);
    }
    invoice.status = InvoiceStatus::Cancelled;
    Ok(())
}

} // verus!

verus! {

/// Funding is owed at most once: once an invoice's escrow has been funded,
/// any further funding attempt, with any amount, is refused as being in the
/// wrong status, so it moves no funds.
pub proof fn lemma_escrow_funded_once(invoice: Invoice, client: PartyId, amount: u64, later_amount: u64)
    requires
        fund_escrow_error(invoice, amount) is None,
    ensures
        fund_escrow_error(funded(invoice, client), later_amount) == Some(InvoiceError::InvalidInvoiceStatus),
{
}

/// Releasing the milestones of a freshly funded invoice strictly in order
/// moves the milestone index from 0 up by one at each release; the invoice
/// stays `EscrowFunded` until the release of the last milestone, which makes
/// it `Paid`. Each release before that one is open to the creator, and after
/// it no further release is accepted.
///
/// `states[k + 1]` is what the `k`-th release made of `states[k]`, at time
/// `times[k]`.
pub proof fn lemma_in_order_release(states: Seq<Invoice>, times: Seq<i64>)
    requires
        states.len() >= 1,
        states[0].milestones@.len() > 0,
        states.len() <= states[0].milestones@.len() + 1,
        times.len() + 1 >= states.len(),
        states[0].wf(),
        states[0].status == InvoiceStatus::EscrowFunded,
        states[0].escrow_funded,
        states[0].current_milestone == 0,
        forall|k: int| 0 <= k < states.len() - 1 ==> #[trigger] released(states[k], states[k + 1], times[k]),
    ensures
        forall|k: int| 0 <= k < states.len() ==> {
            let n = states[0].milestones@.len();
            &&& (#[trigger] states[k]).current_milestone == k
            &&& states[k].milestones@.len() == n
            &&& states[k].escrow_funded
            &&& states[k].creator == states[0].creator
            &&& states[k].wf()
            &&& (k < n ==> states[k].status == InvoiceStatus::EscrowFunded)
            &&& (k == n ==> states[k].status == InvoiceStatus::Paid)
            &&& (k < n ==> release_error(states[k], states[0].creator) is None)
            &&& (k == n ==> release_error(states[k], states[0].creator) == Some(InvoiceError::InvalidInvoiceStatus))
        },
    decreases states.len(),
{
    if states.len() > 1 {
        let shorter = states.drop_last();
        assert forall|k: int| 0 <= k < shorter.len() - 1 implies #[trigger] released(shorter[k], shorter[k + 1], times[k]) by {
            assert(released(states[k], states[k + 1], times[k]));
        }
        lemma_in_order_release(shorter, times);
        assert forall|k: int| 0 <= k < states.len() implies {
            let n = states[0].milestones@.len();
            &&& (#[trigger] states[k]).current_milestone == k
            &&& states[k].milestones@.len() == n
            &&& states[k].escrow_funded
            &&& states[k].creator == states[0].creator
            &&& states[k].wf()
            &&& (k < n ==> states[k].status == InvoiceStatus::EscrowFunded)
            &&& (k == n ==> states[k].status == InvoiceStatus::Paid)
            &&& (k < n ==> release_error(states[k], states[0].creator) is None)
            &&& (k == n ==> release_error(states[k], states[0].creator) == Some(InvoiceError::InvalidInvoiceStatus))
        } by {
            if k < states.len() - 1 {
                assert(shorter[k] == states[k]);
            } else {
                let j = k - 1;
                assert(shorter[j] == states[j]);
                assert(released(states[j], states[k], times[j]));
            }
        }
    }
}

} // verus!
