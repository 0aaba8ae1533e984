use vstd::prelude::*;

verus! {

/// A party or account identity: a 256-bit key held as four 64-bit words.
#[derive(Clone, Copy, Debug, PartialEq, Eq, Structural)]
pub struct PartyId {
    pub w0: u64,
    pub w1: u64,
    pub w2: u64,
    pub w3: u64,
}

impl PartyId {
    /// The all-zero identity, used for a party that is not yet known.
    pub fn unset() -> (r: PartyId)
        ensures
            r == PartyId::zero(),
    {
        PartyId { w0: 0, w1: 0, w2: 0, w3: 0 }
    }

    pub open spec fn zero() -> PartyId {
        PartyId { w0: 0, w1: 0, w2: 0, w3: 0 }
    }
}

/// Lifecycle of an invoice. `Disputed` is reserved: no operation reaches it.
#[derive(Clone, Copy, Debug, PartialEq, Eq, Structural)]
pub enum InvoiceStatus {
    Pending,
    EscrowFunded,
    Paid,
    Cancelled,
    Disputed,
}

impl Default for InvoiceStatus {
    fn default() -> (r: InvoiceStatus)
        ensures
            r == InvoiceStatus::Pending,
    {
        InvoiceStatus::Pending
    }
}

/// Lifecycle of a lottery entry: it leaves `PendingSettlement` exactly once.
#[derive(Clone, Copy, Debug, PartialEq, Eq, Structural)]
pub enum LotteryStatus {
    PendingSettlement,
    Won,
    Lost,
}

impl Default for LotteryStatus {
    fn default() -> (r: LotteryStatus)
        ensures
            r == LotteryStatus::PendingSettlement,
    {
        LotteryStatus::PendingSettlement
    }
}

/// One stage of an escrowed invoice.
#[derive(Clone, Debug)]
pub struct Milestone {
    pub description: String,
    pub amount: u64,
    pub completed: bool,
    pub completed_at: i64,
}

/// An obligation from a client to a creator.
#[derive(Clone, Debug)]
pub struct Invoice {
    pub creator: PartyId,
    pub client: PartyId,
    pub invoice_id: String,
    pub amount: u64,
    pub token_mint: PartyId,
    pub due_date: i64,
    pub memo: String,
    pub status: InvoiceStatus,
    pub created_at: i64,
    pub paid_at: i64,
    pub milestones: Vec<Milestone>,
    pub current_milestone: u8,
    pub escrow_funded: bool,
}

/// The record of an invoice's escrow, made once at funding.
#[derive(Clone, Debug)]
pub struct Escrow {
    pub invoice_id: String,
}

/// A user's profile record.
#[derive(Clone, Debug)]
pub struct UserProfile {
    pub wallet: PartyId,
    pub name: String,
    pub email: String,
    pub business_name: String,
    pub total_invoices: u64,
    pub total_received: u64,
}

/// The shared liquidity pool of one asset type.
#[derive(Clone, Copy, Debug, PartialEq, Eq, Structural)]
pub struct LotteryPool {
    pub authority: PartyId,
    pub token_mint: PartyId,
    pub total_balance: u64,
    pub total_premiums_collected: u64,
    pub total_payouts: u64,
    pub total_entries: u64,
    pub total_wins: u64,
    pub house_edge_bps: u16,
    pub min_pool_reserve_bps: u16,
    pub max_win_pct_bps: u16,
    pub paused: bool,
}

/// The wager of one participant on one invoice.
#[derive(Clone, Copy, Debug)]
pub struct LotteryEntry {
    pub invoice: PartyId,
    pub client: PartyId,
    pub invoice_amount: u64,
    pub premium_paid: u64,
    pub win_probability_bps: u16,
    pub status: LotteryStatus,
    pub random_result: Option<[u8; 32]>,
    pub created_at: i64,
    pub resolved_at: i64,
}

/// The accounts between which an operation moves tokens.
#[derive(Clone, Copy, Debug, PartialEq, Eq, Structural)]
pub enum Holder {
    /// The paying client's (or lottery participant's) token account.
    Client,
    /// The invoice creator's token account.
    Creator,
    /// The token account of whoever seeds a pool.
    Seeder,
    /// The holding account owned by an invoice's escrow.
    EscrowVault,
    /// The holding account owned by a lottery pool.
    PoolVault,
}

/// A transfer of `amount` tokens that the caller must carry out.
#[derive(Clone, Copy, Debug, PartialEq, Eq, Structural)]
pub struct Transfer {
    pub from: Holder,
    pub to: Holder,
    pub amount: u64,
}

/// Why an operation was refused. A refused operation changes nothing.
#[derive(Clone, Copy, Debug, PartialEq, Eq, Structural)]
pub enum InvoiceError {
    InvoiceIdTooLong,
    MemoTooLong,
    TooManyMilestones,
    InvalidInvoiceStatus,
    InsufficientFunding,
    NoMilestones,
    EscrowNotFunded,
    AllMilestonesComplete,
    Unauthorized,
    TxSignatureTooLong,
    NameTooLong,
    EmailTooLong,
    HouseEdgeTooHigh,
    ReserveTooHigh,
    MaxWinTooHigh,
    PoolPaused,
    InvalidAmount,
    InvoiceTooNew,
    InvoiceExceedsMaxWin,
    LotteryAlreadySettled,
    /// A counter or a sum would leave the range of a 64-bit integer.
    ArithmeticOverflow,
}

impl InvoiceError {
    /// The message shown to a user for this error.
    pub fn message(&self) -> (r: &'static str) {
        match self {
            InvoiceError::InvoiceIdTooLong => "Invoice ID too long (max 32 chars)",
            InvoiceError::MemoTooLong => "Memo too long (max 256 chars)",
            InvoiceError::TooManyMilestones => "Too many milestones (max 10)",
            InvoiceError::InvalidInvoiceStatus => "Invalid invoice status for this operation",
            InvoiceError::InsufficientFunding => "Insufficient funding amount",
            InvoiceError::NoMilestones => "No milestones defined for escrow",
            InvoiceError::EscrowNotFunded => "Escrow not funded",
            InvoiceError::AllMilestonesComplete => "All milestones already complete",
            InvoiceError::Unauthorized => "Unauthorized",
            InvoiceError::TxSignatureTooLong => "Transaction signature too long",
            InvoiceError::NameTooLong => "Name too long (max 64 chars)",
            InvoiceError::EmailTooLong => "Email too long (max 128 chars)",
            InvoiceError::HouseEdgeTooHigh => "House edge too high (max 10%)",
            InvoiceError::ReserveTooHigh => "Reserve percentage too high",
            InvoiceError::MaxWinTooHigh => "Max win percentage too high",
            InvoiceError::PoolPaused => "Lottery pool is paused",
            InvoiceError::InvalidAmount => "Invalid amount",
            InvoiceError::InvoiceTooNew => "Invoice is too new for lottery (wait 5 minutes)",
            InvoiceError::InvoiceExceedsMaxWin => "Invoice amount exceeds max win from pool",
            InvoiceError::LotteryAlreadySettled => "Lottery entry already settled",
            InvoiceError::ArithmeticOverflow => "Arithmetic overflow",
        }
    }
}

/// Length of a string in bytes of its UTF-8 encoding.
pub open spec fn byte_len(s: Seq<char>) -> nat {
    vstd::utf8::encode_utf8(s).len()
}

/// Length of a string in bytes of its UTF-8 encoding.
pub fn byte_length(s: &str) -> (r: usize)
    ensures
        r == byte_len(s@),
{
    s.as_bytes().len()
}

} // verus!
