//! Settlement engine for invoices paid directly, through a milestone escrow,
//! or through a pool-backed lottery.
//!
//! Every operation checks its preconditions before it changes anything, and
//! hands back the token transfers that the caller must carry out in the same
//! atomic unit as the state change.
pub mod types;
pub mod odds;
pub mod invoice;
pub mod lottery;
pub mod profile;

pub use types::{
    Escrow, Holder, Invoice, InvoiceError, InvoiceStatus, LotteryEntry, LotteryPool,
    LotteryStatus, Milestone, PartyId, Transfer, UserProfile,
};
