//! User profile records.
use vstd::prelude::*;
use crate::types::{byte_len, byte_length, InvoiceError, PartyId, UserProfile};

verus! {

/// Longest profile name, in bytes.
pub const MAX_NAME_LEN: usize = 64;

/// Longest profile email, in bytes.
pub const MAX_EMAIL_LEN: usize = 128;

impl UserProfile {
    /// Bytes that a stored profile takes.
    pub const SPACE: usize = 8 + 32 + (4 + 64) + (4 + 128) + (4 + 128) + 8 + 8 + 1;
}

/// The first length rule that a new profile breaks, if any.
pub open spec fn profile_error(name_len: nat, email_len: nat) -> Option<InvoiceError> {
    if name_len > MAX_NAME_LEN {
        Some(InvoiceError::NameTooLong)
    } else if email_len > MAX_EMAIL_LEN {
        Some(InvoiceError::EmailTooLong)
    } else {
        None
    }
}

/// Creates the profile of `owner`, with an empty business name where none is
/// given and zeroed counters, or names the length rule that is broken.
pub fn create_profile(owner: PartyId, name: String, email: String, business_name: Option<String>) -> (r: Result<UserProfile, InvoiceError>)
    ensures
        match profile_error(byte_len(name@), byte_len(email@)) {
            Some(e) => r == Err::<UserProfile, InvoiceError>(e),
            None => {
                &&& r matches Ok(p)
                &&& p.wallet == owner
                &&& p.name == name
                &&& p.email == email
                &&& p.business_name@ == match business_name {
                    Some(b) => b@,
                    None => Seq::<char>::empty(),
                }
                &&& p.total_invoices == 0
                &&& p.total_received == 0
            },
        },
{
    if byte_length(name.as_str()) > MAX_NAME_LEN {
        return Err(InvoiceError::NameTooLong);
    }
    if byte_length(email.as_str()) > MAX_EMAIL_LEN {
        return Err(InvoiceError::EmailTooLong);
    }
    let business_name = match business_name {
        Some(b) => b,
        None => String::new(),
    };
    Ok(UserProfile { wallet: owner, name, email, business_name, total_invoices: 0, total_received: 0 })
}

} // verus!
