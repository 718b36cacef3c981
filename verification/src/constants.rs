//! Fixed parameters of the verification workflow.

use vstd::prelude::*;

verus! {

/// Number of characters in every verification code.
pub const VERIFICATION_CODE_LENGTH: usize = 24;

/// Seconds after issuance during which a verification code can be confirmed.
pub const TTL_SEC: i64 = 3600;

/// Minimum number of seconds between two issuances for the same account.
pub const RATE_LIMIT_SEC: i64 = 10;

} // verus!
