//! Service-token generation: the verifiable parts.
//!
//! The command-line utility that mints privileged tokens lives outside the
//! library (key handling and encoding are outside crates' work); what is
//! verified here is what it decides: its arguments and the expiry
//! computation.

use vstd::prelude::*;

verus! {

/// Seconds in a day.
pub const SECONDS_PER_DAY: u64 = 86400;

/// Arguments of the token-generation utility: an optional PEM private key
/// (a fresh one is generated when absent) and the validity period in days.
#[derive(Clone, Debug, PartialEq, Eq)]
pub struct Args {
    pub private_key: Option<String>,
    pub expiry: u64,
}

/// The expiry instant of a token minted now: `days` whole days from `now`
/// (both in seconds since the epoch).  `None` when the instant overflows
/// the clock's range.
pub fn token_expiry(now: u64, days: u64) -> (r: Option<u64>)
    ensures
        r matches Some(exp) ==> exp == now + days * SECONDS_PER_DAY,
        r is None ==> now + days * SECONDS_PER_DAY > u64::MAX,
{
    match days.checked_mul(SECONDS_PER_DAY) {
        Some(span) => now.checked_add(span),
        None => {
            proof {
                assert(days * SECONDS_PER_DAY > u64::MAX);
            }
            None
        },
    }
}

} // verus!
