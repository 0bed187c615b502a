//! The one place the ledger touches the outside world: reading the clock.

use vstd::prelude::*;

use crate::LedgerError;

verus! {

/// Relies on std::time::SystemTime::now and duration_since: the current time
/// as whole seconds since the Unix epoch, or None when the clock reads
/// before the epoch. The value is nondeterministic, so nothing is stated of
/// it.
#[verifier::external_body]
fn read_clock() -> Option<u64> {
    match std::time::SystemTime::now().duration_since(std::time::UNIX_EPOCH) {
        Ok(d) => Some(d.as_secs()),
        Err(_) => None,
    }
}

/// The current time in whole seconds since the Unix epoch, or `ClockError`
/// when the system clock reads before the epoch.
pub fn now() -> (r: Result<u64, LedgerError>)
    ensures
        (r matches Err(e) ==> e == LedgerError::ClockError),
{
    match read_clock() {
        Some(t) => Ok(t),
        None => Err(LedgerError::ClockError),
    }
}

} // verus!
