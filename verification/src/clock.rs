//! The wall clock.

use vstd::prelude::*;

verus! {

/// Calls `chrono::Utc::now` and takes its `timestamp`: the seconds since
/// the Unix epoch, as the machine's clock has them. Nothing is promised
/// of the value. (`Utc::now` panics on a machine whose clock stands
/// before the epoch.)
#[verifier::external_body]
pub(crate) fn unix_now() -> (now: i64)
{
    chrono::Utc::now().timestamp()
}

} // verus!
