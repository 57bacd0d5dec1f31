use vstd::prelude::*;

use crate::errors::ErrorCode;

verus! {

/// A clock reading in seconds as an unsigned timestamp. Fails with
/// `InvalidTimestampConversion` for a time before the epoch.
pub fn to_timestamp_u64(t: i64) -> (r: Result<u64, ErrorCode>)
    ensures
        t < 0 ==> r == Err::<u64, ErrorCode>(ErrorCode::InvalidTimestampConversion),
        t >= 0 ==> r == Ok::<u64, ErrorCode>(t as u64),
{
    if t < 0 {
        Err(ErrorCode::InvalidTimestampConversion)
    } else {
        Ok(t as u64)
    }
}

} // verus!
