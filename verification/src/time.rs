use crate::model::UnixTimestamp;
use vstd::prelude::*;

verus! {

/// Converts a block timestamp in milliseconds to whole seconds.
pub fn ms_timestamp_to_seconds(ms: u64) -> (r: UnixTimestamp)
    requires
        ms / 1000 <= u32::MAX,
    ensures
        r == ms / 1000,
{
    (ms / 1000) as u32
}

} // verus!
