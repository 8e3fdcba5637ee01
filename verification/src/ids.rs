//! Message-id allocation.
//!
//! Correlation ids for outbound RPC messages and delegated HTTP requests are
//! drawn from one monotonically increasing counter, so no two in-flight
//! requests ever share an id. The counter wraps at `u32::MAX`; a process is
//! not expected to issue 2^32 requests, so wrap-around is a non-goal and the
//! freshness arguments below assume the counter has not wrapped.

use vstd::prelude::*;

verus! {

/// The id counter. The process keeps exactly one and threads it (behind an
/// atomic, outside the library) to every place that needs a fresh id.
pub struct MessageIdCounter {
    pub value: u32,
}

impl MessageIdCounter {
    /// A fresh counter; the first id handed out is 0.
    pub fn new() -> (r: MessageIdCounter)
        ensures
            r.value == 0,
    {
        MessageIdCounter { value: 0 }
    }
}

/// Gets a next incrementing number that can be used in logs and as a
/// correlation id. Returns the current value and advances the counter,
/// wrapping at `u32::MAX`.
pub fn next_message_id(counter: &mut MessageIdCounter) -> (id: u32)
    ensures
        id == old(counter).value,
        old(counter).value < u32::MAX ==> final(counter).value == old(counter).value + 1,
        old(counter).value == u32::MAX ==> final(counter).value == 0,
{
    let id = counter.value;
    counter.value = counter.value.wrapping_add(1);
    id
}

} // verus!
