use vstd::prelude::*;

use crate::msg::ValueResp;
use crate::state::State;

verus! {

/// The counter of the account.
pub fn value(state: &State) -> (r: ValueResp)
    ensures
        r.value == state.counter,
{
    ValueResp { value: state.counter }
}

/// The successor of `value`. It reads no account: the result depends on
/// `value` alone.
pub fn incremented(value: u64) -> (r: ValueResp)
    requires
        value < u64::MAX,
    ensures
        r.value == value + 1,
{
    ValueResp { value: value + 1 }
}

} // verus!
