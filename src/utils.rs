use vstd::prelude::*;
use crate::state::DepositOrder;

verus! {

/// Whether the order's deadline, creation time plus timeout, lies before `now`.
/// The sum is taken without overflow.
pub fn is_order_timed_out(order: &DepositOrder, now: i64) -> (r: bool)
    ensures
        r == order.expired_at(now),
{
    (now as i128) > (order.creation_time as i128) + (order.timeout as i128)
}

} // verus!
