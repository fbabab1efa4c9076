use vstd::prelude::*;
use crate::error::BaggageError;
use crate::state::{DepositOrder, OrderStatus, Pubkey};
use crate::utils::is_order_timed_out;

verus! {

/// The accounts and the time of a request to mark an order ready.
#[derive(Clone, Copy, Debug)]
pub struct UpdateOrderStatus {
    pub deposit_order: DepositOrder,
    /// The signer, who must be the order's keeper.
    pub keeper: Pubkey,
    /// Unix time of the request.
    pub now: i64,
}

/// The order after the keeper `keeper` marks it ready at `now`, or the reason
/// it is refused.
pub open spec fn mark_ready_outcome(order: DepositOrder, keeper: Pubkey, now: i64) -> Result<
    DepositOrder,
    BaggageError,
> {
    if order.status.is_terminal() {
        Err(BaggageError::InvalidOrderStatus)
    } else if order.keeper@ != keeper@ {
        Err(BaggageError::Unauthorized)
    } else if order.status != OrderStatus::Initialized {
        Err(BaggageError::InvalidOrderStatus)
    } else if order.expired_at(now) {
        Err(BaggageError::OrderTimeout)
    } else {
        Ok(DepositOrder { status: OrderStatus::ReadyToExecute, ..order })
    }
}

/// Moves an initialized order to `ReadyToExecute`, at the keeper's request and
/// before the deadline. A completed or cancelled order refuses it whoever
/// asks. A refused request changes nothing.
pub fn update_order_status_to_ready(ctx: &mut UpdateOrderStatus) -> (r: Result<(), BaggageError>)
    ensures
        match mark_ready_outcome(old(ctx).deposit_order, old(ctx).keeper, old(ctx).now) {
            Ok(o) => r is Ok && *final(ctx) == (UpdateOrderStatus { deposit_order: o, ..*old(ctx) }),
            Err(e) => r == Err::<(), BaggageError>(e) && *final(ctx) == *old(ctx),
        },
{
    if ctx.deposit_order.status == OrderStatus::Completed || ctx.deposit_order.status
        == OrderStatus::Cancelled {
        return Err(BaggageError::InvalidOrderStatus);
    }
    if !ctx.deposit_order.keeper.same_as(&ctx.keeper) {
        return Err(BaggageError::Unauthorized);
    }
    if ctx.deposit_order.status != OrderStatus::Initialized {
        return Err(BaggageError::InvalidOrderStatus);
    }
    if is_order_timed_out(&ctx.deposit_order, ctx.now) {
        return Err(BaggageError::OrderTimeout);
    }
    ctx.deposit_order.status = OrderStatus::ReadyToExecute;
    Ok(())
}

} // verus!
