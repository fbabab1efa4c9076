use vstd::prelude::*;
use crate::error::BaggageError;
use crate::state::{DepositOrder, OrderStatus, Pubkey};
use crate::utils::is_order_timed_out;

verus! {

/// The accounts and the time of a request to release part of an order.
#[derive(Clone, Copy, Debug)]
pub struct ExecuteOrder {
    pub deposit_order: DepositOrder,
    /// The signer, who must be the order's keeper.
    pub keeper: Pubkey,
    /// Unix time of the request.
    pub now: i64,
}

/// The order after the keeper `keeper` releases `amount` of it at `now`, or the
/// reason it is refused. The sum is compared as an integer, so an overflowing
/// one is refused like any other that exceeds the order's amount.
pub open spec fn execute_outcome(order: DepositOrder, keeper: Pubkey, now: i64, amount: u64) -> Result<
    DepositOrder,
    BaggageError,
> {
    if order.status.is_terminal() {
        Err(BaggageError::InvalidOrderStatus)
    } else if order.keeper@ != keeper@ {
        Err(BaggageError::Unauthorized)
    } else if order.status != OrderStatus::ReadyToExecute {
        Err(BaggageError::InvalidOrderStatus)
    } else if order.expired_at(now) {
        Err(BaggageError::OrderTimeout)
    } else if amount == 0 || order.completed_amount + amount > order.amount {
        Err(BaggageError::InvalidAmount)
    } else {
        let done = (order.completed_amount + amount) as u64;
        Ok(
            DepositOrder {
                completed_amount: done,
                status: if done == order.amount {
                    OrderStatus::Completed
                } else {
                    OrderStatus::ReadyToExecute
                },
                ..order
            },
        )
    }
}

/// Releases `amount` of a ready order to the keeper's side. The order is
/// completed when all of it has been released. Nothing is transferred here:
/// the tokens stay in the vault. A completed or cancelled order refuses it
/// whoever asks. A refused request changes nothing.
pub fn partially_execute_order(ctx: &mut ExecuteOrder, amount: u64) -> (r: Result<(), BaggageError>)
    ensures
        match execute_outcome(old(ctx).deposit_order, old(ctx).keeper, old(ctx).now, amount) {
            Ok(o) => r is Ok && *final(ctx) == (ExecuteOrder { deposit_order: o, ..*old(ctx) }),
            Err(e) => r == Err::<(), BaggageError>(e) && *final(ctx) == *old(ctx),
        },
{
    if ctx.deposit_order.status == OrderStatus::Completed || ctx.deposit_order.status
        == OrderStatus::Cancelled {
        return Err(BaggageError::InvalidOrderStatus);
    }
    if !ctx.deposit_order.keeper.same_as(&ctx.keeper) {
        return Err(BaggageError::Unauthorized);
    }
    if ctx.deposit_order.status != OrderStatus::ReadyToExecute {
        return Err(BaggageError::InvalidOrderStatus);
    }
    if is_order_timed_out(&ctx.deposit_order, ctx.now) {
        return Err(BaggageError::OrderTimeout);
    }
    if amount == 0 {
        return Err(BaggageError::InvalidAmount);
    }
    let new_completed_amount = match ctx.deposit_order.completed_amount.checked_add(amount) {
        Some(v) => v,
        None => return Err(BaggageError::InvalidAmount),
    };
    if new_completed_amount > ctx.deposit_order.amount {
        return Err(BaggageError::InvalidAmount);
    }
    ctx.deposit_order.completed_amount = new_completed_amount;
    if new_completed_amount == ctx.deposit_order.amount {
        ctx.deposit_order.status = OrderStatus::Completed;
    }
    Ok(())
}

} // verus!
