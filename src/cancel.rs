use vstd::prelude::*;
use crate::error::BaggageError;
use crate::state::{DepositOrder, OrderStatus, Pubkey};
use crate::token::{read_token_account, token_account_layout_ok};
use crate::utils::is_order_timed_out;

verus! {

/// The accounts and the time of a request to cancel an order.
#[derive(Clone, Debug)]
pub struct CancelOrder {
    pub deposit_order: DepositOrder,
    /// The signer, who must be the depositor or the keeper.
    pub authority: Pubkey,
    /// The data of the depositor's token account, which receives the refund.
    pub user_token_account: Vec<u8>,
    /// The data of the vault's token account, which holds the locked tokens.
    pub vault_token_account: Vec<u8>,
    /// Unix time of the request.
    pub now: i64,
}

/// Whether an order in this status may be cancelled at `now`: an initialized
/// one always, a ready one once it has expired, a completed or cancelled one never.
pub open spec fn cancellable(order: DepositOrder, now: i64) -> bool {
    order.status == OrderStatus::Initialized || (order.status == OrderStatus::ReadyToExecute
        && order.expired_at(now))
}

/// The order after `authority` cancels it at `now`, given the data of the two
/// token accounts, or the reason it is refused.
pub open spec fn cancel_outcome(
    order: DepositOrder,
    authority: Pubkey,
    user_data: Seq<u8>,
    vault_data: Seq<u8>,
    now: i64,
) -> Result<DepositOrder, BaggageError> {
    if order.status.is_terminal() {
        Err(BaggageError::InvalidOrderStatus)
    } else if authority@ != order.user@ && authority@ != order.keeper@ {
        Err(BaggageError::Unauthorized)
    } else if !cancellable(order, now) {
        Err(BaggageError::InvalidOrderStatus)
    } else if !token_account_layout_ok(user_data) || !token_account_layout_ok(vault_data) {
        Err(BaggageError::InvalidAccountData)
    } else if user_data.subrange(32, 64) != order.user@ {
        Err(BaggageError::InvalidTokenAccountOwner)
    } else if user_data.subrange(0, 32) != order.token_mint@ || vault_data.subrange(0, 32)
        != order.token_mint@ {
        Err(BaggageError::InvalidTokenMint)
    } else if order.completed_amount > order.amount {
        Err(BaggageError::InvalidAmount)
    } else {
        Ok(DepositOrder { status: OrderStatus::Cancelled, ..order })
    }
}

/// Cancels an order and returns the refund, what is left of it, which the
/// vault then sends back to the depositor's token account (nothing is sent
/// where it is zero). A completed or cancelled order refuses it whoever asks,
/// and the status is judged before the token accounts are read. A refused
/// request changes nothing.
pub fn cancel_order(ctx: &mut CancelOrder) -> (r: Result<u64, BaggageError>)
    ensures
        match cancel_outcome(
            old(ctx).deposit_order,
            old(ctx).authority,
            old(ctx).user_token_account@,
            old(ctx).vault_token_account@,
            old(ctx).now,
        ) {
            Ok(o) => r == Ok::<u64, BaggageError>(
                (old(ctx).deposit_order.amount - old(ctx).deposit_order.completed_amount) as u64,
            ) && final(ctx).deposit_order == o && final(ctx).authority == old(ctx).authority
                && final(ctx).user_token_account == old(ctx).user_token_account
                && final(ctx).vault_token_account == old(ctx).vault_token_account
                && final(ctx).now == old(ctx).now,
            Err(e) => r == Err::<u64, BaggageError>(e) && *final(ctx) == *old(ctx),
        },
{
    let order = ctx.deposit_order;
    if order.status == OrderStatus::Completed || order.status == OrderStatus::Cancelled {
        return Err(BaggageError::InvalidOrderStatus);
    }
    if !ctx.authority.same_as(&order.user) && !ctx.authority.same_as(&order.keeper) {
        return Err(BaggageError::Unauthorized);
    }
    let may_cancel = order.status == OrderStatus::Initialized || (order.status
        == OrderStatus::ReadyToExecute && is_order_timed_out(&order, ctx.now));
    if !may_cancel {
        return Err(BaggageError::InvalidOrderStatus);
    }
    let user_token = match read_token_account(ctx.user_token_account.as_slice()) {
        Some(keys) => keys,
        None => return Err(BaggageError::InvalidAccountData),
    };
    let vault_token = match read_token_account(ctx.vault_token_account.as_slice()) {
        Some(keys) => keys,
        None => return Err(BaggageError::InvalidAccountData),
    };
    if !user_token.owner.same_as(&order.user) {
        return Err(BaggageError::InvalidTokenAccountOwner);
    }
    if !user_token.mint.same_as(&order.token_mint) || !vault_token.mint.same_as(&order.token_mint) {
        return Err(BaggageError::InvalidTokenMint);
    }
    let refund_amount = match order.amount.checked_sub(order.completed_amount) {
        Some(v) => v,
        None => return Err(BaggageError::InvalidAmount),
    };
    ctx.deposit_order.status = OrderStatus::Cancelled;
    Ok(refund_amount)
}

} // verus!
