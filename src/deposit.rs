use vstd::prelude::*;
use crate::error::BaggageError;
use crate::state::{DepositOrder, OrderStatus, Pubkey};
use crate::token::{is_valid_mint, mint_layout_ok, read_token_account, token_account_layout_ok};
use crate::{MAX_TIMEOUT, MIN_TIMEOUT};

verus! {

/// The accounts and the time of a request to open an order.
#[derive(Clone, Debug)]
pub struct DepositTokens {
    /// The order's account: `None` while it is unallocated.
    pub deposit_order: Option<DepositOrder>,
    /// The signer, who deposits.
    pub user: Pubkey,
    /// The mint of the tokens to lock.
    pub mint: Pubkey,
    /// The data of the mint's account.
    pub mint_data: Vec<u8>,
    /// The data of the depositor's token account, which pays.
    pub user_token_account: Vec<u8>,
    /// The data of the vault's token account, which receives.
    pub vault_token_account: Vec<u8>,
    /// The bump of the order account's derived address.
    pub bump: u8,
    /// Unix time of the request.
    pub now: i64,
}

/// The order that a request opens, or the reason it is refused.
pub open spec fn deposit_outcome(
    ctx: DepositTokens,
    order_id: u64,
    amount: u64,
    keeper: Pubkey,
    timeout: i64,
) -> Result<DepositOrder, BaggageError> {
    let user_data = ctx.user_token_account@;
    let vault_data = ctx.vault_token_account@;
    if ctx.deposit_order is Some {
        Err(BaggageError::DuplicateOrder)
    } else if timeout < MIN_TIMEOUT || timeout > MAX_TIMEOUT {
        Err(BaggageError::InvalidTimeout)
    } else if amount == 0 {
        Err(BaggageError::InvalidAmount)
    } else if !token_account_layout_ok(user_data) || !token_account_layout_ok(vault_data)
        || !mint_layout_ok(ctx.mint_data@) {
        Err(BaggageError::InvalidAccountData)
    } else if user_data.subrange(32, 64) != ctx.user@ {
        Err(BaggageError::InvalidTokenAccountOwner)
    } else if user_data.subrange(0, 32) != ctx.mint@ || vault_data.subrange(0, 32) != ctx.mint@ {
        Err(BaggageError::InvalidTokenMint)
    } else {
        Ok(
            DepositOrder {
                order_id,
                user: ctx.user,
                amount,
                token_mint: ctx.mint,
                keeper,
                status: OrderStatus::Initialized,
                completed_amount: 0,
                timeout,
                creation_time: ctx.now,
                bump: ctx.bump,
            },
        )
    }
}

/// Opens an order of `amount` tokens for `keeper`, expiring `timeout` seconds
/// from now, and returns the amount that the depositor's token account then
/// sends to the vault: all of it. A refused request changes nothing.
pub fn deposit_tokens(
    ctx: &mut DepositTokens,
    order_id: u64,
    amount: u64,
    keeper: Pubkey,
    timeout: i64,
) -> (r: Result<u64, BaggageError>)
    ensures
        match deposit_outcome(*old(ctx), order_id, amount, keeper, timeout) {
            Ok(o) => r == Ok::<u64, BaggageError>(amount) && *final(ctx) == (DepositTokens {
                deposit_order: Some(o),
                ..*old(ctx)
            }),
            Err(e) => r == Err::<u64, BaggageError>(e) && *final(ctx) == *old(ctx),
        },
{
    if ctx.deposit_order.is_some() {
        return Err(BaggageError::DuplicateOrder);
    }
    if timeout < MIN_TIMEOUT || timeout > MAX_TIMEOUT {
        return Err(BaggageError::InvalidTimeout);
    }
    if amount == 0 {
        return Err(BaggageError::InvalidAmount);
    }
    let user_token = match read_token_account(ctx.user_token_account.as_slice()) {
        Some(keys) => keys,
        None => return Err(BaggageError::InvalidAccountData),
    };
    let vault_token = match read_token_account(ctx.vault_token_account.as_slice()) {
        Some(keys) => keys,
        None => return Err(BaggageError::InvalidAccountData),
    };
    if !is_valid_mint(ctx.mint_data.as_slice()) {
        return Err(BaggageError::InvalidAccountData);
    }
    if !user_token.owner.same_as(&ctx.user) {
        return Err(BaggageError::InvalidTokenAccountOwner);
    }
    if !user_token.mint.same_as(&ctx.mint) || !vault_token.mint.same_as(&ctx.mint) {
        return Err(BaggageError::InvalidTokenMint);
    }
    ctx.deposit_order = Some(
        DepositOrder {
            order_id,
            user: ctx.user,
            amount,
            token_mint: ctx.mint,
            keeper,
            status: OrderStatus::Initialized,
            completed_amount: 0,
            timeout,
            creation_time: ctx.now,
            bump: ctx.bump,
        },
    );
    Ok(amount)
}

} // verus!
