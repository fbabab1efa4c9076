use baggage::address::{deposit_order_seed, find_order_address, order_address_seeds};
use baggage::token::{is_valid_mint, read_token_account};
use baggage::{
    cancel_order, deposit_tokens, is_order_timed_out, partially_execute_order,
    update_order_status_to_ready, BaggageError, CancelOrder, DepositOrder, DepositTokens,
    ExecuteOrder, OrderStatus, Pubkey, UpdateOrderStatus, MAX_TIMEOUT, MIN_TIMEOUT,
};

fn key(b: u8) -> Pubkey {
    Pubkey::new_from_array([b; 32])
}

fn token_account(mint: &Pubkey, owner: &Pubkey) -> Vec<u8> {
    let mut d = vec![0u8; 165];
    d[0..32].copy_from_slice(&mint.to_bytes());
    d[32..64].copy_from_slice(&owner.to_bytes());
    d[108] = 1;
    d
}

fn mint_account() -> Vec<u8> {
    let mut d = vec![0u8; 82];
    d[45] = 1;
    d
}

const D: u8 = 1;
const K: u8 = 2;
const MINT: u8 = 3;
const OTHER: u8 = 9;

fn deposit_ctx(now: i64) -> DepositTokens {
    DepositTokens {
        deposit_order: None,
        user: key(D),
        mint: key(MINT),
        mint_data: mint_account(),
        user_token_account: token_account(&key(MINT), &key(D)),
        vault_token_account: token_account(&key(MINT), &key(OTHER)),
        bump: 254,
        now,
    }
}

fn create(order_id: u64, amount: u64, timeout: i64, now: i64) -> DepositOrder {
    let mut ctx = deposit_ctx(now);
    assert_eq!(deposit_tokens(&mut ctx, order_id, amount, key(K), timeout), Ok(amount));
    ctx.deposit_order.unwrap()
}

fn mark_ready(order: DepositOrder, signer: u8, now: i64) -> (Result<(), BaggageError>, DepositOrder) {
    let mut ctx = UpdateOrderStatus { deposit_order: order, keeper: key(signer), now };
    let r = update_order_status_to_ready(&mut ctx);
    (r, ctx.deposit_order)
}

fn execute(order: DepositOrder, signer: u8, now: i64, amount: u64) -> (Result<(), BaggageError>, DepositOrder) {
    let mut ctx = ExecuteOrder { deposit_order: order, keeper: key(signer), now };
    let r = partially_execute_order(&mut ctx, amount);
    (r, ctx.deposit_order)
}

fn cancel(order: DepositOrder, signer: u8, now: i64) -> (Result<u64, BaggageError>, DepositOrder) {
    let mut ctx = CancelOrder {
        deposit_order: order,
        authority: key(signer),
        user_token_account: token_account(&key(MINT), &key(D)),
        vault_token_account: token_account(&key(MINT), &key(OTHER)),
        now,
    };
    let r = cancel_order(&mut ctx);
    (r, ctx.deposit_order)
}

fn same(a: &DepositOrder, b: &DepositOrder) -> bool {
    a.order_id == b.order_id
        && a.user == b.user
        && a.amount == b.amount
        && a.token_mint == b.token_mint
        && a.keeper == b.keeper
        && a.status == b.status
        && a.completed_amount == b.completed_amount
        && a.timeout == b.timeout
        && a.creation_time == b.creation_time
        && a.bump == b.bump
}

#[test]
fn full_release_then_cancel_is_refused() {
    let o = create(1, 1000, 600, 0);
    let (r, o) = mark_ready(o, K, 100);
    assert_eq!(r, Ok(()));
    assert!(o.status == OrderStatus::ReadyToExecute);
    let (r, o) = execute(o, K, 100, 400);
    assert_eq!(r, Ok(()));
    assert_eq!(o.completed_amount, 400);
    assert!(o.status == OrderStatus::ReadyToExecute);
    let (r, o) = execute(o, K, 100, 600);
    assert_eq!(r, Ok(()));
    assert_eq!(o.completed_amount, 1000);
    assert!(o.status == OrderStatus::Completed);
    let (r, o2) = cancel(o, D, 100);
    assert_eq!(r, Err(BaggageError::InvalidOrderStatus));
    assert!(same(&o, &o2));
}

#[test]
fn expired_order_cannot_be_marked_ready_but_can_be_cancelled() {
    let o = create(7, 500, 300, 0);
    let (r, o2) = mark_ready(o, K, 301);
    assert_eq!(r, Err(BaggageError::OrderTimeout));
    assert!(same(&o, &o2));
    assert!(o2.status == OrderStatus::Initialized);
    let (r, o3) = cancel(o2, D, 301);
    assert_eq!(r, Ok(500));
    assert!(o3.status == OrderStatus::Cancelled);
}

#[test]
fn deposit_opens_initialized_order() {
    let mut ctx = deposit_ctx(42);
    assert_eq!(deposit_tokens(&mut ctx, 5, 1000, key(K), 600), Ok(1000));
    let o = ctx.deposit_order.unwrap();
    assert_eq!(o.order_id, 5);
    assert_eq!(o.amount, 1000);
    assert_eq!(o.completed_amount, 0);
    assert!(o.status == OrderStatus::Initialized);
    assert_eq!(o.creation_time, 42);
    assert_eq!(o.timeout, 600);
    assert_eq!(o.bump, 254);
    assert!(o.user == key(D));
    assert!(o.keeper == key(K));
    assert!(o.token_mint == key(MINT));
}

#[test]
fn second_deposit_is_duplicate() {
    let mut ctx = deposit_ctx(0);
    assert_eq!(deposit_tokens(&mut ctx, 1, 1000, key(K), 600), Ok(1000));
    let first = ctx.deposit_order.unwrap();
    assert_eq!(deposit_tokens(&mut ctx, 1, 50, key(OTHER), 900), Err(BaggageError::DuplicateOrder));
    assert!(same(&first, &ctx.deposit_order.unwrap()));
}

#[test]
fn deposit_timeout_bounds() {
    let mut ctx = deposit_ctx(0);
    assert_eq!(deposit_tokens(&mut ctx, 1, 10, key(K), MIN_TIMEOUT - 1), Err(BaggageError::InvalidTimeout));
    assert_eq!(deposit_tokens(&mut ctx, 1, 10, key(K), MAX_TIMEOUT + 1), Err(BaggageError::InvalidTimeout));
    assert!(ctx.deposit_order.is_none());
    assert_eq!(deposit_tokens(&mut ctx, 1, 10, key(K), MIN_TIMEOUT), Ok(10));
    let mut ctx = deposit_ctx(0);
    assert_eq!(deposit_tokens(&mut ctx, 1, 10, key(K), MAX_TIMEOUT), Ok(10));
}

#[test]
fn deposit_of_zero_is_refused() {
    let mut ctx = deposit_ctx(0);
    assert_eq!(deposit_tokens(&mut ctx, 1, 0, key(K), 600), Err(BaggageError::InvalidAmount));
}

#[test]
fn deposit_of_largest_amount() {
    let mut ctx = deposit_ctx(0);
    assert_eq!(deposit_tokens(&mut ctx, u64::MAX, u64::MAX, key(K), 600), Ok(u64::MAX));
}

#[test]
fn deposit_checks_accounts() {
    let mut ctx = deposit_ctx(0);
    ctx.user_token_account.pop();
    assert_eq!(deposit_tokens(&mut ctx, 1, 10, key(K), 600), Err(BaggageError::InvalidAccountData));
    let mut ctx = deposit_ctx(0);
    ctx.mint_data[45] = 0;
    assert_eq!(deposit_tokens(&mut ctx, 1, 10, key(K), 600), Err(BaggageError::InvalidAccountData));
    let mut ctx = deposit_ctx(0);
    ctx.user_token_account = token_account(&key(MINT), &key(OTHER));
    assert_eq!(deposit_tokens(&mut ctx, 1, 10, key(K), 600), Err(BaggageError::InvalidTokenAccountOwner));
    let mut ctx = deposit_ctx(0);
    ctx.vault_token_account = token_account(&key(OTHER), &key(OTHER));
    assert_eq!(deposit_tokens(&mut ctx, 1, 10, key(K), 600), Err(BaggageError::InvalidTokenMint));
    assert!(ctx.deposit_order.is_none());
}

#[test]
fn mark_ready_errors() {
    let o = create(1, 100, 600, 0);
    let (r, o2) = mark_ready(o, D, 10);
    assert_eq!(r, Err(BaggageError::Unauthorized));
    assert!(same(&o, &o2));
    let (r, o) = mark_ready(o, K, 600);
    assert_eq!(r, Ok(()));
    let (r, o2) = mark_ready(o, K, 10);
    assert_eq!(r, Err(BaggageError::InvalidOrderStatus));
    assert!(same(&o, &o2));
}

#[test]
fn execute_errors() {
    let o = create(1, 100, 600, 0);
    let (r, _) = execute(o, K, 10, 10);
    assert_eq!(r, Err(BaggageError::InvalidOrderStatus));
    let (_, o) = mark_ready(o, K, 10);
    let (r, _) = execute(o, D, 10, 10);
    assert_eq!(r, Err(BaggageError::Unauthorized));
    let (r, _) = execute(o, K, 601, 10);
    assert_eq!(r, Err(BaggageError::OrderTimeout));
    let (r, _) = execute(o, K, 10, 0);
    assert_eq!(r, Err(BaggageError::InvalidAmount));
    let (r, o2) = execute(o, K, 10, 101);
    assert_eq!(r, Err(BaggageError::InvalidAmount));
    assert!(same(&o, &o2));
    let (r, o) = execute(o, K, 10, 60);
    assert_eq!(r, Ok(()));
    let (r, _) = execute(o, K, 10, u64::MAX);
    assert_eq!(r, Err(BaggageError::InvalidAmount));
    let (r, o2) = execute(o, K, 10, 41);
    assert_eq!(r, Err(BaggageError::InvalidAmount));
    assert_eq!(o2.completed_amount, 60);
    let (r, o) = execute(o, K, 10, 40);
    assert_eq!(r, Ok(()));
    assert!(o.status == OrderStatus::Completed);
}

#[test]
fn cancel_initialized_by_keeper_refunds_all() {
    let o = create(1, 250, 600, 0);
    let (r, o) = cancel(o, K, 5);
    assert_eq!(r, Ok(250));
    assert!(o.status == OrderStatus::Cancelled);
    assert_eq!(o.completed_amount, 0);
}

#[test]
fn cancel_ready_before_and_after_deadline() {
    let o = create(1, 1000, 600, 0);
    let (_, o) = mark_ready(o, K, 1);
    let (_, o) = execute(o, K, 2, 300);
    let (r, o2) = cancel(o, D, 600);
    assert_eq!(r, Err(BaggageError::InvalidOrderStatus));
    assert!(same(&o, &o2));
    let (r, o) = cancel(o, K, 601);
    assert_eq!(r, Ok(700));
    assert!(o.status == OrderStatus::Cancelled);
    assert_eq!(o.completed_amount, 300);
}

#[test]
fn cancel_errors() {
    let o = create(1, 1000, 600, 0);
    let (r, _) = cancel(o, OTHER, 5);
    assert_eq!(r, Err(BaggageError::Unauthorized));
    let mut ctx = CancelOrder {
        deposit_order: o,
        authority: key(D),
        user_token_account: vec![0u8; 165],
        vault_token_account: token_account(&key(MINT), &key(OTHER)),
        now: 5,
    };
    assert_eq!(cancel_order(&mut ctx), Err(BaggageError::InvalidAccountData));
    ctx.user_token_account = token_account(&key(MINT), &key(OTHER));
    assert_eq!(cancel_order(&mut ctx), Err(BaggageError::InvalidTokenAccountOwner));
    ctx.user_token_account = token_account(&key(MINT), &key(D));
    ctx.vault_token_account = token_account(&key(OTHER), &key(OTHER));
    assert_eq!(cancel_order(&mut ctx), Err(BaggageError::InvalidTokenMint));
    assert!(ctx.deposit_order.status == OrderStatus::Initialized);
    let mut broken = o;
    broken.completed_amount = 1001;
    let (r, _) = cancel(broken, D, 5);
    assert_eq!(r, Err(BaggageError::InvalidAmount));
}

#[test]
fn terminal_orders_refuse_everything() {
    let o = create(1, 100, 600, 0);
    let (_, cancelled) = cancel(o, D, 1);
    let (_, o) = mark_ready(o, K, 1);
    let (_, completed) = execute(o, K, 1, 100);
    for t in [completed, cancelled] {
        for now in [1i64, 10_000] {
            assert_eq!(mark_ready(t, K, now).0, Err(BaggageError::InvalidOrderStatus));
            assert_eq!(execute(t, K, now, 1).0, Err(BaggageError::InvalidOrderStatus));
            assert_eq!(cancel(t, D, now).0, Err(BaggageError::InvalidOrderStatus));
            assert_eq!(cancel(t, K, now).0, Err(BaggageError::InvalidOrderStatus));
            assert_eq!(mark_ready(t, OTHER, now).0, Err(BaggageError::InvalidOrderStatus));
            assert_eq!(execute(t, OTHER, now, 1).0, Err(BaggageError::InvalidOrderStatus));
            assert_eq!(cancel(t, OTHER, now).0, Err(BaggageError::InvalidOrderStatus));
            let mut ctx = CancelOrder {
                deposit_order: t,
                authority: key(OTHER),
                user_token_account: Vec::new(),
                vault_token_account: Vec::new(),
                now,
            };
            assert_eq!(cancel_order(&mut ctx), Err(BaggageError::InvalidOrderStatus));
            assert!(same(&t, &ctx.deposit_order));
        }
    }
}

#[test]
fn cancel_ready_before_deadline_ignores_token_accounts() {
    let o = create(1, 1000, 600, 0);
    let (_, o) = mark_ready(o, K, 1);
    let mut ctx = CancelOrder {
        deposit_order: o,
        authority: key(D),
        user_token_account: vec![0u8; 3],
        vault_token_account: token_account(&key(OTHER), &key(OTHER)),
        now: 600,
    };
    assert_eq!(cancel_order(&mut ctx), Err(BaggageError::InvalidOrderStatus));
    assert!(same(&o, &ctx.deposit_order));
}

#[test]
fn completed_amount_never_decreases() {
    let o = create(1, 90, 600, 0);
    let (_, mut o) = mark_ready(o, K, 1);
    let mut last = 0u64;
    for (i, a) in [10u64, 0, 50, 100, 30, 5].iter().enumerate() {
        let (_, next) = execute(o, K, i as i64, *a);
        assert!(next.completed_amount >= last);
        assert!(next.completed_amount <= next.amount);
        last = next.completed_amount;
        o = next;
    }
    assert_eq!(o.completed_amount, 90);
    assert!(o.status == OrderStatus::Completed);
}

#[test]
fn timed_out_compares_strictly() {
    let o = create(1, 100, 600, 1000);
    assert!(!is_order_timed_out(&o, 1600));
    assert!(is_order_timed_out(&o, 1601));
    let mut far = o;
    far.creation_time = i64::MAX;
    far.timeout = MAX_TIMEOUT;
    assert!(!is_order_timed_out(&far, i64::MAX));
}

#[test]
fn status_and_error_names() {
    assert_eq!(OrderStatus::Initialized.as_str(), "Initialized");
    assert_eq!(OrderStatus::ReadyToExecute.as_str(), "ReadyToExecute");
    assert_eq!(OrderStatus::Completed.as_str(), "Completed");
    assert_eq!(OrderStatus::Cancelled.as_str(), "Cancelled");
    assert_eq!(BaggageError::OrderTimeout.message(), "The order has timed out");
    assert_eq!(BaggageError::InvalidOrderStatus.message(), "The order status is invalid");
    assert_eq!(BaggageError::InvalidAmount.message(), "The amount is invalid");
    assert_eq!(BaggageError::Unauthorized.message(), "The operation is not authorized");
    assert_eq!(BaggageError::InvalidTokenAccountOwner.message(), "The token account owner does not match");
    assert_eq!(BaggageError::InvalidTokenMint.message(), "The token account mint does not match");
    assert_eq!(BaggageError::InvalidTimeout.message(), "The timeout is out of range");
    assert_eq!(BaggageError::DuplicateOrder.message(), "The order already exists");
    assert_eq!(BaggageError::InvalidAccountData.message(), "The account data is invalid");
}

#[test]
fn token_account_reading() {
    let data = token_account(&key(MINT), &key(D));
    let keys = read_token_account(&data).unwrap();
    assert!(keys.mint == key(MINT));
    assert!(keys.owner == key(D));
    let mut frozen = data.clone();
    frozen[108] = 2;
    assert!(read_token_account(&frozen).is_some());
    let mut bad = data.clone();
    bad[108] = 0;
    assert!(read_token_account(&bad).is_none());
    let mut bad = data.clone();
    bad[72] = 2;
    assert!(read_token_account(&bad).is_none());
    assert!(read_token_account(&data[..164]).is_none());
    assert!(is_valid_mint(&mint_account()));
    assert!(!is_valid_mint(&vec![0u8; 82]));
    assert!(!is_valid_mint(&vec![0u8; 83]));
}

#[test]
fn order_address_is_keyed_by_id_and_mint() {
    let program = key(77);
    let seeds = order_address_seeds(1, &key(MINT));
    assert_eq!(seeds.len(), 3);
    assert_eq!(seeds[0], b"deposit_order".to_vec());
    assert_eq!(deposit_order_seed(), b"deposit_order".to_vec());
    assert_eq!(seeds[1], 1u64.to_le_bytes().to_vec());
    assert_eq!(seeds[2], vec![MINT; 32]);
    let (a, bump) = find_order_address(1, &key(MINT), &program).unwrap();
    let expected = anchor_lang::prelude::Pubkey::find_program_address(
        &[&b"deposit_order"[..], &1u64.to_le_bytes()[..], &[MINT; 32][..]],
        &anchor_lang::prelude::Pubkey::new_from_array([77; 32]),
    );
    assert_eq!(a.to_bytes(), expected.0.to_bytes());
    assert_eq!(bump, expected.1);
    assert!(a != program);
    let (b, _) = find_order_address(2, &key(MINT), &program).unwrap();
    let (c, _) = find_order_address(1, &key(OTHER), &program).unwrap();
    assert!(a != b);
    assert!(a != c);
}
