use vstd::prelude::*;
use crate::cancel::{cancel_outcome, cancellable};
use crate::deposit::{deposit_outcome, DepositTokens};
use crate::error::BaggageError;
use crate::execute::execute_outcome;
use crate::state::{DepositOrder, OrderStatus, Pubkey};
use crate::token::token_account_layout_ok;
use crate::update_status::mark_ready_outcome;

verus! {

/// The two token accounts of a cancellation are well formed, the first is the
/// depositor's, and both hold the order's mint.
pub open spec fn refund_accounts_match(order: DepositOrder, user_data: Seq<u8>, vault_data: Seq<u8>) -> bool {
    &&& token_account_layout_ok(user_data)
    &&& token_account_layout_ok(vault_data)
    &&& user_data.subrange(32, 64) == order.user@
    &&& user_data.subrange(0, 32) == order.token_mint@
    &&& vault_data.subrange(0, 32) == order.token_mint@
}

/// One instruction applied to an order: `b` is what some accepted
/// instruction makes of `a`, or `a` itself, as a refused one leaves it.
pub open spec fn instruction_step(a: DepositOrder, b: DepositOrder) -> bool {
    ||| a == b
    ||| exists|k: Pubkey, now: i64| #[trigger] mark_ready_outcome(a, k, now) == Ok::<DepositOrder, BaggageError>(b)
    ||| exists|k: Pubkey, now: i64, amount: u64| #[trigger] execute_outcome(a, k, now, amount) == Ok::<DepositOrder, BaggageError>(b)
    ||| exists|auth: Pubkey, ud: Seq<u8>, vd: Seq<u8>, now: i64| #[trigger] cancel_outcome(a, auth, ud, vd, now) == Ok::<DepositOrder, BaggageError>(b)
}

/// The total of a list of amounts.
pub open spec fn total(amounts: Seq<u64>) -> int
    decreases amounts.len(),
{
    if amounts.len() == 0 {
        0
    } else {
        amounts[0] + total(amounts.drop_first())
    }
}

/// The order after the keeper `keeper` releases each of `amounts` in turn at
/// `now`, or the first refusal.
pub open spec fn execute_each(order: DepositOrder, keeper: Pubkey, now: i64, amounts: Seq<u64>) -> Result<
    DepositOrder,
    BaggageError,
>
    decreases amounts.len(),
{
    if amounts.len() == 0 {
        Ok(order)
    } else {
        match execute_outcome(order, keeper, now, amounts[0]) {
            Ok(next) => execute_each(next, keeper, now, amounts.drop_first()),
            Err(e) => Err(e),
        }
    }
}

/// A new order is well formed and initialized, and the whole amount stands in
/// the vault for it; once its account exists, opening it again is refused as
/// a duplicate, whoever asks and on whatever terms.
pub proof fn lemma_deposit_locks_amount(
    ctx: DepositTokens,
    order_id: u64,
    amount: u64,
    keeper: Pubkey,
    timeout: i64,
    again: DepositTokens,
    order_id2: u64,
    amount2: u64,
    keeper2: Pubkey,
    timeout2: i64,
)
    requires
        deposit_outcome(ctx, order_id, amount, keeper, timeout) is Ok,
        again.deposit_order == Some(deposit_outcome(ctx, order_id, amount, keeper, timeout)->Ok_0),
    ensures
        ({
            let o = deposit_outcome(ctx, order_id, amount, keeper, timeout)->Ok_0;
            &&& o.wf()
            &&& o.status == OrderStatus::Initialized
            &&& o.amount == amount
            &&& o.remaining() == amount
        }),
        deposit_outcome(again, order_id2, amount2, keeper2, timeout2) == Err::<DepositOrder, BaggageError>(
            BaggageError::DuplicateOrder,
        ),
{
}

/// An accepted instruction keeps an order well formed, keeps its terms, never
/// lowers what has been released, and never moves its status back.
pub proof fn lemma_step_keeps_order(a: DepositOrder, b: DepositOrder)
    requires
        a.wf(),
        instruction_step(a, b),
    ensures
        b.wf(),
        a.same_terms(b),
        a.completed_amount <= b.completed_amount,
        a.status.rank() <= b.status.rank(),
{
    if a == b {
    } else if exists|k: Pubkey, now: i64| #[trigger] mark_ready_outcome(a, k, now) == Ok::<DepositOrder, BaggageError>(b) {
        let (k, now) = choose|k: Pubkey, now: i64| #[trigger] mark_ready_outcome(a, k, now) == Ok::<DepositOrder, BaggageError>(b);
    } else if exists|k: Pubkey, now: i64, amount: u64| #[trigger] execute_outcome(a, k, now, amount) == Ok::<DepositOrder, BaggageError>(b) {
        let (k, now, amount) = choose|k: Pubkey, now: i64, amount: u64| #[trigger] execute_outcome(a, k, now, amount) == Ok::<DepositOrder, BaggageError>(b);
    } else {
        let (auth, ud, vd, now) = choose|auth: Pubkey, ud: Seq<u8>, vd: Seq<u8>, now: i64| #[trigger] cancel_outcome(a, auth, ud, vd, now) == Ok::<DepositOrder, BaggageError>(b);
    }
}

proof fn lemma_run_upto(run: Seq<DepositOrder>, j: int)
    requires
        0 <= j < run.len(),
        run[0].wf(),
        forall|i: int| 0 <= i < run.len() - 1 ==> instruction_step(#[trigger] run[i], run[i + 1]),
    ensures
        run[j].wf(),
        run[j].amount == run[0].amount,
        forall|i: int| 0 <= i <= j ==> #[trigger] run[i].completed_amount <= run[j].completed_amount,
    decreases j,
{
    if j > 0 {
        lemma_run_upto(run, j - 1);
        assert(instruction_step(run[j - 1], run[j]));
        lemma_step_keeps_order(run[j - 1], run[j]);
    }
}

/// Along any sequence of instructions on a well-formed order, what has been
/// released never decreases and never exceeds the order's amount.
pub proof fn lemma_completed_amount_monotone(run: Seq<DepositOrder>)
    requires
        run.len() > 0,
        run[0].wf(),
        forall|i: int| 0 <= i < run.len() - 1 ==> instruction_step(#[trigger] run[i], run[i + 1]),
    ensures
        forall|i: int, j: int|
            0 <= i <= j < run.len() ==> #[trigger] run[i].completed_amount <= #[trigger] run[j].completed_amount,
        forall|j: int| 0 <= j < run.len() ==> #[trigger] run[j].completed_amount <= run[j].amount,
        forall|j: int| 0 <= j < run.len() ==> #[trigger] run[j].amount == run[0].amount,
{
    assert forall|i: int, j: int| 0 <= i <= j < run.len() implies #[trigger] run[i].completed_amount
        <= #[trigger] run[j].completed_amount by {
        lemma_run_upto(run, j);
    }
    assert forall|j: int| 0 <= j < run.len() implies #[trigger] run[j].completed_amount <= run[j].amount by {
        lemma_run_upto(run, j);
    }
    assert forall|j: int| 0 <= j < run.len() implies #[trigger] run[j].amount == run[0].amount by {
        lemma_run_upto(run, j);
    }
}

/// Marking an order ready succeeds exactly when it is initialized, the
/// signer is its keeper and it has not expired; then only the status changes.
pub proof fn lemma_mark_ready_iff(order: DepositOrder, keeper: Pubkey, now: i64)
    ensures
        mark_ready_outcome(order, keeper, now) is Ok <==> (order.status == OrderStatus::Initialized
            && order.keeper@ == keeper@ && !order.expired_at(now)),
        mark_ready_outcome(order, keeper, now) is Ok ==> mark_ready_outcome(order, keeper, now)->Ok_0
            == (DepositOrder { status: OrderStatus::ReadyToExecute, ..order }),
{
}

/// On a ready order, by its keeper and before the deadline, a release that
/// closes the gap completes the order, a smaller one keeps it ready, and one
/// that overshoots is refused as an invalid amount.
pub proof fn lemma_execute_step(order: DepositOrder, keeper: Pubkey, now: i64, amount: u64)
    requires
        order.wf(),
        order.status == OrderStatus::ReadyToExecute,
        order.keeper@ == keeper@,
        !order.expired_at(now),
        amount > 0,
    ensures
        order.completed_amount + amount == order.amount ==> execute_outcome(order, keeper, now, amount)
            == Ok::<DepositOrder, BaggageError>(
            DepositOrder { completed_amount: order.amount, status: OrderStatus::Completed, ..order },
        ),
        order.completed_amount + amount < order.amount ==> execute_outcome(order, keeper, now, amount)
            == Ok::<DepositOrder, BaggageError>(
            DepositOrder { completed_amount: (order.completed_amount + amount) as u64, ..order },
        ),
        order.completed_amount + amount > order.amount ==> execute_outcome(order, keeper, now, amount)
            == Err::<DepositOrder, BaggageError>(BaggageError::InvalidAmount),
{
}

proof fn lemma_total_of_positive(amounts: Seq<u64>)
    requires
        forall|i: int| 0 <= i < amounts.len() ==> #[trigger] amounts[i] > 0,
    ensures
        total(amounts) >= 0,
        amounts.len() > 0 ==> total(amounts) > 0,
    decreases amounts.len(),
{
    if amounts.len() > 0 {
        lemma_total_of_positive(amounts.drop_first());
    }
}

/// Positive releases by the keeper before the deadline that add up exactly to
/// what is left of a ready order all succeed, and together they complete it.
pub proof fn lemma_releases_complete_order(order: DepositOrder, keeper: Pubkey, now: i64, amounts: Seq<u64>)
    requires
        order.wf(),
        order.status == OrderStatus::ReadyToExecute,
        order.keeper@ == keeper@,
        !order.expired_at(now),
        amounts.len() > 0,
        forall|i: int| 0 <= i < amounts.len() ==> #[trigger] amounts[i] > 0,
        order.completed_amount + total(amounts) == order.amount,
    ensures
        execute_each(order, keeper, now, amounts) == Ok::<DepositOrder, BaggageError>(
            DepositOrder { completed_amount: order.amount, status: OrderStatus::Completed, ..order },
        ),
    decreases amounts.len(),
{
    let rest = amounts.drop_first();
    lemma_total_of_positive(rest);
    assert(total(amounts) == amounts[0] + total(rest));
    lemma_execute_step(order, keeper, now, amounts[0]);
    if amounts.len() == 1 {
        assert(rest.len() == 0);
        let done = DepositOrder { completed_amount: order.amount, status: OrderStatus::Completed, ..order };
        assert(execute_outcome(order, keeper, now, amounts[0]) == Ok::<DepositOrder, BaggageError>(done));
        assert(execute_each(done, keeper, now, rest) == Ok::<DepositOrder, BaggageError>(done));
    } else {
        let next = DepositOrder { completed_amount: (order.completed_amount + amounts[0]) as u64, ..order };
        assert(execute_outcome(order, keeper, now, amounts[0]) == Ok::<DepositOrder, BaggageError>(next));
        assert forall|i: int| 0 <= i < rest.len() implies #[trigger] rest[i] > 0 by {
            assert(rest[i] == amounts[i + 1]);
        }
        lemma_releases_complete_order(next, keeper, now, rest);
        assert(execute_each(order, keeper, now, amounts) == execute_each(next, keeper, now, rest));
    }
}

/// By the depositor or the keeper: a ready order is refused before its
/// deadline, whatever the token accounts hold; with matching token accounts,
/// an initialized order is cancelled with its whole amount refunded, and a
/// ready one after its deadline is cancelled with what was not released
/// refunded.
pub proof fn lemma_cancel_refunds(
    order: DepositOrder,
    authority: Pubkey,
    user_data: Seq<u8>,
    vault_data: Seq<u8>,
    now: i64,
)
    requires
        order.wf(),
        authority@ == order.user@ || authority@ == order.keeper@,
    ensures
        order.status == OrderStatus::Initialized && refund_accounts_match(order, user_data, vault_data)
            ==> cancel_outcome(order, authority, user_data, vault_data, now)
            == Ok::<DepositOrder, BaggageError>(DepositOrder { status: OrderStatus::Cancelled, ..order })
            && order.remaining() == order.amount,
        order.status == OrderStatus::ReadyToExecute && !order.expired_at(now) ==> cancel_outcome(
            order,
            authority,
            user_data,
            vault_data,
            now,
        ) == Err::<DepositOrder, BaggageError>(BaggageError::InvalidOrderStatus),
        order.status == OrderStatus::ReadyToExecute && order.expired_at(now) && refund_accounts_match(
            order,
            user_data,
            vault_data,
        ) ==> cancel_outcome(
            order,
            authority,
            user_data,
            vault_data,
            now,
        ) == Ok::<DepositOrder, BaggageError>(DepositOrder { status: OrderStatus::Cancelled, ..order }),
{
}

/// A completed or cancelled order refuses every instruction with an invalid
/// status, at any time, whoever signs and whatever the token accounts hold.
pub proof fn lemma_terminal_refuses(
    order: DepositOrder,
    signer: Pubkey,
    user_data: Seq<u8>,
    vault_data: Seq<u8>,
    now: i64,
    amount: u64,
)
    requires
        order.status.is_terminal(),
    ensures
        mark_ready_outcome(order, signer, now) == Err::<DepositOrder, BaggageError>(
            BaggageError::InvalidOrderStatus,
        ),
        execute_outcome(order, signer, now, amount) == Err::<DepositOrder, BaggageError>(
            BaggageError::InvalidOrderStatus,
        ),
        cancel_outcome(order, signer, user_data, vault_data, now) == Err::<DepositOrder, BaggageError>(
            BaggageError::InvalidOrderStatus,
        ),
{
}

} // verus!
