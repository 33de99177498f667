use vstd::prelude::*;
use vstd::arithmetic::div_mod::{lemma_div_is_ordered, lemma_div_multiples_vanish};
use vstd::arithmetic::mul::lemma_mul_inequality;

use crate::error::SwapError;
use crate::instructions::cancel_swap::{cancel_error, CancelSwap};
use crate::instructions::execute_swap::{fill_error, ExecuteSwap};
use crate::state::SwapAccount;

verus! {

/// Sum of a sequence of quantities.
pub open spec fn total_of(qs: Seq<u64>) -> int
    decreases qs.len(),
{
    if qs.len() == 0 {
        0
    } else {
        total_of(qs.drop_last()) + qs.last()
    }
}

/// A successful fill of `quantity` tokens takes `a` to `b`.
pub open spec fn fills(a: SwapAccount, b: SwapAccount, quantity: u64) -> bool {
    &&& a.is_active
    &&& 0 < quantity <= a.amount_remaining
    &&& b == a.after_fill(quantity)
}

/// One operation on a stored record: a failed one (nothing changes), a
/// successful fill, or a successful cancellation.
pub open spec fn transition(a: SwapAccount, b: SwapAccount) -> bool {
    ||| b == a
    ||| exists|q: u64| #[trigger] fills(a, b, q)
    ||| (a.is_active && b == a.after_cancel())
}

/// A run of operations on one record.
pub open spec fn is_history(records: Seq<SwapAccount>) -> bool {
    forall|i: int| 0 <= i < records.len() - 1 ==> transition(#[trigger] records[i], records[i + 1])
}

/// Every successful fill or cancellation is one step of a run of operations,
/// and so is every failed one, which leaves the record as it was.
pub proof fn lemma_operations_are_transitions(fill: ExecuteSwap, amount_to_buy: u64, cancel: CancelSwap)
    ensures
        fill_error(fill, amount_to_buy) is None ==> fills(fill.swap, fill.swap.after_fill(amount_to_buy), amount_to_buy)
            && transition(fill.swap, fill.swap.after_fill(amount_to_buy)),
        cancel_error(cancel) is None ==> transition(cancel.swap, cancel.swap.after_cancel()),
        transition(fill.swap, fill.swap),
{
    if fill_error(fill, amount_to_buy) is None {
        assert(fills(fill.swap, fill.swap.after_fill(amount_to_buy), amount_to_buy));
    }
}

/// Conservation: along any run of successful fills starting from a freshly
/// created record, the quantities sold plus the amount remaining equal the
/// total amount deposited, which itself never changes.
pub proof fn lemma_conservation(records: Seq<SwapAccount>, quantities: Seq<u64>)
    requires
        records.len() == quantities.len() + 1,
        records[0].amount_remaining == records[0].total_amount,
        forall|i: int| 0 <= i < quantities.len() ==> fills(#[trigger] records[i], records[i + 1], quantities[i]),
    ensures
        total_of(quantities) + records.last().amount_remaining == records[0].total_amount,
        records.last().total_amount == records[0].total_amount,
{
    lemma_conservation_prefix(records, quantities, quantities.len() as int);
    assert(quantities.take(quantities.len() as int) =~= quantities);
}

proof fn lemma_conservation_prefix(records: Seq<SwapAccount>, quantities: Seq<u64>, k: int)
    requires
        records.len() == quantities.len() + 1,
        records[0].amount_remaining == records[0].total_amount,
        forall|i: int| 0 <= i < quantities.len() ==> fills(#[trigger] records[i], records[i + 1], quantities[i]),
        0 <= k < records.len(),
    ensures
        total_of(quantities.take(k)) + records[k].amount_remaining == records[0].total_amount,
        records[k].total_amount == records[0].total_amount,
    decreases k,
{
    if k == 0 {
        assert(quantities.take(0) =~= Seq::<u64>::empty());
    } else {
        lemma_conservation_prefix(records, quantities, k - 1);
        assert(fills(records[k - 1], records[k], quantities[k - 1]));
        assert(quantities.take(k).drop_last() =~= quantities.take(k - 1));
    }
}

/// Monotonicity: along any run of operations the amount remaining never
/// grows, and the total amount never changes.
pub proof fn lemma_remaining_non_increasing(records: Seq<SwapAccount>)
    requires
        is_history(records),
    ensures
        forall|i: int, j: int| 0 <= i <= j < records.len() ==>
            (#[trigger] records[j]).amount_remaining <= (#[trigger] records[i]).amount_remaining
                && records[j].total_amount == records[i].total_amount,
{
    assert forall|i: int, j: int| 0 <= i <= j < records.len() implies
        (#[trigger] records[j]).amount_remaining <= (#[trigger] records[i]).amount_remaining
            && records[j].total_amount == records[i].total_amount by {
        lemma_remaining_between(records, i, j);
    }
}

proof fn lemma_remaining_between(records: Seq<SwapAccount>, i: int, j: int)
    requires
        is_history(records),
        0 <= i <= j < records.len(),
    ensures
        records[j].amount_remaining <= records[i].amount_remaining,
        records[j].total_amount == records[i].total_amount,
        records[j].whitelisted_buyers == records[i].whitelisted_buyers,
        !records[i].is_active ==> records[j] == records[i],
    decreases j - i,
{
    if i < j {
        lemma_remaining_between(records, i, j - 1);
        assert(transition(records[j - 1], records[j]));
        if exists|q: u64| #[trigger] fills(records[j - 1], records[j], q) {
            let q = choose|q: u64| #[trigger] fills(records[j - 1], records[j], q);
            assert(fills(records[j - 1], records[j], q));
        }
    }
}

/// Terminality: once a record is closed, every later operation leaves it
/// exactly as it is.
pub proof fn lemma_closed_is_terminal(records: Seq<SwapAccount>, i: int)
    requires
        is_history(records),
        0 <= i < records.len(),
        !records[i].is_active,
    ensures
        forall|j: int| i <= j < records.len() ==> #[trigger] records[j] == records[i],
{
    assert forall|j: int| i <= j < records.len() implies #[trigger] records[j] == records[i] by {
        lemma_remaining_between(records, i, j);
    }
}

/// Terminality: on a closed record both a fill and a cancellation fail with
/// `SwapNotActive`.
pub proof fn lemma_closed_refuses(fill: ExecuteSwap, amount_to_buy: u64, cancel: CancelSwap)
    requires
        !fill.swap.is_active,
        !cancel.swap.is_active,
    ensures
        fill_error(fill, amount_to_buy) == Some(SwapError::SwapNotActive),
        cancel_error(cancel) == Some(SwapError::SwapNotActive),
{
}

/// Whitelist immutability: along any run of operations the whitelist stays
/// the one set at creation, so a buyer outside it at creation can never
/// fill.
pub proof fn lemma_whitelist_fixed(records: Seq<SwapAccount>)
    requires
        is_history(records),
    ensures
        forall|k: int| 0 <= k < records.len() ==>
            (#[trigger] records[k]).whitelist_set() == records[0].whitelist_set(),
        forall|k: int, fill: ExecuteSwap, amount_to_buy: u64|
            0 <= k < records.len() && fill.swap == #[trigger] records[k] && !records[0].whitelists(fill.buyer@)
                ==> #[trigger] fill_error(fill, amount_to_buy) is Some,
{
    assert forall|k: int| 0 <= k < records.len() implies
        (#[trigger] records[k]).whitelist_set() == records[0].whitelist_set() by {
        lemma_remaining_between(records, 0, k);
        assert(records[k].whitelist_set() =~= records[0].whitelist_set());
    }
    assert forall|k: int, fill: ExecuteSwap, amount_to_buy: u64|
        0 <= k < records.len() && fill.swap == #[trigger] records[k] && !records[0].whitelists(fill.buyer@)
            implies #[trigger] fill_error(fill, amount_to_buy) is Some by {
        lemma_remaining_between(records, 0, k);
    }
}

/// Price linearity: selling everything costs exactly the total price,
/// selling nothing costs nothing, and the payment never decreases as the
/// quantity grows.
pub proof fn lemma_price_linearity(swap: SwapAccount, q1: nat, q2: nat)
    requires
        0 < swap.total_amount,
        q1 <= q2,
    ensures
        swap.payment_spec(swap.total_amount as nat) == swap.price_total,
        swap.payment_spec(0) == 0,
        swap.payment_spec(q1) <= swap.payment_spec(q2),
{
    let t = swap.total_amount as int;
    let p = swap.price_total as int;
    lemma_div_multiples_vanish(p, t);
    assert(t * p == p * t) by (nonlinear_arith);
    assert(0 * p == 0);
    lemma_mul_inequality(q1 as int, q2 as int, p);
    lemma_div_is_ordered(q1 * p, q2 * p, t);
}

} // verus!
