//! The balance engine: a pure function from a group's member list and
//! its expense and payment ledgers to each member's net balance.
//!
//! The per-person share of the expense total is an equal split across
//! the current members, in cents, rounded down; the remainder of the
//! division is distributed one cent at a time to the members first in
//! the input order, so the shares always sum to the expense total
//! exactly and the balances sum to zero exactly.

use vstd::prelude::*;

use crate::membership::{distinct_ids, has_member, is_member};
use crate::models::{valid_amount, Balance, Expense, Id, Member, Payment, MAX_AMOUNT_CENTS};

verus! {

/// Most ledger entries of one kind the engine accepts in one call;
/// keeps every intermediate sum far inside `i64`.
pub const MAX_LEDGER_LEN: usize = 100_000_000;

/// An expense the data model admits: a positive amount within the cap.
pub open spec fn valid_expense(e: Expense) -> bool {
    valid_amount(e.amount_cents)
}

/// A payment the data model admits: a positive amount within the cap,
/// never from a member to that same member.
pub open spec fn valid_payment(p: Payment) -> bool {
    valid_amount(p.amount_cents) && p.from_user_id != p.to_user_id
}

pub open spec fn valid_expenses(expenses: Seq<Expense>) -> bool {
    forall|i: int| 0 <= i < expenses.len() ==> valid_expense(#[trigger] expenses[i])
}

pub open spec fn valid_payments(payments: Seq<Payment>) -> bool {
    forall|i: int| 0 <= i < payments.len() ==> valid_payment(#[trigger] payments[i])
}

/// Referential integrity of a group's ledgers: every expense payer and
/// every payment party is a current member.
pub open spec fn refs_ok(members: Seq<Member>, expenses: Seq<Expense>, payments: Seq<Payment>) -> bool {
    &&& forall|i: int| 0 <= i < expenses.len() ==> has_member(members, (#[trigger] expenses[i]).paid_by)
    &&& forall|i: int| 0 <= i < payments.len() ==> has_member(members, (#[trigger] payments[i]).from_user_id)
    &&& forall|i: int| 0 <= i < payments.len() ==> has_member(members, (#[trigger] payments[i]).to_user_id)
}

/// Sum of all expense amounts, in cents.
pub open spec fn total_expenses(expenses: Seq<Expense>) -> int
    decreases expenses.len(),
{
    if expenses.len() == 0 {
        0
    } else {
        total_expenses(expenses.drop_last()) + expenses.last().amount_cents
    }
}

/// Sum of all payment amounts, in cents.
pub open spec fn total_payments(payments: Seq<Payment>) -> int
    decreases payments.len(),
{
    if payments.len() == 0 {
        0
    } else {
        total_payments(payments.drop_last()) + payments.last().amount_cents
    }
}

/// Sum of the amounts of the expenses paid by member `id`.
pub open spec fn paid_by_member(expenses: Seq<Expense>, id: Id) -> int
    decreases expenses.len(),
{
    if expenses.len() == 0 {
        0
    } else {
        paid_by_member(expenses.drop_last(), id) + if expenses.last().paid_by == id {
            expenses.last().amount_cents as int
        } else {
            0
        }
    }
}

/// Sum of the amounts of the payments sent by member `id`.
pub open spec fn sent_by_member(payments: Seq<Payment>, id: Id) -> int
    decreases payments.len(),
{
    if payments.len() == 0 {
        0
    } else {
        sent_by_member(payments.drop_last(), id) + if payments.last().from_user_id == id {
            payments.last().amount_cents as int
        } else {
            0
        }
    }
}

/// Sum of the amounts of the payments received by member `id`.
pub open spec fn received_by_member(payments: Seq<Payment>, id: Id) -> int
    decreases payments.len(),
{
    if payments.len() == 0 {
        0
    } else {
        received_by_member(payments.drop_last(), id) + if payments.last().to_user_id == id {
            payments.last().amount_cents as int
        } else {
            0
        }
    }
}

/// The equal-split share of the member at position `i` out of `n`:
/// the rounded-down per-person share, plus one cent while the division
/// remainder lasts, handed out in member order.
pub open spec fn share_of(total: int, n: int, i: int) -> int
    recommends
        n > 0,
{
    total / n + if i < total % n {
        1int
    } else {
        0int
    }
}

/// The net balance of the member at position `i`: what the member laid
/// out or sent, less what the member received, less the member's share
/// of the group's expenses.
pub open spec fn balance_of(members: Seq<Member>, expenses: Seq<Expense>, payments: Seq<Payment>, i: int) -> int
    recommends
        0 <= i < members.len(),
{
    paid_by_member(expenses, members[i].id) + sent_by_member(payments, members[i].id)
        - received_by_member(payments, members[i].id)
        - share_of(total_expenses(expenses), members.len() as int, i)
}

/// Sum of the balances of the first `k` members.
pub open spec fn sum_of_balances(members: Seq<Member>, expenses: Seq<Expense>, payments: Seq<Payment>, k: int) -> int
    decreases k,
{
    if k <= 0 {
        0
    } else {
        sum_of_balances(members, expenses, payments, k - 1) + balance_of(members, expenses, payments, k - 1)
    }
}

/// Why the engine refused to compute balances.
#[derive(Clone, Copy, Debug, PartialEq, Eq, Structural)]
pub enum BalanceError {
    /// The member set is empty, so a per-person share is undefined.
    EmptyGroup,
    /// A ledger entry references someone outside the member set; the
    /// data is corrupt and no balance may be fabricated from it.
    ReferentialIntegrity,
}

/// Runtime check of the expense-validity precondition, for callers
/// whose ledger arrives from outside the core.
pub fn expenses_valid(expenses: &Vec<Expense>) -> (r: bool)
    ensures
        r == valid_expenses(expenses@),
{
    let mut i: usize = 0;
    while i < expenses.len()
        invariant
            i <= expenses@.len(),
            forall|j: int| 0 <= j < i ==> valid_expense(#[trigger] expenses@[j]),
        decreases expenses@.len() - i,
    {
        if expenses[i].amount_cents <= 0 || expenses[i].amount_cents > MAX_AMOUNT_CENTS {
            return false;
        }
        i += 1;
    }
    true
}

/// Runtime check of the payment-validity precondition, for callers
/// whose ledger arrives from outside the core.
pub fn payments_valid(payments: &Vec<Payment>) -> (r: bool)
    ensures
        r == valid_payments(payments@),
{
    let mut i: usize = 0;
    while i < payments.len()
        invariant
            i <= payments@.len(),
            forall|j: int| 0 <= j < i ==> valid_payment(#[trigger] payments@[j]),
        decreases payments@.len() - i,
    {
        if payments[i].amount_cents <= 0 || payments[i].amount_cents > MAX_AMOUNT_CENTS
            || payments[i].from_user_id == payments[i].to_user_id {
            return false;
        }
        i += 1;
    }
    true
}

/// Checks referential integrity of the ledgers against the member set.
fn references_ok(members: &Vec<Member>, expenses: &Vec<Expense>, payments: &Vec<Payment>) -> (r: bool)
    ensures
        r == refs_ok(members@, expenses@, payments@),
{
    let mut i: usize = 0;
    while i < expenses.len()
        invariant
            i <= expenses@.len(),
            forall|j: int| 0 <= j < i ==> has_member(members@, (#[trigger] expenses@[j]).paid_by),
        decreases expenses@.len() - i,
    {
        if !is_member(members, expenses[i].paid_by) {
            return false;
        }
        i += 1;
    }
    let mut i: usize = 0;
    while i < payments.len()
        invariant
            i <= payments@.len(),
            forall|j: int| 0 <= j < expenses@.len() ==> has_member(members@, (#[trigger] expenses@[j]).paid_by),
            forall|j: int| 0 <= j < i ==> has_member(members@, (#[trigger] payments@[j]).from_user_id),
            forall|j: int| 0 <= j < i ==> has_member(members@, (#[trigger] payments@[j]).to_user_id),
        decreases payments@.len() - i,
    {
        if !is_member(members, payments[i].from_user_id) {
            return false;
        }
        if !is_member(members, payments[i].to_user_id) {
            return false;
        }
        i += 1;
    }
    true
}

/// Sums all expense amounts; the cap on entry count and amount keeps
/// the running total far inside `i64`.
fn sum_expenses(expenses: &Vec<Expense>) -> (total: i64)
    requires
        valid_expenses(expenses@),
        expenses@.len() <= MAX_LEDGER_LEN,
    ensures
        total == total_expenses(expenses@),
        0 <= total <= expenses@.len() * MAX_AMOUNT_CENTS,
{
    let mut total: i64 = 0;
    let mut i: usize = 0;
    while i < expenses.len()
        invariant
            i <= expenses@.len(),
            expenses@.len() <= MAX_LEDGER_LEN,
            valid_expenses(expenses@),
            total == total_expenses(expenses@.take(i as int)),
            0 <= total <= i * MAX_AMOUNT_CENTS,
        decreases expenses@.len() - i,
    {
        proof {
            assert(expenses@.take(i + 1).drop_last() =~= expenses@.take(i as int));
            assert(expenses@.take(i + 1).last() == expenses@[i as int]);
        }
        total = total + expenses[i].amount_cents;
        i += 1;
    }
    proof {
        assert(expenses@.take(expenses@.len() as int) =~= expenses@);
    }
    total
}

/// Sums the amounts of the expenses paid by `id`.
fn sum_paid(expenses: &Vec<Expense>, id: Id) -> (r: i64)
    requires
        valid_expenses(expenses@),
        expenses@.len() <= MAX_LEDGER_LEN,
    ensures
        r == paid_by_member(expenses@, id),
        0 <= r <= expenses@.len() * MAX_AMOUNT_CENTS,
{
    let mut r: i64 = 0;
    let mut i: usize = 0;
    while i < expenses.len()
        invariant
            i <= expenses@.len(),
            expenses@.len() <= MAX_LEDGER_LEN,
            valid_expenses(expenses@),
            r == paid_by_member(expenses@.take(i as int), id),
            0 <= r <= i * MAX_AMOUNT_CENTS,
        decreases expenses@.len() - i,
    {
        proof {
            assert(expenses@.take(i + 1).drop_last() =~= expenses@.take(i as int));
            assert(expenses@.take(i + 1).last() == expenses@[i as int]);
        }
        if expenses[i].paid_by == id {
            r = r + expenses[i].amount_cents;
        }
        i += 1;
    }
    proof {
        assert(expenses@.take(expenses@.len() as int) =~= expenses@);
    }
    r
}

/// Sums the amounts of the payments sent by `id`.
fn sum_sent(payments: &Vec<Payment>, id: Id) -> (r: i64)
    requires
        valid_payments(payments@),
        payments@.len() <= MAX_LEDGER_LEN,
    ensures
        r == sent_by_member(payments@, id),
        0 <= r <= payments@.len() * MAX_AMOUNT_CENTS,
{
    let mut r: i64 = 0;
    let mut i: usize = 0;
    while i < payments.len()
        invariant
            i <= payments@.len(),
            payments@.len() <= MAX_LEDGER_LEN,
            valid_payments(payments@),
            r == sent_by_member(payments@.take(i as int), id),
            0 <= r <= i * MAX_AMOUNT_CENTS,
        decreases payments@.len() - i,
    {
        proof {
            assert(payments@.take(i + 1).drop_last() =~= payments@.take(i as int));
            assert(payments@.take(i + 1).last() == payments@[i as int]);
        }
        if payments[i].from_user_id == id {
            r = r + payments[i].amount_cents;
        }
        i += 1;
    }
    proof {
        assert(payments@.take(payments@.len() as int) =~= payments@);
    }
    r
}

/// Sums the amounts of the payments received by `id`.
fn sum_received(payments: &Vec<Payment>, id: Id) -> (r: i64)
    requires
        valid_payments(payments@),
        payments@.len() <= MAX_LEDGER_LEN,
    ensures
        r == received_by_member(payments@, id),
        0 <= r <= payments@.len() * MAX_AMOUNT_CENTS,
{
    let mut r: i64 = 0;
    let mut i: usize = 0;
    while i < payments.len()
        invariant
            i <= payments@.len(),
            payments@.len() <= MAX_LEDGER_LEN,
            valid_payments(payments@),
            r == received_by_member(payments@.take(i as int), id),
            0 <= r <= i * MAX_AMOUNT_CENTS,
        decreases payments@.len() - i,
    {
        proof {
            assert(payments@.take(i + 1).drop_last() =~= payments@.take(i as int));
            assert(payments@.take(i + 1).last() == payments@[i as int]);
        }
        if payments[i].to_user_id == id {
            r = r + payments[i].amount_cents;
        }
        i += 1;
    }
    proof {
        assert(payments@.take(payments@.len() as int) =~= payments@);
    }
    r
}

/// Reconciles a group's ledgers into one net balance per member, in
/// input member order.
///
/// An empty member set is refused, because a per-person share is
/// undefined for it, and a ledger entry referencing a non-member is
/// refused rather than dropped: either would silently break the
/// zero-sum invariant.  The result is a function of the snapshots
/// alone, so identical snapshots always yield identical balances.
pub fn calculate_balances(
    members: &Vec<Member>,
    expenses: &Vec<Expense>,
    payments: &Vec<Payment>,
) -> (result: Result<Vec<Balance>, BalanceError>)
    requires
        distinct_ids(members@),
        valid_expenses(expenses@),
        valid_payments(payments@),
        expenses@.len() <= MAX_LEDGER_LEN,
        payments@.len() <= MAX_LEDGER_LEN,
    ensures
        match result {
            Ok(balances) => {
                &&& members@.len() > 0
                &&& refs_ok(members@, expenses@, payments@)
                &&& balances@.len() == members@.len()
                &&& forall|i: int|
                    0 <= i < members@.len() ==> {
                        &&& (#[trigger] balances@[i]).user_id == members@[i].id
                        &&& balances@[i].username@ == members@[i].username@
                        &&& balances@[i].balance_cents == balance_of(members@, expenses@, payments@, i)
                    }
            },
            Err(BalanceError::EmptyGroup) => members@.len() == 0,
            Err(BalanceError::ReferentialIntegrity) => members@.len() > 0 && !refs_ok(
                members@,
                expenses@,
                payments@,
            ),
        },
{
    let n = members.len();
    if n == 0 {
        return Err(BalanceError::EmptyGroup);
    }
    if !references_ok(members, expenses, payments) {
        return Err(BalanceError::ReferentialIntegrity);
    }

    let total = sum_expenses(expenses);
    let total_u = total as u64;
    let n_u = n as u64;
    let base_u = total_u / n_u;
    let rem_u = total_u % n_u;
    assert(base_u == total_expenses(expenses@) / (members@.len() as int));
    assert(rem_u == total_expenses(expenses@) % (members@.len() as int));
    assert(base_u <= total_u) by {
        vstd::arithmetic::div_mod::lemma_div_nonincreasing(total_u as int, n_u as int);
    }
    let base = base_u as i64;

    let mut balances: Vec<Balance> = Vec::new();
    let mut i: usize = 0;
    while i < n
        invariant
            n == members@.len(),
            0 < n,
            i <= n,
            distinct_ids(members@),
            valid_expenses(expenses@),
            valid_payments(payments@),
            expenses@.len() <= MAX_LEDGER_LEN,
            payments@.len() <= MAX_LEDGER_LEN,
            0 <= base <= expenses@.len() * MAX_AMOUNT_CENTS,
            base == total_expenses(expenses@) / (members@.len() as int),
            rem_u == total_expenses(expenses@) % (members@.len() as int),
            balances@.len() == i,
            forall|j: int|
                0 <= j < i ==> {
                    &&& (#[trigger] balances@[j]).user_id == members@[j].id
                    &&& balances@[j].username@ == members@[j].username@
                    &&& balances@[j].balance_cents == balance_of(members@, expenses@, payments@, j)
                },
        decreases n - i,
    {
        let paid = sum_paid(expenses, members[i].id);
        let sent = sum_sent(payments, members[i].id);
        let received = sum_received(payments, members[i].id);
        let share = if (i as u64) < rem_u {
            base + 1
        } else {
            base
        };
        assert(share == share_of(total_expenses(expenses@), members@.len() as int, i as int));
        let balance_cents = paid + sent - received - share;
        balances.push(
            Balance {
                user_id: members[i].id,
                username: members[i].username.clone(),
                balance_cents,
            },
        );
        i += 1;
    }
    Ok(balances)
}

// ---------------------------------------------------------------------------
// The laws of the engine.
//
// The central one is the zero-sum invariant: over any member set with
// distinct identities and any ledgers that reference only those
// members, the computed balances sum to zero exactly.  The proof walks
// the ledgers entry by entry: each entry's amount lands in exactly one
// member's paid (or sent, or received) sum, so those sums across the
// members reproduce the ledger totals, and the rounded shares across
// the members reproduce the expense total.

/// How many of the first `k` members carry the identity `x`.
spec fn count_id(members: Seq<Member>, x: Id, k: int) -> int
    decreases k,
{
    if k <= 0 {
        0
    } else {
        count_id(members, x, k - 1) + if members[k - 1].id == x {
            1int
        } else {
            0int
        }
    }
}

/// Sum over the first `k` members of what each paid.
spec fn sum_paid_over(members: Seq<Member>, expenses: Seq<Expense>, k: int) -> int
    decreases k,
{
    if k <= 0 {
        0
    } else {
        sum_paid_over(members, expenses, k - 1) + paid_by_member(expenses, members[k - 1].id)
    }
}

/// Sum over the first `k` members of what each sent.
spec fn sum_sent_over(members: Seq<Member>, payments: Seq<Payment>, k: int) -> int
    decreases k,
{
    if k <= 0 {
        0
    } else {
        sum_sent_over(members, payments, k - 1) + sent_by_member(payments, members[k - 1].id)
    }
}

/// Sum over the first `k` members of what each received.
spec fn sum_received_over(members: Seq<Member>, payments: Seq<Payment>, k: int) -> int
    decreases k,
{
    if k <= 0 {
        0
    } else {
        sum_received_over(members, payments, k - 1) + received_by_member(payments, members[k - 1].id)
    }
}

/// Sum of the shares of the first `k` of `n` members.
pub open spec fn sum_shares(total: int, n: int, k: int) -> int
    decreases k,
{
    if k <= 0 {
        0
    } else {
        sum_shares(total, n, k - 1) + share_of(total, n, k - 1)
    }
}

proof fn lemma_count_none(members: Seq<Member>, x: Id, k: int)
    requires
        0 <= k <= members.len(),
        forall|i: int| 0 <= i < k ==> members[i].id != x,
    ensures
        count_id(members, x, k) == 0,
    decreases k,
{
    if k > 0 {
        lemma_count_none(members, x, k - 1);
    }
}

proof fn lemma_count_single(members: Seq<Member>, x: Id, k: int)
    requires
        distinct_ids(members),
        0 <= k <= members.len(),
        exists|i: int| 0 <= i < k && members[i].id == x,
    ensures
        count_id(members, x, k) == 1,
    decreases k,
{
    let w = choose|i: int| 0 <= i < k && members[i].id == x;
    if members[k - 1].id == x {
        assert forall|i: int| 0 <= i < k - 1 implies members[i].id != x by {
            assert(members[i].id != members[k - 1].id);
        }
        lemma_count_none(members, x, k - 1);
    } else {
        assert(0 <= w < k - 1 && members[w].id == x);
        lemma_count_single(members, x, k - 1);
    }
}

proof fn lemma_sum_paid_over_empty(members: Seq<Member>, expenses: Seq<Expense>, k: int)
    requires
        expenses.len() == 0,
    ensures
        sum_paid_over(members, expenses, k) == 0,
    decreases k,
{
    if k > 0 {
        lemma_sum_paid_over_empty(members, expenses, k - 1);
    }
}

proof fn lemma_sum_paid_over_snoc(members: Seq<Member>, expenses: Seq<Expense>, k: int)
    requires
        expenses.len() > 0,
        0 <= k,
    ensures
        sum_paid_over(members, expenses, k) == sum_paid_over(members, expenses.drop_last(), k)
            + expenses.last().amount_cents * count_id(members, expenses.last().paid_by, k),
    decreases k,
{
    if k > 0 {
        lemma_sum_paid_over_snoc(members, expenses, k - 1);
        vstd::arithmetic::mul::lemma_mul_is_distributive_add(
            expenses.last().amount_cents as int,
            count_id(members, expenses.last().paid_by, k - 1),
            if members[k - 1].id == expenses.last().paid_by {
                1int
            } else {
                0int
            },
        );
    }
}

proof fn lemma_sum_paid_over_total(members: Seq<Member>, expenses: Seq<Expense>)
    requires
        distinct_ids(members),
        forall|i: int| 0 <= i < expenses.len() ==> has_member(members, (#[trigger] expenses[i]).paid_by),
    ensures
        sum_paid_over(members, expenses, members.len() as int) == total_expenses(expenses),
    decreases expenses.len(),
{
    if expenses.len() == 0 {
        lemma_sum_paid_over_empty(members, expenses, members.len() as int);
    } else {
        let shorter = expenses.drop_last();
        assert(forall|i: int|
            0 <= i < shorter.len() ==> has_member(members, (#[trigger] shorter[i]).paid_by)) by {
            assert(forall|i: int| 0 <= i < shorter.len() ==> shorter[i] == expenses[i]);
        }
        lemma_sum_paid_over_total(members, shorter);
        lemma_sum_paid_over_snoc(members, expenses, members.len() as int);
        assert(has_member(members, expenses.last().paid_by)) by {
            assert(expenses[expenses.len() - 1] == expenses.last());
        }
        lemma_count_single(members, expenses.last().paid_by, members.len() as int);
    }
}

proof fn lemma_sum_sent_over_empty(members: Seq<Member>, payments: Seq<Payment>, k: int)
    requires
        payments.len() == 0,
    ensures
        sum_sent_over(members, payments, k) == 0,
        sum_received_over(members, payments, k) == 0,
    decreases k,
{
    if k > 0 {
        lemma_sum_sent_over_empty(members, payments, k - 1);
    }
}

proof fn lemma_sum_sent_over_snoc(members: Seq<Member>, payments: Seq<Payment>, k: int)
    requires
        payments.len() > 0,
        0 <= k,
    ensures
        sum_sent_over(members, payments, k) == sum_sent_over(members, payments.drop_last(), k)
            + payments.last().amount_cents * count_id(members, payments.last().from_user_id, k),
        sum_received_over(members, payments, k) == sum_received_over(members, payments.drop_last(), k)
            + payments.last().amount_cents * count_id(members, payments.last().to_user_id, k),
    decreases k,
{
    if k > 0 {
        lemma_sum_sent_over_snoc(members, payments, k - 1);
        vstd::arithmetic::mul::lemma_mul_is_distributive_add(
            payments.last().amount_cents as int,
            count_id(members, payments.last().from_user_id, k - 1),
            if members[k - 1].id == payments.last().from_user_id {
                1int
            } else {
                0int
            },
        );
        vstd::arithmetic::mul::lemma_mul_is_distributive_add(
            payments.last().amount_cents as int,
            count_id(members, payments.last().to_user_id, k - 1),
            if members[k - 1].id == payments.last().to_user_id {
                1int
            } else {
                0int
            },
        );
    }
}

proof fn lemma_sum_sent_over_total(members: Seq<Member>, payments: Seq<Payment>)
    requires
        distinct_ids(members),
        forall|i: int|
            0 <= i < payments.len() ==> has_member(members, (#[trigger] payments[i]).from_user_id),
        forall|i: int|
            0 <= i < payments.len() ==> has_member(members, (#[trigger] payments[i]).to_user_id),
    ensures
        sum_sent_over(members, payments, members.len() as int) == total_payments(payments),
        sum_received_over(members, payments, members.len() as int) == total_payments(payments),
    decreases payments.len(),
{
    if payments.len() == 0 {
        lemma_sum_sent_over_empty(members, payments, members.len() as int);
    } else {
        let shorter = payments.drop_last();
        assert(forall|i: int|
            0 <= i < shorter.len() ==> has_member(members, (#[trigger] shorter[i]).from_user_id)
                && has_member(members, shorter[i].to_user_id)) by {
            assert(forall|i: int| 0 <= i < shorter.len() ==> shorter[i] == payments[i]);
        }
        lemma_sum_sent_over_total(members, shorter);
        lemma_sum_sent_over_snoc(members, payments, members.len() as int);
        assert(has_member(members, payments.last().from_user_id) && has_member(
            members,
            payments.last().to_user_id,
        )) by {
            assert(payments[payments.len() - 1] == payments.last());
        }
        lemma_count_single(members, payments.last().from_user_id, members.len() as int);
        lemma_count_single(members, payments.last().to_user_id, members.len() as int);
    }
}

proof fn lemma_sum_shares_partial(total: int, n: int, k: int)
    requires
        0 < n,
        0 <= k <= n,
    ensures
        sum_shares(total, n, k) == k * (total / n) + if k <= total % n {
            k
        } else {
            total % n
        },
    decreases k,
{
    vstd::arithmetic::div_mod::lemma_mod_division_less_than_divisor(total, n);
    if k == 0 {
        assert(k * (total / n) == 0) by (nonlinear_arith)
            requires
                k == 0,
        ;
    } else {
        lemma_sum_shares_partial(total, n, k - 1);
        let q = total / n;
        assert((k - 1 + 1) * q == (k - 1) * q + 1 * q) by {
            vstd::arithmetic::mul::lemma_mul_is_distributive_add_other_way(q, k - 1, 1);
        }
        assert(k * q == (k - 1) * q + q);
    }
}

/// Share reconciliation: however the equal split rounds, the shares of
/// all `n` members sum to the expense total exactly.
pub proof fn lemma_shares_reconcile(total: int, n: int)
    requires
        0 < n,
    ensures
        sum_shares(total, n, n) == total,
{
    lemma_sum_shares_partial(total, n, n);
    vstd::arithmetic::div_mod::lemma_fundamental_div_mod(total, n);
    vstd::arithmetic::div_mod::lemma_mod_division_less_than_divisor(total, n);
}

proof fn lemma_sum_balances_split(
    members: Seq<Member>,
    expenses: Seq<Expense>,
    payments: Seq<Payment>,
    k: int,
)
    requires
        0 <= k <= members.len(),
    ensures
        sum_of_balances(members, expenses, payments, k) == sum_paid_over(members, expenses, k)
            + sum_sent_over(members, payments, k) - sum_received_over(members, payments, k)
            - sum_shares(total_expenses(expenses), members.len() as int, k),
    decreases k,
{
    if k > 0 {
        lemma_sum_balances_split(members, expenses, payments, k - 1);
    }
}

/// The zero-sum invariant: for any member set with distinct identities
/// and any finite ledgers referencing only those members, the members'
/// balances sum to zero exactly, rounding notwithstanding.
pub proof fn lemma_zero_sum(members: Seq<Member>, expenses: Seq<Expense>, payments: Seq<Payment>)
    requires
        members.len() > 0,
        distinct_ids(members),
        refs_ok(members, expenses, payments),
    ensures
        sum_of_balances(members, expenses, payments, members.len() as int) == 0,
{
    let n = members.len() as int;
    lemma_sum_balances_split(members, expenses, payments, n);
    lemma_sum_paid_over_total(members, expenses);
    lemma_sum_sent_over_total(members, payments);
    lemma_shares_reconcile(total_expenses(expenses), n);
}

/// With no expenses and no payments, every member's balance is zero.
pub proof fn lemma_no_activity(members: Seq<Member>, i: int)
    requires
        members.len() > 0,
        0 <= i < members.len(),
    ensures
        balance_of(members, Seq::<Expense>::empty(), Seq::<Payment>::empty(), i) == 0,
{
    let n = members.len() as int;
    vstd::arithmetic::div_mod::lemma_div_of0(n);
    vstd::arithmetic::div_mod::lemma_small_mod(0nat, n as nat);
}

/// Reads are idempotent: the engine's contract pins every field of
/// the result to the snapshots alone, so any two balance lists that
/// satisfy it for the same snapshots agree member by member.
pub proof fn lemma_reads_idempotent(
    members: Seq<Member>,
    expenses: Seq<Expense>,
    payments: Seq<Payment>,
    first: Seq<Balance>,
    second: Seq<Balance>,
)
    requires
        first.len() == members.len(),
        second.len() == members.len(),
        forall|i: int|
            0 <= i < members.len() ==> (#[trigger] first[i]).user_id == members[i].id
                && first[i].username@ == members[i].username@ && first[i].balance_cents
                == balance_of(members, expenses, payments, i),
        forall|i: int|
            0 <= i < members.len() ==> (#[trigger] second[i]).user_id == members[i].id
                && second[i].username@ == members[i].username@ && second[i].balance_cents
                == balance_of(members, expenses, payments, i),
    ensures
        forall|i: int|
            0 <= i < members.len() ==> (#[trigger] first[i]).user_id == second[i].user_id
                && first[i].username@ == second[i].username@ && first[i].balance_cents
                == second[i].balance_cents,
{
}

/// A payment settles exactly: recording one moves exactly its amount
/// from the recipient's balance to the sender's and leaves every other
/// member's balance unchanged.
pub proof fn lemma_payment_settles(
    members: Seq<Member>,
    expenses: Seq<Expense>,
    payments: Seq<Payment>,
    payment: Payment,
    i: int,
)
    requires
        0 <= i < members.len(),
    ensures
        balance_of(members, expenses, payments.push(payment), i) == balance_of(
            members,
            expenses,
            payments,
            i,
        ) + (if members[i].id == payment.from_user_id {
            payment.amount_cents as int
        } else {
            0int
        }) - (if members[i].id == payment.to_user_id {
            payment.amount_cents as int
        } else {
            0int
        }),
{
    assert(payments.push(payment).drop_last() =~= payments);
    assert(payments.push(payment).last() == payment);
}

} // verus!
