use expenses_backend::engine::{
    calculate_balances, expenses_valid, payments_valid, BalanceError,
};
use expenses_backend::models::{Balance, Expense, Id, Member, Payment};

fn id(v: u128) -> Id {
    Id { value: v }
}

fn member(v: u128, name: &str) -> Member {
    Member { id: id(v), username: name.to_string() }
}

fn expense(payer: u128, cents: i64) -> Expense {
    Expense {
        id: id(1000 + payer),
        group_id: id(7),
        paid_by: id(payer),
        amount_cents: cents,
        description: "shared".to_string(),
        created_at: 0,
    }
}

fn payment(from: u128, to: u128, cents: i64) -> Payment {
    Payment {
        id: id(2000 + from),
        group_id: id(7),
        from_user_id: id(from),
        to_user_id: id(to),
        amount_cents: cents,
        created_at: 0,
    }
}

fn three_members() -> Vec<Member> {
    vec![member(1, "alice"), member(2, "bob"), member(3, "carol")]
}

#[test]
fn no_activity_all_zero() {
    let members = three_members();
    let balances = calculate_balances(&members, &vec![], &vec![]).unwrap();
    assert_eq!(balances.len(), 3);
    for (i, b) in balances.iter().enumerate() {
        assert_eq!(b.user_id, members[i].id);
        assert_eq!(b.username, members[i].username);
        assert_eq!(b.balance_cents, 0);
    }
}

#[test]
fn single_payer_equal_split() {
    let members = three_members();
    let expenses = vec![expense(1, 9000)];
    let balances = calculate_balances(&members, &expenses, &vec![]).unwrap();
    assert_eq!(
        balances,
        vec![
            Balance { user_id: id(1), username: "alice".to_string(), balance_cents: 6000 },
            Balance { user_id: id(2), username: "bob".to_string(), balance_cents: -3000 },
            Balance { user_id: id(3), username: "carol".to_string(), balance_cents: -3000 },
        ]
    );
}

#[test]
fn payment_settles_exactly() {
    let members = three_members();
    let expenses = vec![expense(1, 9000)];
    let payments = vec![payment(2, 1, 3000)];
    let balances = calculate_balances(&members, &expenses, &payments).unwrap();
    assert_eq!(balances[0].balance_cents, 3000);
    assert_eq!(balances[1].balance_cents, 0);
    assert_eq!(balances[2].balance_cents, -3000);
}

#[test]
fn rounding_remainder_goes_to_first_members() {
    let members = three_members();
    let expenses = vec![expense(1, 10000)];
    let balances = calculate_balances(&members, &expenses, &vec![]).unwrap();
    // shares are 33.34, 33.33, 33.33: they sum to 100.00 exactly
    assert_eq!(balances[0].balance_cents, 10000 - 3334);
    assert_eq!(balances[1].balance_cents, -3333);
    assert_eq!(balances[2].balance_cents, -3333);
    let sum: i64 = balances.iter().map(|b| b.balance_cents).sum();
    assert_eq!(sum, 0);
}

#[test]
fn zero_sum_on_mixed_ledger() {
    let members = three_members();
    let expenses = vec![
        expense(1, 9999),
        expense(2, 12345),
        expense(2, 1),
        expense(3, 777),
    ];
    let payments = vec![payment(2, 1, 500), payment(3, 2, 250), payment(1, 3, 125)];
    let balances = calculate_balances(&members, &expenses, &payments).unwrap();
    let sum: i64 = balances.iter().map(|b| b.balance_cents).sum();
    assert_eq!(sum, 0);
}

#[test]
fn empty_group_is_an_error() {
    let result = calculate_balances(&vec![], &vec![], &vec![]);
    assert_eq!(result, Err(BalanceError::EmptyGroup));
}

#[test]
fn unknown_payer_is_a_referential_error() {
    let members = three_members();
    let expenses = vec![expense(9, 1000)];
    let result = calculate_balances(&members, &expenses, &vec![]);
    assert_eq!(result, Err(BalanceError::ReferentialIntegrity));
}

#[test]
fn unknown_payment_party_is_a_referential_error() {
    let members = three_members();
    let payments = vec![payment(1, 9, 1000)];
    let result = calculate_balances(&members, &vec![], &payments);
    assert_eq!(result, Err(BalanceError::ReferentialIntegrity));
}

#[test]
fn identical_snapshots_yield_identical_balances() {
    let members = three_members();
    let expenses = vec![expense(1, 10000), expense(3, 505)];
    let payments = vec![payment(2, 1, 1234)];
    let first = calculate_balances(&members, &expenses, &payments).unwrap();
    let second = calculate_balances(&members, &expenses, &payments).unwrap();
    assert_eq!(first, second);
}

#[test]
fn ledger_validity_checks() {
    assert!(expenses_valid(&vec![expense(1, 1), expense(2, 99_999_999)]));
    assert!(!expenses_valid(&vec![expense(1, 0)]));
    assert!(!expenses_valid(&vec![expense(1, 100_000_000)]));
    assert!(payments_valid(&vec![payment(1, 2, 500)]));
    assert!(!payments_valid(&vec![payment(1, 2, 0)]));
    assert!(!payments_valid(&vec![payment(1, 1, 500)]));
}

#[test]
fn single_member_bears_everything() {
    let members = vec![member(1, "solo")];
    let expenses = vec![expense(1, 4242)];
    let balances = calculate_balances(&members, &expenses, &vec![]).unwrap();
    assert_eq!(balances[0].balance_cents, 0);
}
