use paystream::move_funds;

#[test]
fn move_funds_debits_the_payer_and_credits_the_payee() {
    assert_eq!(move_funds(1000, 5, 300), Some((700, 305)));
    assert_eq!(move_funds(1000, 0, 1000), Some((0, 1000)));
    assert_eq!(move_funds(7, 7, 0), Some((7, 7)));
    assert_eq!(move_funds(u64::MAX, 0, u64::MAX), Some((0, u64::MAX)));
}

#[test]
fn move_funds_refuses_more_than_the_payer_holds() {
    assert_eq!(move_funds(299, 5, 300), None);
    assert_eq!(move_funds(0, 0, 1), None);
}

#[test]
fn move_funds_refuses_a_balance_that_would_overflow() {
    assert_eq!(move_funds(10, u64::MAX, 1), None);
    assert_eq!(move_funds(10, u64::MAX - 9, 10), None);
    assert_eq!(move_funds(10, u64::MAX - 10, 10), Some((0, u64::MAX)));
}

#[test]
fn move_funds_keeps_the_sum_of_the_balances() {
    for (payer, payee, amount) in [(1000u64, 5u64, 300u64), (12, 0, 12), (9, 9, 1)] {
        let (rest, sum) = move_funds(payer, payee, amount).unwrap();
        assert_eq!(rest + sum, payer + payee);
    }
}
