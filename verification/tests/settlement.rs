use swap::error::SwapError;
use swap::instructions::taker_offer::calculate_payments;
use swap::state::offer::{Offer, OfferStatus};

fn offer(token_amount: u64, expected_total_amount: u64, fee_percentage: u64) -> Offer {
    let mut offer = Offer::blank();
    offer.token_amount = token_amount;
    offer.token_amount_remaining = token_amount;
    offer.expected_total_amount = expected_total_amount;
    offer.fee_percentage = fee_percentage;
    offer.status = OfferStatus::Ongoing;
    offer
}

#[test]
fn fee_and_payment_of_half_fill() {
    assert_eq!(calculate_payments(&offer(1000, 2000, 100), 500), Ok((10, 990)));
}

#[test]
fn fee_and_payment_add_up_to_expected_payment() {
    let o = offer(7, 100, 333);
    // floor(3 * 100 / 7) = 42, floor(42 * 333 / 10000) = 1
    assert_eq!(calculate_payments(&o, 3), Ok((1, 41)));
    for input in 0..=7u64 {
        let (fee, payment) = calculate_payments(&o, input).unwrap();
        assert_eq!(fee + payment, input * 100 / 7);
        assert_eq!(fee, (input * 100 / 7) * 333 / 10000);
    }
}

#[test]
fn payment_rounds_down() {
    // floor(1 * 5 / 3) = 1, no fee
    assert_eq!(calculate_payments(&offer(3, 5, 0), 1), Ok((0, 1)));
    // floor(2 * 5 / 3) = 3
    assert_eq!(calculate_payments(&offer(3, 5, 0), 2), Ok((0, 3)));
    // floor(1 * 1 / 3) = 0
    assert_eq!(calculate_payments(&offer(3, 1, 0), 1), Ok((0, 0)));
}

#[test]
fn fee_rounds_down() {
    // expected 99, fee floor(99 * 100 / 10000) = 0
    assert_eq!(calculate_payments(&offer(100, 99, 100), 100), Ok((0, 99)));
    // expected 100, fee 1
    assert_eq!(calculate_payments(&offer(100, 100, 100), 100), Ok((1, 99)));
}

#[test]
fn whole_fee_leaves_nothing_for_maker() {
    assert_eq!(calculate_payments(&offer(10, 50, 10000), 10), Ok((50, 0)));
}

#[test]
fn zero_input_costs_nothing() {
    assert_eq!(calculate_payments(&offer(10, 50, 250), 0), Ok((0, 0)));
}

#[test]
fn products_beyond_64_bits_are_exact() {
    let o = offer(u64::MAX, u64::MAX, 10000);
    assert_eq!(calculate_payments(&o, u64::MAX), Ok((u64::MAX, 0)));
    let o = offer(u64::MAX, u64::MAX, 5000);
    let expected = u64::MAX;
    let fee = ((expected as u128) * 5000 / 10000) as u64;
    assert_eq!(calculate_payments(&o, u64::MAX), Ok((fee, expected - fee)));
}

#[test]
fn zero_denominator_is_calculation_error() {
    assert_eq!(calculate_payments(&offer(0, 2000, 100), 1), Err(SwapError::CalculationError));
}

#[test]
fn payment_beyond_64_bits_is_calculation_error() {
    // 2 * u64::MAX / 1 does not fit
    assert_eq!(
        calculate_payments(&offer(1, u64::MAX, 0), 2),
        Err(SwapError::CalculationError)
    );
}

#[test]
fn fee_above_payment_is_calculation_error() {
    assert_eq!(
        calculate_payments(&offer(1000, 2000, 10001), 500 * 20),
        Err(SwapError::CalculationError)
    );
    // with a payment too small for the excess to show, the fee still fits
    assert_eq!(calculate_payments(&offer(1000, 2000, 10001), 1), Ok((2, 0)));
}

#[test]
fn split_fills_cost_at_most_one_unit_less() {
    let o = offer(7, 100, 0);
    for a in 0..=7u64 {
        for b in 0..=(7 - a) {
            let pa = calculate_payments(&o, a).unwrap().1;
            let pb = calculate_payments(&o, b).unwrap().1;
            let pab = calculate_payments(&o, a + b).unwrap().1;
            assert!(pa + pb <= pab);
            assert!(pab <= pa + pb + 1);
        }
    }
    // 3 and 4 of 7 at 100: 42 + 57 = 99, together 100
    assert_eq!(calculate_payments(&o, 3).unwrap().1, 42);
    assert_eq!(calculate_payments(&o, 4).unwrap().1, 57);
    assert_eq!(calculate_payments(&o, 7).unwrap().1, 100);
}
