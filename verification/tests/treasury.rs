use zenbeasts::errors::ZenBeastsError;
use zenbeasts::utils::treasury::{
    calculate_burn_and_transfer, halve, validate_treasury_balance, Payment,
};

#[test]
fn test_calculate_burn_and_transfer_10_percent() {
    let (burn, treasury) = calculate_burn_and_transfer(1000, 10).unwrap();
    assert_eq!(burn, 100);
    assert_eq!(treasury, 900);
}

#[test]
fn test_calculate_burn_and_transfer_0_percent() {
    let (burn, treasury) = calculate_burn_and_transfer(1000, 0).unwrap();
    assert_eq!(burn, 0);
    assert_eq!(treasury, 1000);
}

#[test]
fn test_calculate_burn_and_transfer_100_percent() {
    let (burn, treasury) = calculate_burn_and_transfer(1000, 100).unwrap();
    assert_eq!(burn, 1000);
    assert_eq!(treasury, 0);
}

#[test]
fn test_calculate_burn_and_transfer_50_percent() {
    let (burn, treasury) = calculate_burn_and_transfer(2000, 50).unwrap();
    assert_eq!(burn, 1000);
    assert_eq!(treasury, 1000);
}

#[test]
fn test_calculate_burn_and_transfer_25_percent() {
    let (burn, treasury) = calculate_burn_and_transfer(1000, 25).unwrap();
    assert_eq!(burn, 250);
    assert_eq!(treasury, 750);
}

#[test]
fn test_calculate_burn_and_transfer_invalid_percentage() {
    let result = calculate_burn_and_transfer(1000, 101);
    assert!(result.is_err());
}

#[test]
fn test_calculate_burn_and_transfer_with_rounding() {
    let (burn, treasury) = calculate_burn_and_transfer(1000, 33).unwrap();
    assert_eq!(burn, 330);
    assert_eq!(treasury, 670);
    assert_eq!(burn + treasury, 1000);
}

#[test]
fn test_validate_treasury_balance_sufficient() {
    let result = validate_treasury_balance(1000, 500);
    assert!(result.is_ok());
}

#[test]
fn test_validate_treasury_balance_exact() {
    let result = validate_treasury_balance(1000, 1000);
    assert!(result.is_ok());
}

#[test]
fn test_validate_treasury_balance_insufficient() {
    let result = validate_treasury_balance(500, 1000);
    assert!(result.is_err());
}

#[test]
fn test_validate_treasury_balance_zero_claim() {
    let result = validate_treasury_balance(1000, 0);
    assert!(result.is_ok());
}

#[test]
fn test_validate_treasury_balance_zero_treasury() {
    let result = validate_treasury_balance(0, 100);
    assert!(result.is_err());
}

#[test]
fn split_always_adds_up_to_the_cost() {
    for cost in [0u64, 1, 7, 99, 100, 101, 999, 1000, 123_456_789, u64::MAX / 100] {
        for percentage in 0u8..=100 {
            let (burn, treasury) = calculate_burn_and_transfer(cost, percentage).unwrap();
            assert_eq!(burn as u128 + treasury as u128, cost as u128);
            assert_eq!(burn as u128, cost as u128 * percentage as u128 / 100);
        }
    }
}

#[test]
fn split_rounds_the_burn_down() {
    assert_eq!(calculate_burn_and_transfer(99, 50), Ok((49, 50)));
    assert_eq!(calculate_burn_and_transfer(1, 99), Ok((0, 1)));
    assert_eq!(calculate_burn_and_transfer(199, 1), Ok((1, 198)));
}

#[test]
fn split_rejects_every_percentage_over_100() {
    for percentage in 101u8..=255 {
        assert_eq!(
            calculate_burn_and_transfer(1000, percentage),
            Err(ZenBeastsError::InvalidBurnPercentage)
        );
        assert_eq!(
            calculate_burn_and_transfer(u64::MAX, percentage),
            Err(ZenBeastsError::InvalidBurnPercentage)
        );
    }
}

#[test]
fn split_reports_overflow() {
    assert_eq!(calculate_burn_and_transfer(u64::MAX, 2), Err(ZenBeastsError::ArithmeticOverflow));
    assert_eq!(calculate_burn_and_transfer(u64::MAX, 1), Ok((u64::MAX / 100, u64::MAX - u64::MAX / 100)));
    assert_eq!(calculate_burn_and_transfer(u64::MAX, 0), Ok((0, u64::MAX)));
    assert_eq!(
        calculate_burn_and_transfer(u64::MAX / 100 + 1, 100),
        Err(ZenBeastsError::ArithmeticOverflow)
    );
}

#[test]
fn treasury_balance_error_is_named() {
    assert_eq!(validate_treasury_balance(1000, 1000), Ok(()));
    assert_eq!(
        validate_treasury_balance(999, 1000),
        Err(ZenBeastsError::InsufficientTreasuryBalance)
    );
}

#[test]
fn halving_gives_the_treasury_the_odd_unit() {
    assert_eq!(halve(0), Payment { burn_amount: 0, treasury_amount: 0 });
    assert_eq!(halve(1), Payment { burn_amount: 0, treasury_amount: 1 });
    assert_eq!(halve(101), Payment { burn_amount: 50, treasury_amount: 51 });
    assert_eq!(
        halve(u64::MAX),
        Payment { burn_amount: u64::MAX / 2, treasury_amount: u64::MAX / 2 + 1 }
    );
}
