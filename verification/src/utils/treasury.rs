use vstd::prelude::*;
use crate::errors::ZenBeastsError;

verus! {

/// What becomes of a payment: one part is burned, the other goes to the treasury.
#[derive(Clone, Copy, Debug, PartialEq, Eq, Structural)]
pub struct Payment {
    pub burn_amount: u64,
    pub treasury_amount: u64,
}

/// The even split of a cost: half of it, rounded down, is burned and the rest goes
/// to the treasury.
pub open spec fn halved(cost: u64) -> Payment {
    Payment { burn_amount: cost / 2, treasury_amount: (cost - cost / 2) as u64 }
}

/// `percentage` percent of `amount`, rounded down.
pub open spec fn share(amount: u64, percentage: u8) -> int {
    amount * percentage / 100
}

/// How a cost is split: the burn percentage of it, rounded down, is burned and the
/// rest goes to the treasury. A percentage over 100 is invalid, and a cost so large
/// that its product with the percentage does not fit 64 bits is an overflow.
pub open spec fn burn_and_transfer(cost: u64, burn_percentage: u8) -> Result<
    (u64, u64),
    ZenBeastsError,
> {
    if burn_percentage > 100 {
        Err(ZenBeastsError::InvalidBurnPercentage)
    } else if cost * burn_percentage > u64::MAX {
        Err(ZenBeastsError::ArithmeticOverflow)
    } else {
        Ok((share(cost, burn_percentage) as u64, (cost - share(cost, burn_percentage)) as u64))
    }
}

/// A share of at most 100 percent is at most the whole.
pub proof fn lemma_share_bounded(amount: u64, percentage: u8)
    requires
        percentage <= 100,
    ensures
        0 <= share(amount, percentage) <= amount,
{
    assert(0 <= amount * percentage <= amount * 100) by (nonlinear_arith)
        requires
            0 <= percentage <= 100,
            0 <= amount,
    ;
}

/// Whenever a cost is split, the burned part and the treasury's part add up to it.
pub proof fn lemma_split_is_exact(cost: u64, burn_percentage: u8)
    ensures
        burn_and_transfer(cost, burn_percentage) matches Ok(parts) ==> parts.0 + parts.1 == cost,
        burn_percentage > 100 ==> burn_and_transfer(cost, burn_percentage) is Err,
{
    if burn_percentage <= 100 {
        lemma_share_bounded(cost, burn_percentage);
    }
}

/// Splits a cost into the amount to burn and the amount for the treasury.
pub fn calculate_burn_and_transfer(cost: u64, burn_percentage: u8) -> (r: Result<
    (u64, u64),
    ZenBeastsError,
>)
    ensures
        r == burn_and_transfer(cost, burn_percentage),
        r matches Ok(parts) ==> parts.0 + parts.1 == cost,
{
    if burn_percentage > 100 {
        return Err(ZenBeastsError::InvalidBurnPercentage);
    }
    proof {
        lemma_share_bounded(cost, burn_percentage);
    }
    let product = match cost.checked_mul(burn_percentage as u64) {
        Some(p) => p,
        None => {
            return Err(ZenBeastsError::ArithmeticOverflow);
        },
    };
    let burn_amount = product / 100;
    let treasury_amount = cost - burn_amount;
    Ok((burn_amount, treasury_amount))
}

/// Splits a cost evenly into the amount to burn and the amount for the treasury.
pub fn halve(cost: u64) -> (payment: Payment)
    ensures
        payment == halved(cost),
        payment.burn_amount + payment.treasury_amount == cost,
{
    let burn_amount = cost / 2;
    Payment { burn_amount, treasury_amount: cost - burn_amount }
}

/// Refuses with `InsufficientTreasuryBalance` a claim that the treasury cannot pay.
pub fn validate_treasury_balance(treasury_balance: u64, claim_amount: u64) -> (r: Result<
    (),
    ZenBeastsError,
>)
    ensures
        treasury_balance >= claim_amount ==> r == Ok::<(), ZenBeastsError>(()),
        treasury_balance < claim_amount ==> r == Err::<(), ZenBeastsError>(
            ZenBeastsError::InsufficientTreasuryBalance,
        ),
{
    if treasury_balance >= claim_amount {
        Ok(())
    } else {
        Err(ZenBeastsError::InsufficientTreasuryBalance)
    }
}

} // verus!
