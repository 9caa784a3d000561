//! Proportional redemption of liquidity-pool shares against both reserves.
use vstd::prelude::*;

use crate::error::AmmError;
use crate::guard::{div_floor, mul_wide, narrow};

verus! {

/// The outcome of a successful withdrawal quote.
#[derive(Clone, Copy, Debug, PartialEq, Eq, Structural)]
pub struct WithdrawalQuote {
    /// Amount of asset X released to the redeemer.
    pub token_x: u64,
    /// Amount of asset Y released to the redeemer.
    pub token_y: u64,
}

/// The part of `reserve` that `lp_burn` of `lp_supply` shares claims, rounded down.
pub open spec fn share_of(reserve: u64, lp_burn: u64, lp_supply: u64) -> int {
    (lp_burn * reserve) / (lp_supply as int)
}

/// The full outcome of a withdrawal quote, errors included, in the order they are checked.
pub open spec fn withdrawal_result(
    reserve_x: u64,
    reserve_y: u64,
    lp_supply: u64,
    lp_burn_amount: u64,
    min_x: u64,
    min_y: u64,
) -> Result<WithdrawalQuote, AmmError> {
    if lp_burn_amount == 0 {
        Err(AmmError::ZeroAmount)
    } else if lp_supply == 0 {
        Err(AmmError::DivisionByZero)
    } else if share_of(reserve_x, lp_burn_amount, lp_supply) > u64::MAX
        || share_of(reserve_y, lp_burn_amount, lp_supply) > u64::MAX {
        Err(AmmError::Overflow)
    } else if share_of(reserve_x, lp_burn_amount, lp_supply) < min_x
        || share_of(reserve_y, lp_burn_amount, lp_supply) < min_y {
        Err(AmmError::SlippageExceeded)
    } else {
        Ok(
            WithdrawalQuote {
                token_x: share_of(reserve_x, lp_burn_amount, lp_supply) as u64,
                token_y: share_of(reserve_y, lp_burn_amount, lp_supply) as u64,
            },
        )
    }
}

/// The claim of `lp_burn_amount` shares on one reserve, narrowed to 64 bits.
fn reserve_share(reserve: u64, lp_burn_amount: u64, lp_supply: u64) -> (r: Result<u64, AmmError>)
    requires
        lp_supply != 0,
    ensures
        share_of(reserve, lp_burn_amount, lp_supply) > u64::MAX ==> r == Err::<u64, AmmError>(
            AmmError::Overflow,
        ),
        share_of(reserve, lp_burn_amount, lp_supply) <= u64::MAX ==> r == Ok::<u64, AmmError>(
            share_of(reserve, lp_burn_amount, lp_supply) as u64,
        ),
{
    let product = mul_wide(lp_burn_amount, reserve);
    let wide = match div_floor(product, lp_supply as u128) {
        Ok(v) => v,
        Err(e) => return Err(e),
    };
    narrow(wide)
}

/// Full redemption: burning the whole share supply releases both reserves
/// exactly, subject only to the minimums.
pub proof fn lemma_full_redemption(reserve_x: u64, reserve_y: u64, lp_supply: u64, min_x: u64, min_y: u64)
    requires
        lp_supply > 0,
    ensures
        withdrawal_result(reserve_x, reserve_y, lp_supply, lp_supply, min_x, min_y) == (if reserve_x
            >= min_x && reserve_y >= min_y {
            Ok::<WithdrawalQuote, AmmError>(WithdrawalQuote { token_x: reserve_x, token_y: reserve_y })
        } else {
            Err::<WithdrawalQuote, AmmError>(AmmError::SlippageExceeded)
        }),
{
    vstd::arithmetic::div_mod::lemma_div_multiples_vanish(reserve_x as int, lp_supply as int);
    vstd::arithmetic::div_mod::lemma_div_multiples_vanish(reserve_y as int, lp_supply as int);
}

/// Determinism: a withdrawal quote depends on its inputs alone, so two quotes
/// on the same inputs agree.
pub proof fn lemma_withdrawal_quote_repeatable(
    reserve_x: u64,
    reserve_y: u64,
    lp_supply: u64,
    lp_burn_amount: u64,
    min_x: u64,
    min_y: u64,
    first: Result<WithdrawalQuote, AmmError>,
    second: Result<WithdrawalQuote, AmmError>,
)
    requires
        first == withdrawal_result(reserve_x, reserve_y, lp_supply, lp_burn_amount, min_x, min_y),
        second == withdrawal_result(reserve_x, reserve_y, lp_supply, lp_burn_amount, min_x, min_y),
    ensures
        first == second,
{
}

/// Quotes the redemption of `lp_burn_amount` shares out of `lp_supply`
/// against reserves `reserve_x` and `reserve_y`.
///
/// Each asset is released in proportion, `floor(lp_burn_amount * reserve /
/// lp_supply)`, computed in 128 bits from the same snapshot, and each must
/// reach its minimum. That the shares are the caller's to burn is for the
/// caller to establish.
pub fn quote_withdrawal(
    reserve_x: u64,
    reserve_y: u64,
    lp_supply: u64,
    lp_burn_amount: u64,
    min_x: u64,
    min_y: u64,
) -> (r: Result<WithdrawalQuote, AmmError>)
    ensures
        r == withdrawal_result(reserve_x, reserve_y, lp_supply, lp_burn_amount, min_x, min_y),
{
    if lp_burn_amount == 0 {
        return Err(AmmError::ZeroAmount);
    }
    if lp_supply == 0 {
        return Err(AmmError::DivisionByZero);
    }
    let token_x = match reserve_share(reserve_x, lp_burn_amount, lp_supply) {
        Ok(v) => v,
        Err(e) => return Err(e),
    };
    let token_y = match reserve_share(reserve_y, lp_burn_amount, lp_supply) {
        Ok(v) => v,
        Err(e) => return Err(e),
    };
    if token_x < min_x || token_y < min_y {
        return Err(AmmError::SlippageExceeded);
    }
    Ok(WithdrawalQuote { token_x, token_y })
}

/// A snapshot of the pool as a share redemption sees it.
#[derive(Clone, Copy, Debug, PartialEq, Eq, Structural)]
pub struct Withdraw {
    /// Balance of asset X held by the pool.
    pub vault_x: u64,
    /// Balance of asset Y held by the pool.
    pub vault_y: u64,
    /// Total outstanding liquidity-pool shares.
    pub lp_supply: u64,
}

impl Withdraw {
    /// Quotes burning `amount` shares for at least `min_x` of X and `min_y` of Y.
    pub fn withdraw(&self, amount: u64, min_x: u64, min_y: u64) -> (r: Result<WithdrawalQuote, AmmError>)
        ensures
            r == withdrawal_result(self.vault_x, self.vault_y, self.lp_supply, amount, min_x, min_y),
    {
        quote_withdrawal(self.vault_x, self.vault_y, self.lp_supply, amount, min_x, min_y)
    }
}

} // verus!
