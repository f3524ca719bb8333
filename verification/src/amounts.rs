use vstd::prelude::*;

use crate::state::TokenData;

verus! {

/// Rates are in basis points: this many make up the whole amount.
pub const BPS: u64 = 10000;

/// `amount * rate / BPS`, where `amount * rate` fits in a `u64`.
pub open spec fn bps_share(amount: u64, rate: u64) -> Option<u64> {
    if amount * rate <= u64::MAX {
        Some((amount * rate / 10000) as u64)
    } else {
        None
    }
}

/// `amount * balance / supply`, where the product fits in a `u64` and the
/// supply is not zero: the USDC value of `amount` tokens when `balance` USDC
/// backs `supply` tokens.
pub open spec fn pro_rata(amount: u64, balance: u64, supply: u64) -> Option<u64> {
    if amount * balance <= u64::MAX && supply != 0 {
        Some((amount * balance / (supply as int)) as u64)
    } else {
        None
    }
}

/// The amounts of a purchase of reward tokens with USDC.
#[derive(Clone, Copy, Debug, PartialEq, Eq, Structural)]
pub struct MintAmounts {
    /// USDC that the user pays: the discounted price.
    pub usdc_amount: u64,
    /// The part of it that goes to the treasury.
    pub fee_amount: u64,
    /// The part of it that goes to the token's reserve.
    pub reserve_amount: u64,
}

/// The amounts of buying `amount` reward tokens; `None` where the
/// computation leaves the range of `u64`.
pub open spec fn mint_split(td: TokenData, amount: u64) -> Option<MintAmounts> {
    if td.discount > 10000 {
        None
    } else {
        match bps_share(amount, (10000 - td.discount) as u64) {
            None => None,
            Some(usdc) => match bps_share(usdc, td.sale_fee) {
                None => None,
                Some(fee) => if fee <= usdc {
                    Some(
                        MintAmounts {
                            usdc_amount: usdc,
                            fee_amount: fee,
                            reserve_amount: (usdc - fee) as u64,
                        },
                    )
                } else {
                    None
                },
            },
        }
    }
}

/// The amounts of a payment of `amount` USDC.
#[derive(Clone, Copy, Debug, PartialEq, Eq, Structural)]
pub struct RedeemUsdcAmounts {
    /// The flat fee, to the treasury.
    pub fee_amount: u64,
    /// Reward tokens minted to the user, and the USDC that backs them.
    pub reward_amount: u64,
    /// USDC the merchant earns.
    pub earned_amount: u64,
}

/// The amounts of paying `amount` USDC; `None` where the computation leaves
/// the range of `u64`.
pub open spec fn redeem_usdc_split(td: TokenData, amount: u64) -> Option<RedeemUsdcAmounts> {
    match bps_share(amount, td.reward_usdc_token) {
        None => None,
        Some(reward) => if reward <= amount && td.transaction_fee <= amount - reward {
            Some(
                RedeemUsdcAmounts {
                    fee_amount: td.transaction_fee,
                    reward_amount: reward,
                    earned_amount: (amount - reward - td.transaction_fee) as u64,
                },
            )
        } else {
            None
        },
    }
}

/// The amounts of paying with `amount` reward tokens.
#[derive(Clone, Copy, Debug, PartialEq, Eq, Structural)]
pub struct RedeemTokenAmounts {
    /// Reward tokens minted back to the user.
    pub reward_amount: u64,
    /// The flat fee, from the reserve to the treasury.
    pub fee_amount: u64,
    /// USDC value of the tokens spent, less the reward.
    pub usdc_value: u64,
    /// USDC the merchant earns: the value less the fee.
    pub earned_amount: u64,
}

/// The amounts of paying with `amount` tokens whose data is `td`, whose
/// reserve holds `balance` USDC and whose mint has `supply` tokens out;
/// `None` where the computation leaves the range of `u64` or divides by zero.
pub open spec fn redeem_token_split(td: TokenData, amount: u64, balance: u64, supply: u64) -> Option<
    RedeemTokenAmounts,
> {
    match bps_share(amount, td.reward_merchant_token) {
        None => None,
        Some(reward) => if reward <= amount {
            match pro_rata((amount - reward) as u64, balance, supply) {
                None => None,
                Some(value) => if td.transaction_fee <= value {
                    Some(
                        RedeemTokenAmounts {
                            reward_amount: reward,
                            fee_amount: td.transaction_fee,
                            usdc_value: value,
                            earned_amount: (value - td.transaction_fee) as u64,
                        },
                    )
                } else {
                    None
                },
            }
        } else {
            None
        },
    }
}

/// The amounts of paying with reward tokens and USDC together.
#[derive(Clone, Copy, Debug, PartialEq, Eq, Structural)]
pub struct RedeemTwoAmounts {
    pub token_reward_amount: u64,
    pub usdc_reward_amount: u64,
    /// Reward tokens minted to the user: both rewards.
    pub total_reward_amount: u64,
    /// USDC value of the tokens spent, less their reward.
    pub usdc_value: u64,
    pub fee_amount: u64,
    /// USDC from the reserve to the merchant: the value less the fee.
    pub earned_amount: u64,
    /// USDC from the user to the merchant: the USDC paid less its reward.
    pub usdc_earned_amount: u64,
}

/// The amounts of paying with `token_amount` tokens and `usdc_amount` USDC;
/// `None` where the computation leaves the range of `u64` or divides by zero.
pub open spec fn redeem_two_split(
    td: TokenData,
    token_amount: u64,
    usdc_amount: u64,
    balance: u64,
    supply: u64,
) -> Option<RedeemTwoAmounts> {
    match (bps_share(token_amount, td.reward_merchant_token), bps_share(usdc_amount, td.reward_usdc_token)) {
        (Some(token_reward), Some(usdc_reward)) => if token_reward <= token_amount && usdc_reward
            <= usdc_amount {
            match pro_rata((token_amount - token_reward) as u64, balance, supply) {
                None => None,
                Some(value) => if td.transaction_fee <= value {
                    Some(
                        RedeemTwoAmounts {
                            token_reward_amount: token_reward,
                            usdc_reward_amount: usdc_reward,
                            total_reward_amount: (token_reward + usdc_reward) as u64,
                            usdc_value: value,
                            fee_amount: td.transaction_fee,
                            earned_amount: (value - td.transaction_fee) as u64,
                            usdc_earned_amount: (usdc_amount - usdc_reward) as u64,
                        },
                    )
                } else {
                    None
                },
            }
        } else {
            None
        },
        _ => None,
    }
}

/// The amounts of paying with merchant tokens, generic tokens and USDC.
#[derive(Clone, Copy, Debug, PartialEq, Eq, Structural)]
pub struct RedeemThreeAmounts {
    pub merchant_token_reward_amount: u64,
    pub generic_token_reward_amount: u64,
    pub usdc_reward_amount: u64,
    /// Merchant tokens minted to the user.
    pub total_reward_amount: u64,
    /// From the merchant reserve to the merchant's earned account.
    pub merchant_usdc_earned: u64,
    /// From the generic reserve to the merchant's earned account.
    pub generic_usdc_earned: u64,
    /// From the generic reserve to the merchant reserve.
    pub generic_usdc_reward: u64,
    pub fee_amount: u64,
    /// From the user to the merchant's earned account.
    pub usdc_earned_amount: u64,
}

/// The amounts of paying with `merchant_amount` merchant tokens,
/// `generic_amount` generic tokens and `usdc_amount` USDC, at the rates of the
/// merchant's token data `td`. The merchant tokens minted to the user are the
/// three rewards together: for the merchant tokens, the generic tokens and
/// the USDC spent. `None` where the computation leaves the range of `u64` or
/// divides by zero.
pub open spec fn redeem_three_split(
    td: TokenData,
    merchant_amount: u64,
    generic_amount: u64,
    usdc_amount: u64,
    merchant_balance: u64,
    merchant_supply: u64,
    generic_balance: u64,
    generic_supply: u64,
) -> Option<RedeemThreeAmounts> {
    match (
        bps_share(merchant_amount, td.reward_merchant_token),
        bps_share(generic_amount, td.reward_generic_token),
        bps_share(usdc_amount, td.reward_usdc_token),
    ) {
        (Some(mr), Some(gr), Some(ur)) => {
            if mr <= merchant_amount && gr <= generic_amount
                && ur <= usdc_amount && td.transaction_fee <= usdc_amount - ur {
                match (
                    pro_rata((merchant_amount - mr) as u64, merchant_balance, merchant_supply),
                    pro_rata((generic_amount - gr) as u64, generic_balance, generic_supply),
                    pro_rata(gr, generic_balance, generic_supply),
                ) {
                    (Some(me), Some(ge), Some(gw)) => Some(
                        RedeemThreeAmounts {
                            merchant_token_reward_amount: mr,
                            generic_token_reward_amount: gr,
                            usdc_reward_amount: ur,
                            total_reward_amount: (mr + gr + ur) as u64,
                            merchant_usdc_earned: me,
                            generic_usdc_earned: ge,
                            generic_usdc_reward: gw,
                            fee_amount: td.transaction_fee,
                            usdc_earned_amount: (usdc_amount - ur - td.transaction_fee) as u64,
                        },
                    ),
                    _ => None,
                }
            } else {
                None
            }
        },
        _ => None,
    }
}

/// A share computed without overflow is at most a ten-thousandth of `u64::MAX`,
/// so three of them add up within `u64`.
pub proof fn lemma_share_fits(amount: u64, rate: u64)
    ensures
        bps_share(amount, rate) matches Some(x) ==> x <= u64::MAX / 10000,
{
    if amount * rate <= u64::MAX {
        vstd::arithmetic::div_mod::lemma_div_is_ordered(amount * rate, u64::MAX as int, 10000);
    }
}

/// `amount * rate / BPS`, or `None` where the product overflows.
pub fn checked_bps_share(amount: u64, rate: u64) -> (r: Option<u64>)
    ensures
        r == bps_share(amount, rate),
{
    match amount.checked_mul(rate) {
        Some(scaled) => Some(scaled / BPS),
        None => None,
    }
}

/// `amount * balance / supply`, or `None` where the product overflows or
/// the supply is zero.
pub fn checked_pro_rata(amount: u64, balance: u64, supply: u64) -> (r: Option<u64>)
    ensures
        r == pro_rata(amount, balance, supply),
{
    if supply == 0 {
        return None;
    }
    match amount.checked_mul(balance) {
        Some(scaled) => Some(scaled / supply),
        None => None,
    }
}

/// The amounts of buying `amount` reward tokens with USDC.
pub fn mint_amounts(td: &TokenData, amount: u64) -> (r: Option<MintAmounts>)
    ensures
        r == mint_split(*td, amount),
{
    if td.discount > BPS {
        return None;
    }
    let usdc = match checked_bps_share(amount, BPS - td.discount) {
        Some(x) => x,
        None => return None,
    };
    let fee = match checked_bps_share(usdc, td.sale_fee) {
        Some(x) => x,
        None => return None,
    };
    if fee > usdc {
        return None;
    }
    Some(MintAmounts { usdc_amount: usdc, fee_amount: fee, reserve_amount: usdc - fee })
}

/// The amounts of paying `amount` USDC.
pub fn redeem_usdc_amounts(td: &TokenData, amount: u64) -> (r: Option<RedeemUsdcAmounts>)
    ensures
        r == redeem_usdc_split(*td, amount),
{
    let reward = match checked_bps_share(amount, td.reward_usdc_token) {
        Some(x) => x,
        None => return None,
    };
    if reward > amount || td.transaction_fee > amount - reward {
        return None;
    }
    Some(
        RedeemUsdcAmounts {
            fee_amount: td.transaction_fee,
            reward_amount: reward,
            earned_amount: amount - reward - td.transaction_fee,
        },
    )
}

/// The amounts of paying with `amount` tokens backed by `balance` USDC over
/// a supply of `supply`.
pub fn redeem_token_amounts(td: &TokenData, amount: u64, balance: u64, supply: u64) -> (r: Option<
    RedeemTokenAmounts,
>)
    ensures
        r == redeem_token_split(*td, amount, balance, supply),
{
    let reward = match checked_bps_share(amount, td.reward_merchant_token) {
        Some(x) => x,
        None => return None,
    };
    if reward > amount {
        return None;
    }
    let value = match checked_pro_rata(amount - reward, balance, supply) {
        Some(x) => x,
        None => return None,
    };
    if td.transaction_fee > value {
        return None;
    }
    Some(
        RedeemTokenAmounts {
            reward_amount: reward,
            fee_amount: td.transaction_fee,
            usdc_value: value,
            earned_amount: value - td.transaction_fee,
        },
    )
}

/// The amounts of paying with `token_amount` tokens and `usdc_amount` USDC.
pub fn redeem_two_amounts(
    td: &TokenData,
    token_amount: u64,
    usdc_amount: u64,
    balance: u64,
    supply: u64,
) -> (r: Option<RedeemTwoAmounts>)
    ensures
        r == redeem_two_split(*td, token_amount, usdc_amount, balance, supply),
{
    let token_reward = match checked_bps_share(token_amount, td.reward_merchant_token) {
        Some(x) => x,
        None => return None,
    };
    let usdc_reward = match checked_bps_share(usdc_amount, td.reward_usdc_token) {
        Some(x) => x,
        None => return None,
    };
    if token_reward > token_amount || usdc_reward > usdc_amount {
        return None;
    }
    let value = match checked_pro_rata(token_amount - token_reward, balance, supply) {
        Some(x) => x,
        None => return None,
    };
    if td.transaction_fee > value {
        return None;
    }
    Some(
        RedeemTwoAmounts {
            token_reward_amount: token_reward,
            usdc_reward_amount: usdc_reward,
            total_reward_amount: token_reward + usdc_reward,
            usdc_value: value,
            fee_amount: td.transaction_fee,
            earned_amount: value - td.transaction_fee,
            usdc_earned_amount: usdc_amount - usdc_reward,
        },
    )
}

/// The amounts of paying with merchant tokens, generic tokens and USDC.
pub fn redeem_three_amounts(
    td: &TokenData,
    merchant_amount: u64,
    generic_amount: u64,
    usdc_amount: u64,
    merchant_balance: u64,
    merchant_supply: u64,
    generic_balance: u64,
    generic_supply: u64,
) -> (r: Option<RedeemThreeAmounts>)
    ensures
        r == redeem_three_split(
            *td,
            merchant_amount,
            generic_amount,
            usdc_amount,
            merchant_balance,
            merchant_supply,
            generic_balance,
            generic_supply,
        ),
{
    let mr = match checked_bps_share(merchant_amount, td.reward_merchant_token) {
        Some(x) => x,
        None => return None,
    };
    let gr = match checked_bps_share(generic_amount, td.reward_generic_token) {
        Some(x) => x,
        None => return None,
    };
    let ur = match checked_bps_share(usdc_amount, td.reward_usdc_token) {
        Some(x) => x,
        None => return None,
    };
    proof {
        lemma_share_fits(merchant_amount, td.reward_merchant_token);
        lemma_share_fits(generic_amount, td.reward_generic_token);
        lemma_share_fits(usdc_amount, td.reward_usdc_token);
    }
    let total = mr + gr + ur;
    if mr > merchant_amount || gr > generic_amount || ur > usdc_amount || td.transaction_fee
        > usdc_amount - ur {
        return None;
    }
    let me = match checked_pro_rata(merchant_amount - mr, merchant_balance, merchant_supply) {
        Some(x) => x,
        None => return None,
    };
    let ge = match checked_pro_rata(generic_amount - gr, generic_balance, generic_supply) {
        Some(x) => x,
        None => return None,
    };
    let gw = match checked_pro_rata(gr, generic_balance, generic_supply) {
        Some(x) => x,
        None => return None,
    };
    Some(
        RedeemThreeAmounts {
            merchant_token_reward_amount: mr,
            generic_token_reward_amount: gr,
            usdc_reward_amount: ur,
            total_reward_amount: total,
            merchant_usdc_earned: me,
            generic_usdc_earned: ge,
            generic_usdc_reward: gw,
            fee_amount: td.transaction_fee,
            usdc_earned_amount: usdc_amount - ur - td.transaction_fee,
        },
    )
}

} // verus!
