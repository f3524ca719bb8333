use vstd::prelude::*;

use crate::amounts::{
    lemma_share_fits, mint_split, redeem_three_split, redeem_token_split, redeem_two_split,
    redeem_usdc_split,
};
use crate::instructions::{
    MintToken, NewToken, RedeemOneGenericToken, RedeemOneToken, RedeemThreeToken, RedeemTwoToken,
    RedeemUsdc, Withdraw, earned_signer, mint_signer, mint_token_ops, new_token_result,
    new_token_seeds, redeem_one_generic_token_ops, redeem_one_token_ops, redeem_three_token_ops,
    redeem_two_token_ops, redeem_usdc_ops, reserve_signer, withdraw_ops,
};
use crate::ops::{Role, TokenOp, burned, minted, received, sent};
use crate::pda::program_address;
use crate::state::{ErrorCode, TokenData};
use vstd::arithmetic::div_mod::{
    lemma_div_by_multiple, lemma_div_is_ordered, lemma_fundamental_div_mod,
    lemma_hoist_over_denominator, lemma_mod_bound,
};
use vstd::arithmetic::mul::{
    lemma_mul_inequality, lemma_mul_is_commutative, lemma_mul_is_distributive_sub,
};

verus! {

// ---------------------------------------------------------------------------
// Arithmetic facts.
// ---------------------------------------------------------------------------
/// A share of at most the whole (`rate <= 10000` basis points) is at most the amount.
pub proof fn lemma_share_at_most_whole(amount: int, rate: int)
    requires
        0 <= amount,
        0 <= rate <= 10000,
    ensures
        0 <= amount * rate / 10000 <= amount,
{
    lemma_mul_inequality(rate, 10000, amount);
    lemma_mul_inequality(0, rate, amount);
    lemma_mul_is_commutative(rate, amount);
    lemma_mul_is_commutative(10000, amount);
    lemma_div_is_ordered(amount * rate, amount * 10000, 10000);
    lemma_div_is_ordered(0, amount * rate, 10000);
    lemma_div_by_multiple(amount, 10000);
}

/// A rounded-down pro-rata value never exceeds the exact one:
/// `(x * b / s) * s <= x * b`.
pub proof fn lemma_pro_rata_rounds_down(x: int, b: int, s: int)
    requires
        0 <= x,
        0 <= b,
        0 < s,
    ensures
        (x * b / s) * s <= x * b,
{
    lemma_fundamental_div_mod(x * b, s);
    lemma_mod_bound(x * b, s);
    lemma_mul_is_commutative(s, x * b / s);
}

/// The pro-rata value of at most the whole supply is at most the balance.
pub proof fn lemma_pro_rata_within_balance(x: int, b: int, s: int)
    requires
        0 <= x <= s,
        0 <= b,
        0 < s,
    ensures
        x * b / s <= b,
{
    lemma_mul_inequality(x, s, b);
    lemma_div_is_ordered(x * b, s * b, s);
    lemma_div_by_multiple(b, s);
}

/// Rounding two parts down separately gives at most the rounded whole.
pub proof fn lemma_rounded_parts_at_most_whole(a: int, b: int, s: int)
    requires
        0 <= a,
        0 <= b,
        0 < s,
    ensures
        a / s + b / s <= (a + b) / s,
{
    lemma_fundamental_div_mod(a, s);
    lemma_fundamental_div_mod(b, s);
    lemma_mod_bound(a, s);
    lemma_mod_bound(b, s);
    assert(s * (a / s) + s * (b / s) == s * (a / s + b / s)) by (nonlinear_arith);
    lemma_div_is_ordered(s * (a / s + b / s), a + b, s);
    lemma_mul_is_commutative(s, a / s + b / s);
    lemma_div_by_multiple(a / s + b / s, s);
}

// ---------------------------------------------------------------------------
// Laws of the instructions.
// ---------------------------------------------------------------------------
/// A purchase of reward tokens with USDC charges the user the discounted
/// price, which is at most the number of tokens bought when the discount is
/// at most the whole; all of it goes to the treasury and the reserve; exactly
/// the tokens bought are minted.
pub proof fn law_mint_token_charges_discounted_price(ctx: MintToken, amount: u64)
    requires
        mint_split(ctx.token_data, amount) is Some,
    ensures
        mint_token_ops(ctx, ctx.treasury_account.bytes@, amount) matches Ok((ops, false)) && {
            let m = mint_split(ctx.token_data, amount).unwrap();
            &&& sent(ops, Role::UserUsdc) == m.usdc_amount
            &&& m.usdc_amount <= amount
            &&& received(ops, Role::Treasury) + received(ops, Role::Reserve) == sent(ops, Role::UserUsdc)
            &&& received(ops, Role::Treasury) == m.fee_amount
            &&& minted(ops, Role::TokenMint) == amount
        },
{
    reveal_with_fuel(sent, 4);
    reveal_with_fuel(received, 4);
    reveal_with_fuel(minted, 4);
    lemma_share_at_most_whole(amount as int, 10000 - ctx.token_data.discount);
}

/// A payment in USDC takes exactly the amount from the user, and the reserve
/// receives exactly as much USDC as reward tokens are minted.
pub proof fn law_redeem_usdc_backs_every_reward(ctx: RedeemUsdc, amount: u64)
    requires
        redeem_usdc_split(ctx.token_data, amount) is Some,
    ensures
        redeem_usdc_ops(ctx, ctx.treasury_account.bytes@, amount) matches Ok((ops, false)) && {
            &&& sent(ops, Role::UserUsdc) == amount
            &&& received(ops, Role::Reserve) == minted(ops, Role::TokenMint)
            &&& received(ops, Role::Treasury) == ctx.token_data.transaction_fee
        },
{
    reveal_with_fuel(sent, 5);
    reveal_with_fuel(received, 5);
    reveal_with_fuel(minted, 5);
}

/// An instruction that checks the treasury refuses, with `PDA`, exactly the
/// requests whose treasury account is not the derived one.
pub proof fn law_wrong_treasury_refused(
    mint_ctx: MintToken,
    usdc_ctx: RedeemUsdc,
    treasury: Seq<u8>,
    amount: u64,
)
    ensures
        (mint_token_ops(mint_ctx, treasury, amount) == Err::<(Seq<TokenOp>, bool), ErrorCode>(ErrorCode::PDA))
            == (treasury != mint_ctx.treasury_account.bytes@),
        (redeem_usdc_ops(usdc_ctx, treasury, amount) == Err::<(Seq<TokenOp>, bool), ErrorCode>(ErrorCode::PDA))
            == (treasury != usdc_ctx.treasury_account.bytes@),
{
}

/// Where its amounts leave the range of `u64`, a purchase with USDC aborts
/// after minting the tokens and before any USDC moves; a payment in USDC
/// aborts before any operation.
pub proof fn law_out_of_range_amounts_abort(mint_ctx: MintToken, usdc_ctx: RedeemUsdc, amount: u64)
    ensures
        mint_split(mint_ctx.token_data, amount) is None ==> (mint_token_ops(
            mint_ctx,
            mint_ctx.treasury_account.bytes@,
            amount,
        ) matches Ok((ops, true)) && sent(ops, Role::UserUsdc) == 0 && minted(ops, Role::TokenMint)
            == amount),
        redeem_usdc_split(usdc_ctx.token_data, amount) is None ==> redeem_usdc_ops(
            usdc_ctx,
            usdc_ctx.treasury_account.bytes@,
            amount,
        ) == Ok::<(Seq<TokenOp>, bool), ErrorCode>((Seq::empty(), true)),
{
    reveal_with_fuel(sent, 2);
    reveal_with_fuel(minted, 2);
}

/// Paying with reward tokens burns them all and pays out of the reserve the
/// rounded-down pro-rata value of the tokens spent less their reward; when
/// that is at most the supply, the reserve is never overdrawn.
pub proof fn law_redeem_one_token_pays_pro_rata(ctx: RedeemOneToken, amount: u64)
    requires
        redeem_token_split(
            ctx.token_data,
            amount,
            ctx.reserve_usdc_amount,
            ctx.token_mint_supply,
        ) is Some,
    ensures
        ({
            let ops = redeem_one_token_ops(ctx, amount);
            let a = redeem_token_split(
                ctx.token_data,
                amount,
                ctx.reserve_usdc_amount,
                ctx.token_mint_supply,
            ).unwrap();
            &&& burned(ops, Role::TokenMint) == amount
            &&& minted(ops, Role::TokenMint) == a.reward_amount
            &&& sent(ops, Role::Reserve) == a.usdc_value
            &&& sent(ops, Role::Reserve) * ctx.token_mint_supply <= (amount - a.reward_amount)
                * ctx.reserve_usdc_amount
            &&& amount - a.reward_amount <= ctx.token_mint_supply ==> sent(ops, Role::Reserve)
                <= ctx.reserve_usdc_amount
        }),
{
    reveal_with_fuel(sent, 5);
    reveal_with_fuel(burned, 5);
    reveal_with_fuel(minted, 5);
    let a = redeem_token_split(
        ctx.token_data,
        amount,
        ctx.reserve_usdc_amount,
        ctx.token_mint_supply,
    ).unwrap();
    let x = amount - a.reward_amount;
    lemma_pro_rata_rounds_down(x, ctx.reserve_usdc_amount as int, ctx.token_mint_supply as int);
    if x <= ctx.token_mint_supply {
        lemma_pro_rata_within_balance(
            x,
            ctx.reserve_usdc_amount as int,
            ctx.token_mint_supply as int,
        );
    }
}

/// Paying a merchant with generic tokens burns them all, pays out of the
/// generic reserve at most the pro-rata value of the tokens spent, and mints
/// the reward in the merchant's token.
pub proof fn law_redeem_one_generic_token_pays_pro_rata(ctx: RedeemOneGenericToken, amount: u64)
    requires
        redeem_token_split(
            ctx.generic_token_data,
            amount,
            ctx.generic_reserve_usdc_amount,
            ctx.generic_token_mint_supply,
        ) is Some,
    ensures
        ({
            let ops = redeem_one_generic_token_ops(ctx, amount);
            let a = redeem_token_split(
                ctx.generic_token_data,
                amount,
                ctx.generic_reserve_usdc_amount,
                ctx.generic_token_mint_supply,
            ).unwrap();
            &&& burned(ops, Role::GenericTokenMint) == amount
            &&& minted(ops, Role::TokenMint) == a.reward_amount
            &&& sent(ops, Role::GenericReserve) == a.usdc_value
            &&& sent(ops, Role::GenericReserve) * ctx.generic_token_mint_supply <= (amount
                - a.reward_amount) * ctx.generic_reserve_usdc_amount
        }),
{
    reveal_with_fuel(sent, 5);
    reveal_with_fuel(burned, 5);
    reveal_with_fuel(minted, 5);
    let a = redeem_token_split(
        ctx.generic_token_data,
        amount,
        ctx.generic_reserve_usdc_amount,
        ctx.generic_token_mint_supply,
    ).unwrap();
    lemma_pro_rata_rounds_down(
        amount - a.reward_amount,
        ctx.generic_reserve_usdc_amount as int,
        ctx.generic_token_mint_supply as int,
    );
}

/// Paying with reward tokens and USDC takes exactly the USDC amount from the
/// user, puts the USDC reward's worth into the reserve, and mints both
/// rewards together.
pub proof fn law_redeem_two_token_accounts_for_usdc(
    ctx: RedeemTwoToken,
    token_amount: u64,
    usdc_amount: u64,
)
    requires
        redeem_two_split(
            ctx.token_data,
            token_amount,
            usdc_amount,
            ctx.reserve_usdc_amount,
            ctx.token_mint_supply,
        ) is Some,
    ensures
        ({
            let ops = redeem_two_token_ops(ctx, token_amount, usdc_amount);
            let a = redeem_two_split(
                ctx.token_data,
                token_amount,
                usdc_amount,
                ctx.reserve_usdc_amount,
                ctx.token_mint_supply,
            ).unwrap();
            &&& sent(ops, Role::UserUsdc) == usdc_amount
            &&& burned(ops, Role::TokenMint) == token_amount
            &&& minted(ops, Role::TokenMint) == a.token_reward_amount + a.usdc_reward_amount
            &&& sent(ops, Role::Reserve) == a.usdc_value
            &&& sent(ops, Role::Reserve) * ctx.token_mint_supply <= (token_amount
                - a.token_reward_amount) * ctx.reserve_usdc_amount
        }),
{
    reveal_with_fuel(sent, 7);
    reveal_with_fuel(burned, 7);
    reveal_with_fuel(minted, 7);
    let a = redeem_two_split(
        ctx.token_data,
        token_amount,
        usdc_amount,
        ctx.reserve_usdc_amount,
        ctx.token_mint_supply,
    ).unwrap();
    lemma_pro_rata_rounds_down(
        token_amount - a.token_reward_amount,
        ctx.reserve_usdc_amount as int,
        ctx.token_mint_supply as int,
    );
}

/// Paying with merchant tokens, generic tokens and USDC takes exactly the
/// USDC amount from the user, burns both kinds of tokens in full, mints
/// exactly the three rewards, pays out of the merchant reserve at most the
/// pro-rata value of the merchant tokens spent less their reward, and takes
/// out of the generic reserve at most the rounded-down pro-rata value of all
/// the generic tokens spent.
pub proof fn law_redeem_three_token_bounds_generic_reserve(
    ctx: RedeemThreeToken,
    merchant_token_amount: u64,
    generic_token_amount: u64,
    usdc_amount: u64,
)
    requires
        redeem_three_split(
            ctx.merchant_token_data,
            merchant_token_amount,
            generic_token_amount,
            usdc_amount,
            ctx.merchant_reserve_usdc_amount,
            ctx.merchant_token_mint_supply,
            ctx.generic_reserve_usdc_amount,
            ctx.generic_token_mint_supply,
        ) is Some,
    ensures
        ({
            let ops = redeem_three_token_ops(
                ctx,
                merchant_token_amount,
                generic_token_amount,
                usdc_amount,
            );
            let a = redeem_three_split(
                ctx.merchant_token_data,
                merchant_token_amount,
                generic_token_amount,
                usdc_amount,
                ctx.merchant_reserve_usdc_amount,
                ctx.merchant_token_mint_supply,
                ctx.generic_reserve_usdc_amount,
                ctx.generic_token_mint_supply,
            ).unwrap();
            &&& sent(ops, Role::UserUsdc) == usdc_amount
            &&& burned(ops, Role::TokenMint) == merchant_token_amount
            &&& burned(ops, Role::GenericTokenMint) == generic_token_amount
            &&& minted(ops, Role::TokenMint) == a.merchant_token_reward_amount
                + a.generic_token_reward_amount + a.usdc_reward_amount
            &&& sent(ops, Role::Reserve) * ctx.merchant_token_mint_supply <= (merchant_token_amount
                - a.merchant_token_reward_amount) * ctx.merchant_reserve_usdc_amount
            &&& sent(ops, Role::GenericReserve) <= generic_token_amount as int
                * ctx.generic_reserve_usdc_amount as int / ctx.generic_token_mint_supply as int
        }),
{
    reveal_with_fuel(sent, 10);
    reveal_with_fuel(burned, 10);
    reveal_with_fuel(minted, 10);
    let a = redeem_three_split(
        ctx.merchant_token_data,
        merchant_token_amount,
        generic_token_amount,
        usdc_amount,
        ctx.merchant_reserve_usdc_amount,
        ctx.merchant_token_mint_supply,
        ctx.generic_reserve_usdc_amount,
        ctx.generic_token_mint_supply,
    ).unwrap();
    let g = generic_token_amount as int;
    let gr = a.generic_token_reward_amount as int;
    let b = ctx.generic_reserve_usdc_amount as int;
    let s = ctx.generic_token_mint_supply as int;
    assert((g - gr) * b + gr * b == g * b) by (nonlinear_arith);
    assert(0 <= (g - gr) * b) by (nonlinear_arith)
        requires
            0 <= g - gr,
            0 <= b,
    ;
    assert(0 <= gr * b) by (nonlinear_arith)
        requires
            0 <= gr,
            0 <= b,
    ;
    lemma_rounded_parts_at_most_whole((g - gr) * b, gr * b, s);
    lemma_pro_rata_rounds_down(
        merchant_token_amount - a.merchant_token_reward_amount,
        ctx.merchant_reserve_usdc_amount as int,
        ctx.merchant_token_mint_supply as int,
    );
}

/// Withdrawing empties the earned account into the withdrawal account.
pub proof fn law_withdraw_empties_earned(ctx: Withdraw)
    ensures
        sent(withdraw_ops(ctx), Role::Earned) == ctx.earned_usdc_amount,
        received(withdraw_ops(ctx), Role::WithdrawUsdc) == ctx.earned_usdc_amount,
{
    reveal_with_fuel(sent, 2);
    reveal_with_fuel(received, 2);
}

/// A token created by `new_token` stores, for its mint, reserve and earned
/// accounts, the addresses and bumps that their seeds derive; so the signers
/// that later instructions build from the stored bumps are those accounts.
pub proof fn law_new_token_signers_derive_accounts(
    ctx: NewToken,
    program_id: Seq<u8>,
    name: String,
    transaction_fee: u64,
    sale_fee: u64,
    discount: u64,
    reward_generic_token: u64,
    reward_merchant_token: u64,
    reward_usdc_token: u64,
    td: TokenData,
)
    requires
        ({
            let (ts, es, rs) = new_token_seeds(ctx);
            match (
                program_address(ts.seed_list(), program_id),
                program_address(es.seed_list(), program_id),
                program_address(rs.seed_list(), program_id),
            ) {
                (Some((t, tb)), Some((e, eb)), Some((s, sb))) => new_token_result(
                    ctx,
                    t,
                    tb,
                    e,
                    eb,
                    s,
                    sb,
                    name,
                    transaction_fee,
                    sale_fee,
                    discount,
                    reward_generic_token,
                    reward_merchant_token,
                    reward_usdc_token,
                ) == Ok::<TokenData, ErrorCode>(td),
                _ => false,
            }
        }),
    ensures
        program_address(mint_signer(ctx.token_data, td).seeds.seed_list(), program_id) == Some(
            (td.mint.bytes@, td.mint_bump),
        ),
        program_address(reserve_signer(ctx.token_data, ctx.mint, td).seeds.seed_list(), program_id)
            == Some((td.reserve.bytes@, td.reserve_bump)),
        program_address(earned_signer(ctx.token_data, ctx.mint, td).seeds.seed_list(), program_id)
            == Some((td.earned.bytes@, td.earned_bump)),
        td.mint == ctx.token_mint,
        td.reserve == ctx.reserve_usdc_account,
        td.earned == ctx.earned_usdc_account,
        td.user == ctx.user,
{
}

/// Creating a token is refused, with `PDA`, exactly when one of the provided
/// mint, earned and reserve accounts is not the address its seeds derive.
pub proof fn law_new_token_refuses_underived_accounts(
    ctx: NewToken,
    token_pda: Seq<u8>,
    token_bump: u8,
    earned_pda: Seq<u8>,
    earned_bump: u8,
    reserve_pda: Seq<u8>,
    reserve_bump: u8,
    name: String,
    transaction_fee: u64,
    sale_fee: u64,
    discount: u64,
    reward_generic_token: u64,
    reward_merchant_token: u64,
    reward_usdc_token: u64,
)
    ensures
        (new_token_result(
            ctx,
            token_pda,
            token_bump,
            earned_pda,
            earned_bump,
            reserve_pda,
            reserve_bump,
            name,
            transaction_fee,
            sale_fee,
            discount,
            reward_generic_token,
            reward_merchant_token,
            reward_usdc_token,
        ) == Err::<TokenData, ErrorCode>(ErrorCode::PDA)) == (token_pda != ctx.token_mint.bytes@
            || earned_pda != ctx.earned_usdc_account.bytes@ || reserve_pda
            != ctx.reserve_usdc_account.bytes@),
{
}

/// Paying a merchant with generic tokens reads the merchant's token data only
/// for the bump of its mint: the rates and the fee are the generic token's.
pub proof fn law_redeem_one_generic_token_uses_generic_rates(
    ctx1: RedeemOneGenericToken,
    ctx2: RedeemOneGenericToken,
    amount: u64,
)
    requires
        ctx1.generic_token_data_key == ctx2.generic_token_data_key,
        ctx1.generic_token_data == ctx2.generic_token_data,
        ctx1.token_data_key == ctx2.token_data_key,
        ctx1.token_data.mint_bump == ctx2.token_data.mint_bump,
        ctx1.mint == ctx2.mint,
        ctx1.generic_reserve_usdc_amount == ctx2.generic_reserve_usdc_amount,
        ctx1.generic_token_mint_supply == ctx2.generic_token_mint_supply,
    ensures
        redeem_one_generic_token_ops(ctx1, amount) == redeem_one_generic_token_ops(ctx2, amount),
{
}

/// `x * r / 10000` grows by at most `y - x` from `x` to `y` when `r` is at
/// most the whole.
proof fn lemma_share_step(x: int, y: int, r: int)
    requires
        0 <= x <= y,
        0 <= r <= 10000,
    ensures
        x * r / 10000 <= y * r / 10000 <= x * r / 10000 + (y - x),
{
    lemma_mul_inequality(x, y, r);
    lemma_div_is_ordered(x * r, y * r, 10000);
    lemma_mul_inequality(0, y - x, r);
    lemma_mul_inequality(r, 10000, y - x);
    lemma_mul_is_commutative(r, y - x);
    lemma_mul_is_distributive_sub(r, y, x);
    lemma_mul_is_commutative(r, y);
    lemma_mul_is_commutative(r, x);
    assert(y * r <= x * r + (y - x) * 10000);
    lemma_div_is_ordered(y * r, x * r + (y - x) * 10000, 10000);
    lemma_hoist_over_denominator(x * r, y - x, 10000);
}

/// Redeeming more reward tokens (at a reward rate of at most the whole)
/// mints at least as large a reward and earns the merchant at least as much.
pub proof fn law_redeem_token_monotone(td: TokenData, a1: u64, a2: u64, balance: u64, supply: u64)
    requires
        a1 <= a2,
        td.reward_merchant_token <= 10000,
        redeem_token_split(td, a1, balance, supply) is Some,
        redeem_token_split(td, a2, balance, supply) is Some,
    ensures
        ({
            let s1 = redeem_token_split(td, a1, balance, supply).unwrap();
            let s2 = redeem_token_split(td, a2, balance, supply).unwrap();
            &&& s1.reward_amount <= s2.reward_amount
            &&& s1.usdc_value <= s2.usdc_value
            &&& s1.earned_amount <= s2.earned_amount
        }),
{
    let s1 = redeem_token_split(td, a1, balance, supply).unwrap();
    let s2 = redeem_token_split(td, a2, balance, supply).unwrap();
    lemma_share_step(a1 as int, a2 as int, td.reward_merchant_token as int);
    let x1 = a1 - s1.reward_amount;
    let x2 = a2 - s2.reward_amount;
    assert(x1 <= x2);
    lemma_mul_inequality(x1, x2, balance as int);
    lemma_div_is_ordered(x1 * balance, x2 * balance, supply as int);
}

/// The same growth, seen in the operations of `redeem_one_token`: the reward
/// minted and the USDC sent to the merchant's earned account.
pub proof fn law_redeem_one_token_monotone(ctx: RedeemOneToken, a1: u64, a2: u64)
    requires
        a1 <= a2,
        ctx.token_data.reward_merchant_token <= 10000,
        redeem_token_split(ctx.token_data, a1, ctx.reserve_usdc_amount, ctx.token_mint_supply) is Some,
        redeem_token_split(ctx.token_data, a2, ctx.reserve_usdc_amount, ctx.token_mint_supply) is Some,
    ensures
        minted(redeem_one_token_ops(ctx, a1), Role::TokenMint) <= minted(
            redeem_one_token_ops(ctx, a2),
            Role::TokenMint,
        ),
        received(redeem_one_token_ops(ctx, a1), Role::Earned) <= received(
            redeem_one_token_ops(ctx, a2),
            Role::Earned,
        ),
{
    reveal_with_fuel(minted, 5);
    reveal_with_fuel(received, 5);
    law_redeem_token_monotone(ctx.token_data, a1, a2, ctx.reserve_usdc_amount, ctx.token_mint_supply);
}

// ---------------------------------------------------------------------------
// What each instruction's amounts are, in the arithmetic of the instruction:
// when they can be computed in `u64`, and what they are.
// ---------------------------------------------------------------------------
/// Buying `amount` reward tokens costs `amount * (10000 - discount) / 10000`
/// USDC, of which `usdc * sale_fee / 10000` is the fee and the rest goes to
/// the reserve. It can be computed exactly when the discount is at most the
/// whole, both products fit in a `u64` and the fee is at most the price.
pub proof fn law_mint_amounts(td: TokenData, amount: u64)
    ensures
        ({
            let d = td.discount as int;
            let usdc = amount * (10000 - d) / 10000;
            let fee = usdc * td.sale_fee / 10000;
            &&& (mint_split(td, amount) is Some) == (d <= 10000 && amount * (10000 - d) <= u64::MAX
                && usdc * td.sale_fee <= u64::MAX && fee <= usdc)
            &&& mint_split(td, amount) matches Some(m) ==> {
                &&& m.usdc_amount == usdc
                &&& m.fee_amount == fee
                &&& m.reserve_amount == usdc - fee
            }
        }),
{
}

/// Paying `amount` USDC mints a reward of `amount * reward_usdc_token / 10000`,
/// charges the flat transaction fee and leaves the rest to the merchant. It
/// can be computed exactly when the product fits in a `u64`, the reward is at
/// most the amount and the fee at most what the reward leaves.
pub proof fn law_redeem_usdc_amounts(td: TokenData, amount: u64)
    ensures
        ({
            let reward = amount * td.reward_usdc_token / 10000;
            &&& (redeem_usdc_split(td, amount) is Some) == (amount * td.reward_usdc_token <= u64::MAX
                && reward <= amount && td.transaction_fee <= amount - reward)
            &&& redeem_usdc_split(td, amount) matches Some(a) ==> {
                &&& a.reward_amount == reward
                &&& a.fee_amount == td.transaction_fee
                &&& a.earned_amount == amount - reward - td.transaction_fee
            }
        }),
{
}

/// Paying with `amount` reward tokens mints back `amount * reward_merchant_token
/// / 10000`, values the rest at `(amount - reward) * balance / supply` USDC,
/// and gives the merchant that value less the flat fee. It can be computed
/// exactly when both products fit in a `u64`, the reward is at most the
/// amount, the supply is not zero and the fee is at most the value.
pub proof fn law_redeem_token_amounts(td: TokenData, amount: u64, balance: u64, supply: u64)
    ensures
        ({
            let reward = amount * td.reward_merchant_token / 10000;
            let value = (amount - reward) * balance / (supply as int);
            &&& (redeem_token_split(td, amount, balance, supply) is Some) == (amount
                * td.reward_merchant_token <= u64::MAX && reward <= amount && (amount - reward)
                * balance <= u64::MAX && supply != 0 && td.transaction_fee <= value)
            &&& redeem_token_split(td, amount, balance, supply) matches Some(a) ==> {
                &&& a.reward_amount == reward
                &&& a.fee_amount == td.transaction_fee
                &&& a.usdc_value == value
                &&& a.earned_amount == value - td.transaction_fee
            }
        }),
{
}

/// Paying with `token_amount` reward tokens and `usdc_amount` USDC: the tokens'
/// reward is at the merchant-token rate and the USDC's at the USDC rate, both
/// are minted, the tokens less their reward are valued pro rata against the
/// reserve, the merchant earns that value less the fee from the reserve and
/// the USDC less its reward from the user. It can be computed exactly when the
/// three products fit in a `u64`, each reward is at most its amount, the
/// supply is not zero and the fee is at most the value.
pub proof fn law_redeem_two_amounts(
    td: TokenData,
    token_amount: u64,
    usdc_amount: u64,
    balance: u64,
    supply: u64,
)
    ensures
        ({
            let tr = token_amount * td.reward_merchant_token / 10000;
            let ur = usdc_amount * td.reward_usdc_token / 10000;
            let value = (token_amount - tr) * balance / (supply as int);
            &&& (redeem_two_split(td, token_amount, usdc_amount, balance, supply) is Some) == (
            token_amount * td.reward_merchant_token <= u64::MAX && usdc_amount * td.reward_usdc_token
                <= u64::MAX && tr <= token_amount && ur <= usdc_amount && (token_amount - tr)
                * balance <= u64::MAX && supply != 0 && td.transaction_fee <= value)
            &&& redeem_two_split(td, token_amount, usdc_amount, balance, supply) matches Some(a)
                ==> {
                &&& a.token_reward_amount == tr
                &&& a.usdc_reward_amount == ur
                &&& a.total_reward_amount == tr + ur
                &&& a.usdc_value == value
                &&& a.fee_amount == td.transaction_fee
                &&& a.earned_amount == value - td.transaction_fee
                &&& a.usdc_earned_amount == usdc_amount - ur
            }
        }),
{
}

/// Paying with merchant tokens, generic tokens and USDC at the merchant's
/// rates: each reward is at its own rate and the three are minted together;
/// each kind of token less its reward is valued pro rata against its own
/// reserve, and the generic reward's worth moves to the merchant reserve; the
/// user pays the fee and the USDC less its reward and the fee. It can be
/// computed exactly when every product fits in a `u64`, both supplies are
/// not zero, each reward is at most its amount and the fee is at most what
/// the USDC reward leaves. How much the merchant tokens are worth plays no
/// part in it.
pub proof fn law_redeem_three_amounts(
    td: TokenData,
    m: u64,
    g: u64,
    u: u64,
    mb: u64,
    ms: u64,
    gb: u64,
    gs: u64,
)
    ensures
        ({
            let mr = m * td.reward_merchant_token / 10000;
            let gr = g * td.reward_generic_token / 10000;
            let ur = u * td.reward_usdc_token / 10000;
            &&& (redeem_three_split(td, m, g, u, mb, ms, gb, gs) is Some) == (m
                * td.reward_merchant_token <= u64::MAX && g * td.reward_generic_token <= u64::MAX
                && u * td.reward_usdc_token <= u64::MAX && mr <= m && gr <= g && ur <= u
                && td.transaction_fee <= u - ur && (m - mr) * mb <= u64::MAX && ms != 0 && (g - gr)
                * gb <= u64::MAX && gr * gb <= u64::MAX && gs != 0)
            &&& redeem_three_split(td, m, g, u, mb, ms, gb, gs) matches Some(a) ==> {
                &&& a.merchant_token_reward_amount == mr
                &&& a.generic_token_reward_amount == gr
                &&& a.usdc_reward_amount == ur
                &&& a.total_reward_amount == mr + gr + ur
                &&& a.merchant_usdc_earned == (m - mr) * mb / (ms as int)
                &&& a.generic_usdc_earned == (g - gr) * gb / (gs as int)
                &&& a.generic_usdc_reward == gr * gb / (gs as int)
                &&& a.fee_amount == td.transaction_fee
                &&& a.usdc_earned_amount == u - ur - td.transaction_fee
            }
        }),
{
    lemma_share_fits(m, td.reward_merchant_token);
    lemma_share_fits(g, td.reward_generic_token);
    lemma_share_fits(u, td.reward_usdc_token);
}

/// Paying with reward tokens and USDC mints exactly the two rewards: the
/// tokens spent at the merchant-token rate and the USDC spent at the USDC rate.
pub proof fn law_redeem_two_token_mints_both_rewards(
    ctx: RedeemTwoToken,
    token_amount: u64,
    usdc_amount: u64,
)
    requires
        redeem_two_split(
            ctx.token_data,
            token_amount,
            usdc_amount,
            ctx.reserve_usdc_amount,
            ctx.token_mint_supply,
        ) is Some,
    ensures
        minted(redeem_two_token_ops(ctx, token_amount, usdc_amount), Role::TokenMint) == token_amount
            * ctx.token_data.reward_merchant_token / 10000 + usdc_amount
            * ctx.token_data.reward_usdc_token / 10000,
        received(redeem_two_token_ops(ctx, token_amount, usdc_amount), Role::Earned) == ((
        token_amount - token_amount * ctx.token_data.reward_merchant_token / 10000)
            * ctx.reserve_usdc_amount / (ctx.token_mint_supply as int) - ctx.token_data.transaction_fee)
            + (usdc_amount - usdc_amount * ctx.token_data.reward_usdc_token / 10000),
{
    reveal_with_fuel(minted, 7);
    reveal_with_fuel(received, 7);
    law_redeem_two_amounts(
        ctx.token_data,
        token_amount,
        usdc_amount,
        ctx.reserve_usdc_amount,
        ctx.token_mint_supply,
    );
}

// ---------------------------------------------------------------------------
// Where every amount of each instruction goes, in the instruction's own
// arithmetic.
// ---------------------------------------------------------------------------
/// Buying reward tokens: the tokens bought are minted; the user pays the
/// discounted price; the treasury gets the sale fee on it and the reserve the rest.
pub proof fn law_mint_token_ledger(ctx: MintToken, amount: u64)
    requires
        mint_split(ctx.token_data, amount) is Some,
    ensures
        ({
            let usdc = amount * (10000 - ctx.token_data.discount) / 10000;
            let fee = usdc * ctx.token_data.sale_fee / 10000;
            mint_token_ops(ctx, ctx.treasury_account.bytes@, amount) matches Ok((ops, false)) && {
                &&& minted(ops, Role::TokenMint) == amount
                &&& sent(ops, Role::UserUsdc) == usdc
                &&& received(ops, Role::Treasury) == fee
                &&& received(ops, Role::Reserve) == usdc - fee
            }
        }),
{
    reveal_with_fuel(sent, 4);
    reveal_with_fuel(received, 4);
    reveal_with_fuel(minted, 4);
    law_mint_amounts(ctx.token_data, amount);
}

/// Paying in USDC: the reward at the USDC rate is minted and its worth put in
/// the reserve; the treasury gets the flat fee and the merchant the rest.
pub proof fn law_redeem_usdc_ledger(ctx: RedeemUsdc, amount: u64)
    requires
        redeem_usdc_split(ctx.token_data, amount) is Some,
    ensures
        ({
            let reward = amount * ctx.token_data.reward_usdc_token / 10000;
            let fee = ctx.token_data.transaction_fee;
            redeem_usdc_ops(ctx, ctx.treasury_account.bytes@, amount) matches Ok((ops, false)) && {
                &&& minted(ops, Role::TokenMint) == reward
                &&& sent(ops, Role::UserUsdc) == amount
                &&& received(ops, Role::Treasury) == fee
                &&& received(ops, Role::Reserve) == reward
                &&& received(ops, Role::Earned) == amount - reward - fee
            }
        }),
{
    reveal_with_fuel(sent, 5);
    reveal_with_fuel(received, 5);
    reveal_with_fuel(minted, 5);
    law_redeem_usdc_amounts(ctx.token_data, amount);
}

/// Paying with reward tokens: all are burned and the reward at the
/// merchant-token rate minted back; the reserve pays the pro-rata value of
/// the rest, the flat fee of it to the treasury and the remainder to the merchant.
pub proof fn law_redeem_one_token_ledger(ctx: RedeemOneToken, amount: u64)
    requires
        redeem_token_split(
            ctx.token_data,
            amount,
            ctx.reserve_usdc_amount,
            ctx.token_mint_supply,
        ) is Some,
    ensures
        ({
            let ops = redeem_one_token_ops(ctx, amount);
            let reward = amount * ctx.token_data.reward_merchant_token / 10000;
            let value = (amount - reward) * ctx.reserve_usdc_amount / (ctx.token_mint_supply as int);
            let fee = ctx.token_data.transaction_fee;
            &&& burned(ops, Role::TokenMint) == amount
            &&& minted(ops, Role::TokenMint) == reward
            &&& sent(ops, Role::Reserve) == value
            &&& received(ops, Role::Treasury) == fee
            &&& received(ops, Role::Earned) == value - fee
        }),
{
    reveal_with_fuel(sent, 5);
    reveal_with_fuel(received, 5);
    reveal_with_fuel(minted, 5);
    reveal_with_fuel(burned, 5);
    law_redeem_token_amounts(
        ctx.token_data,
        amount,
        ctx.reserve_usdc_amount,
        ctx.token_mint_supply,
    );
}

/// Paying a merchant with generic tokens: all are burned; the reward at the
/// generic token's rate is minted in the merchant's token; the generic reserve
/// pays the pro-rata value of the rest, the generic token's fee of it to the
/// treasury and the remainder to the merchant.
pub proof fn law_redeem_one_generic_token_ledger(ctx: RedeemOneGenericToken, amount: u64)
    requires
        redeem_token_split(
            ctx.generic_token_data,
            amount,
            ctx.generic_reserve_usdc_amount,
            ctx.generic_token_mint_supply,
        ) is Some,
    ensures
        ({
            let ops = redeem_one_generic_token_ops(ctx, amount);
            let reward = amount * ctx.generic_token_data.reward_merchant_token / 10000;
            let value = (amount - reward) * ctx.generic_reserve_usdc_amount / (
            ctx.generic_token_mint_supply as int);
            let fee = ctx.generic_token_data.transaction_fee;
            &&& burned(ops, Role::GenericTokenMint) == amount
            &&& minted(ops, Role::TokenMint) == reward
            &&& sent(ops, Role::GenericReserve) == value
            &&& received(ops, Role::Treasury) == fee
            &&& received(ops, Role::Earned) == value - fee
        }),
{
    reveal_with_fuel(sent, 5);
    reveal_with_fuel(received, 5);
    reveal_with_fuel(minted, 5);
    reveal_with_fuel(burned, 5);
    law_redeem_token_amounts(
        ctx.generic_token_data,
        amount,
        ctx.generic_reserve_usdc_amount,
        ctx.generic_token_mint_supply,
    );
}

/// Paying with reward tokens and USDC: the tokens are burned; both rewards
/// are minted; the reserve pays the tokens' pro-rata value, the fee of it to
/// the treasury and the rest to the merchant; the user pays the USDC, its
/// reward's worth to the reserve and the rest to the merchant.
pub proof fn law_redeem_two_token_ledger(ctx: RedeemTwoToken, token_amount: u64, usdc_amount: u64)
    requires
        redeem_two_split(
            ctx.token_data,
            token_amount,
            usdc_amount,
            ctx.reserve_usdc_amount,
            ctx.token_mint_supply,
        ) is Some,
    ensures
        ({
            let ops = redeem_two_token_ops(ctx, token_amount, usdc_amount);
            let tr = token_amount * ctx.token_data.reward_merchant_token / 10000;
            let ur = usdc_amount * ctx.token_data.reward_usdc_token / 10000;
            let value = (token_amount - tr) * ctx.reserve_usdc_amount / (
            ctx.token_mint_supply as int);
            let fee = ctx.token_data.transaction_fee;
            &&& burned(ops, Role::TokenMint) == token_amount
            &&& minted(ops, Role::TokenMint) == tr + ur
            &&& sent(ops, Role::Reserve) == value
            &&& sent(ops, Role::UserUsdc) == usdc_amount
            &&& received(ops, Role::Treasury) == fee
            &&& received(ops, Role::Reserve) == ur
            &&& received(ops, Role::Earned) == (value - fee) + (usdc_amount - ur)
        }),
{
    reveal_with_fuel(sent, 7);
    reveal_with_fuel(received, 7);
    reveal_with_fuel(minted, 7);
    reveal_with_fuel(burned, 7);
    law_redeem_two_amounts(
        ctx.token_data,
        token_amount,
        usdc_amount,
        ctx.reserve_usdc_amount,
        ctx.token_mint_supply,
    );
}

/// Paying with merchant tokens, generic tokens and USDC: both kinds of
/// tokens are burned and the three rewards minted; the merchant reserve pays
/// the merchant tokens' pro-rata value to the merchant; the generic reserve
/// pays the generic tokens' value to the merchant and their reward's worth to
/// the merchant reserve; the user pays the USDC: the fee to the treasury, the
/// USDC reward's worth to the merchant reserve and the rest to the merchant.
pub proof fn law_redeem_three_token_ledger(ctx: RedeemThreeToken, m: u64, g: u64, u: u64)
    requires
        redeem_three_split(
            ctx.merchant_token_data,
            m,
            g,
            u,
            ctx.merchant_reserve_usdc_amount,
            ctx.merchant_token_mint_supply,
            ctx.generic_reserve_usdc_amount,
            ctx.generic_token_mint_supply,
        ) is Some,
    ensures
        ({
            let ops = redeem_three_token_ops(ctx, m, g, u);
            let td = ctx.merchant_token_data;
            let mr = m * td.reward_merchant_token / 10000;
            let gr = g * td.reward_generic_token / 10000;
            let ur = u * td.reward_usdc_token / 10000;
            let me = (m - mr) * ctx.merchant_reserve_usdc_amount / (
            ctx.merchant_token_mint_supply as int);
            let ge = (g - gr) * ctx.generic_reserve_usdc_amount / (
            ctx.generic_token_mint_supply as int);
            let gw = gr * ctx.generic_reserve_usdc_amount / (ctx.generic_token_mint_supply as int);
            let fee = td.transaction_fee;
            &&& burned(ops, Role::TokenMint) == m
            &&& burned(ops, Role::GenericTokenMint) == g
            &&& minted(ops, Role::TokenMint) == mr + gr + ur
            &&& sent(ops, Role::Reserve) == me
            &&& sent(ops, Role::GenericReserve) == ge + gw
            &&& sent(ops, Role::UserUsdc) == u
            &&& received(ops, Role::Treasury) == fee
            &&& received(ops, Role::Reserve) == gw + ur
            &&& received(ops, Role::Earned) == me + ge + (u - ur - fee)
        }),
{
    reveal_with_fuel(sent, 10);
    reveal_with_fuel(received, 10);
    reveal_with_fuel(minted, 10);
    reveal_with_fuel(burned, 10);
    law_redeem_three_amounts(
        ctx.merchant_token_data,
        m,
        g,
        u,
        ctx.merchant_reserve_usdc_amount,
        ctx.merchant_token_mint_supply,
        ctx.generic_reserve_usdc_amount,
        ctx.generic_token_mint_supply,
    );
}

} // verus!
