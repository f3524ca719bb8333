use vstd::prelude::*;

use crate::address::{Address, lemma_address_bytes_eq};
use crate::amounts::{
    mint_amounts, mint_split, redeem_three_amounts, redeem_three_split, redeem_token_amounts,
    redeem_token_split, redeem_two_amounts, redeem_two_split, redeem_usdc_amounts, redeem_usdc_split,
};
use crate::ops::{Authority, Role, TokenOp};
use crate::pda::{PdaSeeds, PdaSigner, find_program_address, program_address};
use crate::state::{ErrorCode, TokenData};

verus! {

// ---------------------------------------------------------------------------
// What each instruction reads from its accounts.
// ---------------------------------------------------------------------------
/// Accounts of `init_treasury`: the treasury being created for the USDC mint.
#[derive(Clone, Copy, Debug)]
pub struct InitTreasury {
    pub treasury_usdc_account: Address,
    pub mint: Address,
    pub user: Address,
}

/// Accounts of `new_token`: the new token data account, the accounts the
/// caller claims are its derived mint, earned and reserve accounts, the USDC
/// mint, and the creating user.
#[derive(Clone, Copy, Debug)]
pub struct NewToken {
    pub token_data: Address,
    pub token_mint: Address,
    pub earned_usdc_account: Address,
    pub reserve_usdc_account: Address,
    pub mint: Address,
    pub user: Address,
}

/// Accounts of `mint_token`.
#[derive(Clone, Debug)]
pub struct MintToken {
    pub token_data_key: Address,
    pub token_data: TokenData,
    pub treasury_account: Address,
    pub mint: Address,
}

/// Accounts of `redeem_usdc`.
#[derive(Clone, Debug)]
pub struct RedeemUsdc {
    pub token_data_key: Address,
    pub token_data: TokenData,
    pub treasury_account: Address,
    pub mint: Address,
}

/// Accounts of `redeem_one_token`, with the reserve's USDC balance and the
/// token mint's supply as they stand before the instruction.
#[derive(Clone, Debug)]
pub struct RedeemOneToken {
    pub token_data_key: Address,
    pub token_data: TokenData,
    pub mint: Address,
    pub reserve_usdc_amount: u64,
    pub token_mint_supply: u64,
}

/// Accounts of `redeem_one_generic_token`: generic tokens are spent, the
/// merchant (`token_data`) earns and mints its reward token.
#[derive(Clone, Debug)]
pub struct RedeemOneGenericToken {
    pub generic_token_data_key: Address,
    pub generic_token_data: TokenData,
    pub token_data_key: Address,
    pub token_data: TokenData,
    pub mint: Address,
    pub generic_reserve_usdc_amount: u64,
    pub generic_token_mint_supply: u64,
}

/// Accounts of `redeem_two_token`.
#[derive(Clone, Debug)]
pub struct RedeemTwoToken {
    pub token_data_key: Address,
    pub token_data: TokenData,
    pub mint: Address,
    pub reserve_usdc_amount: u64,
    pub token_mint_supply: u64,
}

/// Accounts of `redeem_three_token`.
#[derive(Clone, Debug)]
pub struct RedeemThreeToken {
    pub merchant_token_data_key: Address,
    pub merchant_token_data: TokenData,
    pub generic_token_data_key: Address,
    pub generic_token_data: TokenData,
    pub mint: Address,
    pub merchant_reserve_usdc_amount: u64,
    pub merchant_token_mint_supply: u64,
    pub generic_reserve_usdc_amount: u64,
    pub generic_token_mint_supply: u64,
}

/// Accounts of `withdraw`, with the earned account's USDC balance.
#[derive(Clone, Debug)]
pub struct Withdraw {
    pub token_data_key: Address,
    pub token_data: TokenData,
    pub mint: Address,
    pub earned_usdc_amount: u64,
}

/// Accounts of `update_token_data`.
#[derive(Clone, Debug)]
pub struct UpdateTokenData {
    pub token_data: TokenData,
    pub user: Address,
}

// ---------------------------------------------------------------------------
// Signers.
// ---------------------------------------------------------------------------
/// The token mint of `token_data`, signing as its own authority.
pub open spec fn mint_signer(token_data_key: Address, td: TokenData) -> PdaSigner {
    PdaSigner { seeds: PdaSeeds::Mint { token_data: token_data_key }, bump: td.mint_bump }
}

/// The USDC reserve of `token_data`, signing as its own authority.
pub open spec fn reserve_signer(token_data_key: Address, mint: Address, td: TokenData) -> PdaSigner {
    PdaSigner { seeds: PdaSeeds::Reserve { token_data: token_data_key, mint }, bump: td.reserve_bump }
}

/// The earned USDC account of `token_data`, signing as its own authority.
pub open spec fn earned_signer(token_data_key: Address, mint: Address, td: TokenData) -> PdaSigner {
    PdaSigner { seeds: PdaSeeds::Earned { token_data: token_data_key, mint }, bump: td.earned_bump }
}

fn make_mint_signer(token_data_key: Address, td: &TokenData) -> (s: PdaSigner)
    ensures
        s == mint_signer(token_data_key, *td),
{
    PdaSigner { seeds: PdaSeeds::Mint { token_data: token_data_key }, bump: td.mint_bump }
}

fn make_reserve_signer(token_data_key: Address, mint: Address, td: &TokenData) -> (s: PdaSigner)
    ensures
        s == reserve_signer(token_data_key, mint, *td),
{
    PdaSigner { seeds: PdaSeeds::Reserve { token_data: token_data_key, mint }, bump: td.reserve_bump }
}

/// The token operations an instruction carries out, in order; where
/// `then_abort` is set the instruction aborts after them (the runtime panics
/// there, on arithmetic that leaves the range of `u64`).
#[derive(Clone, Debug, PartialEq)]
pub struct Plan {
    pub ops: Vec<TokenOp>,
    pub then_abort: bool,
}

/// The view of a planned instruction: its operations and whether it then
/// aborts, or the error it fails with.
pub open spec fn plan_view(r: Result<Plan, ErrorCode>) -> Result<(Seq<TokenOp>, bool), ErrorCode> {
    match r {
        Ok(plan) => Ok((plan.ops@, plan.then_abort)),
        Err(e) => Err(e),
    }
}

// ---------------------------------------------------------------------------
// init_treasury
// ---------------------------------------------------------------------------
/// Creating the treasury takes no step of the program's own: the account is
/// created and checked by the framework.
pub fn init_treasury(ctx: &InitTreasury) -> (r: Result<(), ErrorCode>)
    ensures
        r == Ok::<(), ErrorCode>(()),
{
    Ok(())
}

// ---------------------------------------------------------------------------
// new_token
// ---------------------------------------------------------------------------
/// The token data that `new_token` stores, given the addresses derived for
/// the token's mint, earned and reserve accounts; `PDA` where a provided
/// account is not the one derived (checked in that order).
pub open spec fn new_token_result(
    ctx: NewToken,
    token_pda: Seq<u8>,
    token_bump: u8,
    earned_pda: Seq<u8>,
    earned_bump: u8,
    reserve_pda: Seq<u8>,
    reserve_bump: u8,
    name: String,
    transaction_fee: u64,
    sale_fee: u64,
    discount: u64,
    reward_generic_token: u64,
    reward_merchant_token: u64,
    reward_usdc_token: u64,
) -> Result<TokenData, ErrorCode> {
    if token_pda != ctx.token_mint.bytes@ || earned_pda != ctx.earned_usdc_account.bytes@
        || reserve_pda != ctx.reserve_usdc_account.bytes@ {
        Err(ErrorCode::PDA)
    } else {
        Ok(
            TokenData {
                name,
                user: ctx.user,
                mint: ctx.token_mint,
                earned: ctx.earned_usdc_account,
                reserve: ctx.reserve_usdc_account,
                mint_bump: token_bump,
                earned_bump,
                reserve_bump,
                transaction_fee,
                sale_fee,
                discount,
                reward_generic_token,
                reward_merchant_token,
                reward_usdc_token,
            },
        )
    }
}

/// The seeds of the three accounts derived for a new token.
pub open spec fn new_token_seeds(ctx: NewToken) -> (PdaSeeds, PdaSeeds, PdaSeeds) {
    (
        PdaSeeds::Mint { token_data: ctx.token_data },
        PdaSeeds::Earned { token_data: ctx.token_data, mint: ctx.mint },
        PdaSeeds::Reserve { token_data: ctx.token_data, mint: ctx.mint },
    )
}

/// `new_token` once the three addresses are derived.
pub fn new_token_given_addresses(
    ctx: &NewToken,
    token_pda: (Address, u8),
    earned_pda: (Address, u8),
    reserve_pda: (Address, u8),
    name: String,
    transaction_fee: u64,
    sale_fee: u64,
    discount: u64,
    reward_generic_token: u64,
    reward_merchant_token: u64,
    reward_usdc_token: u64,
) -> (r: Result<TokenData, ErrorCode>)
    ensures
        r == new_token_result(
            *ctx,
            token_pda.0.bytes@,
            token_pda.1,
            earned_pda.0.bytes@,
            earned_pda.1,
            reserve_pda.0.bytes@,
            reserve_pda.1,
            name,
            transaction_fee,
            sale_fee,
            discount,
            reward_generic_token,
            reward_merchant_token,
            reward_usdc_token,
        ),
{
    proof {
        lemma_address_bytes_eq(token_pda.0, ctx.token_mint);
        lemma_address_bytes_eq(earned_pda.0, ctx.earned_usdc_account);
        lemma_address_bytes_eq(reserve_pda.0, ctx.reserve_usdc_account);
    }
    if !(token_pda.0 == ctx.token_mint) {
        return Err(ErrorCode::PDA);
    }
    if !(earned_pda.0 == ctx.earned_usdc_account) {
        return Err(ErrorCode::PDA);
    }
    if !(reserve_pda.0 == ctx.reserve_usdc_account) {
        return Err(ErrorCode::PDA);
    }
    Ok(
        TokenData {
            name,
            user: ctx.user,
            mint: token_pda.0,
            earned: earned_pda.0,
            reserve: reserve_pda.0,
            mint_bump: token_pda.1,
            earned_bump: earned_pda.1,
            reserve_bump: reserve_pda.1,
            transaction_fee,
            sale_fee,
            discount,
            reward_generic_token,
            reward_merchant_token,
            reward_usdc_token,
        },
    )
}

/// Derives the token's mint, earned and reserve addresses under `program_id`,
/// checks them against the provided accounts and builds the token data.
/// `None` where a derivation finds no bump (the runtime aborts there).
pub fn new_token(
    ctx: &NewToken,
    program_id: &Address,
    name: String,
    transaction_fee: u64,
    sale_fee: u64,
    discount: u64,
    reward_generic_token: u64,
    reward_merchant_token: u64,
    reward_usdc_token: u64,
) -> (r: Option<Result<TokenData, ErrorCode>>)
    ensures
        ({
            let (ts, es, rs) = new_token_seeds(*ctx);
            match (
                program_address(ts.seed_list(), program_id.bytes@),
                program_address(es.seed_list(), program_id.bytes@),
                program_address(rs.seed_list(), program_id.bytes@),
            ) {
                (Some((t, tb)), Some((e, eb)), Some((s, sb))) => r == Some(
                    new_token_result(
                        *ctx,
                        t,
                        tb,
                        e,
                        eb,
                        s,
                        sb,
                        name,
                        transaction_fee,
                        sale_fee,
                        discount,
                        reward_generic_token,
                        reward_merchant_token,
                        reward_usdc_token,
                    ),
                ),
                _ => r is None,
            }
        }),
{
    let token = find_program_address(&PdaSeeds::Mint { token_data: ctx.token_data }, program_id);
    let earned = find_program_address(
        &PdaSeeds::Earned { token_data: ctx.token_data, mint: ctx.mint },
        program_id,
    );
    let reserve = find_program_address(
        &PdaSeeds::Reserve { token_data: ctx.token_data, mint: ctx.mint },
        program_id,
    );
    match (token, earned, reserve) {
        (Some(t), Some(e), Some(s)) => Some(
            new_token_given_addresses(
                ctx,
                t,
                e,
                s,
                name,
                transaction_fee,
                sale_fee,
                discount,
                reward_generic_token,
                reward_merchant_token,
                reward_usdc_token,
            ),
        ),
        _ => None,
    }
}

// ---------------------------------------------------------------------------
// mint_token
// ---------------------------------------------------------------------------
/// Minting `amount` reward tokens to the user, signed by the token mint.
pub open spec fn mint_reward_op(ctx: MintToken, amount: u64) -> TokenOp {
    TokenOp::MintTo {
        mint: Role::TokenMint,
        to: Role::UserToken,
        authority: Authority::Pda(mint_signer(ctx.token_data_key, ctx.token_data)),
        amount,
    }
}

/// Buying `amount` reward tokens with USDC, given the derived treasury
/// address: `PDA` where the provided treasury is not it; else mint the
/// tokens to the user, and then move the fee and the rest of the discounted
/// price from the user's USDC to the treasury and to the reserve. The
/// amounts are computed after the mint: where they leave the range of `u64`
/// the instruction aborts after minting.
pub open spec fn mint_token_ops(ctx: MintToken, treasury: Seq<u8>, amount: u64) -> Result<
    (Seq<TokenOp>, bool),
    ErrorCode,
> {
    if treasury != ctx.treasury_account.bytes@ {
        Err(ErrorCode::PDA)
    } else {
        match mint_split(ctx.token_data, amount) {
            None => Ok((seq![mint_reward_op(ctx, amount)], true)),
            Some(m) => Ok(
                (
                    seq![
                        mint_reward_op(ctx, amount),
                        TokenOp::Transfer {
                            from: Role::UserUsdc,
                            to: Role::Treasury,
                            authority: Authority::User,
                            amount: m.fee_amount,
                        },
                        TokenOp::Transfer {
                            from: Role::UserUsdc,
                            to: Role::Reserve,
                            authority: Authority::User,
                            amount: m.reserve_amount,
                        },
                    ],
                    false,
                ),
            ),
        }
    }
}

/// `mint_token` once the treasury address is derived.
pub fn mint_token_given_treasury(ctx: &MintToken, treasury: &Address, amount: u64) -> (r: Result<
    Plan,
    ErrorCode,
>)
    ensures
        plan_view(r) == mint_token_ops(*ctx, treasury.bytes@, amount),
{
    proof {
        lemma_address_bytes_eq(*treasury, ctx.treasury_account);
    }
    if !(*treasury == ctx.treasury_account) {
        return Err(ErrorCode::PDA);
    }
    let mint_op = TokenOp::MintTo {
        mint: Role::TokenMint,
        to: Role::UserToken,
        authority: Authority::Pda(make_mint_signer(ctx.token_data_key, &ctx.token_data)),
        amount,
    };
    match mint_amounts(&ctx.token_data, amount) {
        None => {
            let ops = vec![mint_op];
            assert(ops@ =~= seq![mint_reward_op(*ctx, amount)]);
            Ok(Plan { ops, then_abort: true })
        },
        Some(m) => {
            let ops = vec![
                mint_op,
                TokenOp::Transfer {
                    from: Role::UserUsdc,
                    to: Role::Treasury,
                    authority: Authority::User,
                    amount: m.fee_amount,
                },
                TokenOp::Transfer {
                    from: Role::UserUsdc,
                    to: Role::Reserve,
                    authority: Authority::User,
                    amount: m.reserve_amount,
                },
            ];
            let plan = Plan { ops, then_abort: false };
            assert(plan_view(Ok(plan)) == mint_token_ops(*ctx, treasury.bytes@, amount));
            Ok(plan)
        },
    }
}

/// Derives the treasury address of the USDC mint under `program_id` and plans
/// `mint_token`; `None` where the derivation finds no bump (the runtime
/// aborts there).
pub fn mint_token(ctx: &MintToken, program_id: &Address, amount: u64) -> (r: Option<
    Result<Plan, ErrorCode>,
>)
    ensures
        match program_address(PdaSeeds::Treasury { mint: ctx.mint }.seed_list(), program_id.bytes@) {
            None => r is None,
            Some((t, _)) => r matches Some(res) && plan_view(res) == mint_token_ops(*ctx, t, amount),
        },
{
    match find_program_address(&PdaSeeds::Treasury { mint: ctx.mint }, program_id) {
        None => None,
        Some((treasury, _bump)) => Some(mint_token_given_treasury(ctx, &treasury, amount)),
    }
}

// ---------------------------------------------------------------------------
// redeem_usdc
// ---------------------------------------------------------------------------
/// Paying `amount` USDC, given the derived treasury address: `PDA` where the
/// provided treasury is not it; else mint the reward to the user, and move
/// the fee to the treasury, the reward's worth to the reserve and the rest to
/// the merchant's earned account, all from the user's USDC. The amounts are
/// computed before any operation: where they leave the range of `u64` the
/// instruction aborts with no operation.
pub open spec fn redeem_usdc_ops(ctx: RedeemUsdc, treasury: Seq<u8>, amount: u64) -> Result<
    (Seq<TokenOp>, bool),
    ErrorCode,
> {
    if treasury != ctx.treasury_account.bytes@ {
        Err(ErrorCode::PDA)
    } else {
        match redeem_usdc_split(ctx.token_data, amount) {
            None => Ok((Seq::empty(), true)),
            Some(a) => Ok(
                (
                    seq![
                        TokenOp::MintTo {
                            mint: Role::TokenMint,
                            to: Role::UserToken,
                            authority: Authority::Pda(mint_signer(ctx.token_data_key, ctx.token_data)),
                            amount: a.reward_amount,
                        },
                        TokenOp::Transfer {
                            from: Role::UserUsdc,
                            to: Role::Treasury,
                            authority: Authority::User,
                            amount: a.fee_amount,
                        },
                        TokenOp::Transfer {
                            from: Role::UserUsdc,
                            to: Role::Reserve,
                            authority: Authority::User,
                            amount: a.reward_amount,
                        },
                        TokenOp::Transfer {
                            from: Role::UserUsdc,
                            to: Role::Earned,
                            authority: Authority::User,
                            amount: a.earned_amount,
                        },
                    ],
                    false,
                ),
            ),
        }
    }
}

/// `redeem_usdc` once the treasury address is derived.
pub fn redeem_usdc_given_treasury(ctx: &RedeemUsdc, treasury: &Address, amount: u64) -> (r: Result<
    Plan,
    ErrorCode,
>)
    ensures
        plan_view(r) == redeem_usdc_ops(*ctx, treasury.bytes@, amount),
{
    proof {
        lemma_address_bytes_eq(*treasury, ctx.treasury_account);
    }
    if !(*treasury == ctx.treasury_account) {
        return Err(ErrorCode::PDA);
    }
    let a = match redeem_usdc_amounts(&ctx.token_data, amount) {
        Some(a) => a,
        None => {
            let ops: Vec<TokenOp> = Vec::new();
            assert(ops@ =~= Seq::<TokenOp>::empty());
            return Ok(Plan { ops, then_abort: true });
        },
    };
    let ops = vec![
        TokenOp::MintTo {
            mint: Role::TokenMint,
            to: Role::UserToken,
            authority: Authority::Pda(make_mint_signer(ctx.token_data_key, &ctx.token_data)),
            amount: a.reward_amount,
        },
        TokenOp::Transfer {
            from: Role::UserUsdc,
            to: Role::Treasury,
            authority: Authority::User,
            amount: a.fee_amount,
        },
        TokenOp::Transfer {
            from: Role::UserUsdc,
            to: Role::Reserve,
            authority: Authority::User,
            amount: a.reward_amount,
        },
        TokenOp::Transfer {
            from: Role::UserUsdc,
            to: Role::Earned,
            authority: Authority::User,
            amount: a.earned_amount,
        },
    ];
    let plan = Plan { ops, then_abort: false };
    assert(plan_view(Ok(plan)) == redeem_usdc_ops(*ctx, treasury.bytes@, amount));
    Ok(plan)
}

/// Derives the treasury address of the USDC mint under `program_id` and plans
/// `redeem_usdc`; `None` where the derivation finds no bump (the runtime
/// aborts there).
pub fn redeem_usdc(ctx: &RedeemUsdc, program_id: &Address, amount: u64) -> (r: Option<
    Result<Plan, ErrorCode>,
>)
    ensures
        match program_address(PdaSeeds::Treasury { mint: ctx.mint }.seed_list(), program_id.bytes@) {
            None => r is None,
            Some((t, _)) => r matches Some(res) && plan_view(res) == redeem_usdc_ops(*ctx, t, amount),
        },
{
    match find_program_address(&PdaSeeds::Treasury { mint: ctx.mint }, program_id) {
        None => None,
        Some((treasury, _bump)) => Some(redeem_usdc_given_treasury(ctx, &treasury, amount)),
    }
}

// ---------------------------------------------------------------------------
// redeem_one_token
// ---------------------------------------------------------------------------
/// Paying with `amount` reward tokens: burn them, move the fee and the
/// merchant's earnings from the token's reserve (signing as the reserve) to
/// the treasury and to the earned account, and mint the reward to the user.
pub open spec fn redeem_one_token_ops(ctx: RedeemOneToken, amount: u64) -> Seq<TokenOp> {
    let a = redeem_token_split(
        ctx.token_data,
        amount,
        ctx.reserve_usdc_amount,
        ctx.token_mint_supply,
    ).unwrap();
    let reserve = Authority::Pda(reserve_signer(ctx.token_data_key, ctx.mint, ctx.token_data));
    seq![
        TokenOp::Burn {
            mint: Role::TokenMint,
            from: Role::UserToken,
            authority: Authority::User,
            amount,
        },
        TokenOp::Transfer {
            from: Role::Reserve,
            to: Role::Treasury,
            authority: reserve,
            amount: a.fee_amount,
        },
        TokenOp::Transfer {
            from: Role::Reserve,
            to: Role::Earned,
            authority: reserve,
            amount: a.earned_amount,
        },
        TokenOp::MintTo {
            mint: Role::TokenMint,
            to: Role::UserToken,
            authority: Authority::Pda(mint_signer(ctx.token_data_key, ctx.token_data)),
            amount: a.reward_amount,
        },
    ]
}

/// Plans `redeem_one_token`.
pub fn redeem_one_token(ctx: &RedeemOneToken, amount: u64) -> (ops: Vec<TokenOp>)
    requires
        redeem_token_split(
            ctx.token_data,
            amount,
            ctx.reserve_usdc_amount,
            ctx.token_mint_supply,
        ) is Some,
    ensures
        ops@ == redeem_one_token_ops(*ctx, amount),
{
    let a = redeem_token_amounts(
        &ctx.token_data,
        amount,
        ctx.reserve_usdc_amount,
        ctx.token_mint_supply,
    ).unwrap();
    let reserve = Authority::Pda(make_reserve_signer(ctx.token_data_key, ctx.mint, &ctx.token_data));
    let ops = vec![
        TokenOp::Burn {
            mint: Role::TokenMint,
            from: Role::UserToken,
            authority: Authority::User,
            amount,
        },
        TokenOp::Transfer {
            from: Role::Reserve,
            to: Role::Treasury,
            authority: reserve,
            amount: a.fee_amount,
        },
        TokenOp::Transfer {
            from: Role::Reserve,
            to: Role::Earned,
            authority: reserve,
            amount: a.earned_amount,
        },
        TokenOp::MintTo {
            mint: Role::TokenMint,
            to: Role::UserToken,
            authority: Authority::Pda(make_mint_signer(ctx.token_data_key, &ctx.token_data)),
            amount: a.reward_amount,
        },
    ];
    assert(ops@ =~= redeem_one_token_ops(*ctx, amount));
    ops
}

// ---------------------------------------------------------------------------
// redeem_one_generic_token
// ---------------------------------------------------------------------------
/// Paying a merchant with `amount` generic tokens: burn them, move the fee
/// and the merchant's earnings from the generic reserve (at the generic
/// token's rates) to the treasury and to the merchant's earned account, and
/// mint the reward in the merchant's token to the user.
pub open spec fn redeem_one_generic_token_ops(ctx: RedeemOneGenericToken, amount: u64) -> Seq<
    TokenOp,
> {
    let a = redeem_token_split(
        ctx.generic_token_data,
        amount,
        ctx.generic_reserve_usdc_amount,
        ctx.generic_token_mint_supply,
    ).unwrap();
    let reserve = Authority::Pda(
        reserve_signer(ctx.generic_token_data_key, ctx.mint, ctx.generic_token_data),
    );
    seq![
        TokenOp::Burn {
            mint: Role::GenericTokenMint,
            from: Role::UserGenericToken,
            authority: Authority::User,
            amount,
        },
        TokenOp::Transfer {
            from: Role::GenericReserve,
            to: Role::Treasury,
            authority: reserve,
            amount: a.fee_amount,
        },
        TokenOp::Transfer {
            from: Role::GenericReserve,
            to: Role::Earned,
            authority: reserve,
            amount: a.earned_amount,
        },
        TokenOp::MintTo {
            mint: Role::TokenMint,
            to: Role::UserToken,
            authority: Authority::Pda(mint_signer(ctx.token_data_key, ctx.token_data)),
            amount: a.reward_amount,
        },
    ]
}

/// Plans `redeem_one_generic_token`.
pub fn redeem_one_generic_token(ctx: &RedeemOneGenericToken, amount: u64) -> (ops: Vec<TokenOp>)
    requires
        redeem_token_split(
            ctx.generic_token_data,
            amount,
            ctx.generic_reserve_usdc_amount,
            ctx.generic_token_mint_supply,
        ) is Some,
    ensures
        ops@ == redeem_one_generic_token_ops(*ctx, amount),
{
    let a = redeem_token_amounts(
        &ctx.generic_token_data,
        amount,
        ctx.generic_reserve_usdc_amount,
        ctx.generic_token_mint_supply,
    ).unwrap();
    let reserve = Authority::Pda(
        make_reserve_signer(ctx.generic_token_data_key, ctx.mint, &ctx.generic_token_data),
    );
    let ops = vec![
        TokenOp::Burn {
            mint: Role::GenericTokenMint,
            from: Role::UserGenericToken,
            authority: Authority::User,
            amount,
        },
        TokenOp::Transfer {
            from: Role::GenericReserve,
            to: Role::Treasury,
            authority: reserve,
            amount: a.fee_amount,
        },
        TokenOp::Transfer {
            from: Role::GenericReserve,
            to: Role::Earned,
            authority: reserve,
            amount: a.earned_amount,
        },
        TokenOp::MintTo {
            mint: Role::TokenMint,
            to: Role::UserToken,
            authority: Authority::Pda(make_mint_signer(ctx.token_data_key, &ctx.token_data)),
            amount: a.reward_amount,
        },
    ];
    assert(ops@ =~= redeem_one_generic_token_ops(*ctx, amount));
    ops
}

// ---------------------------------------------------------------------------
// redeem_two_token
// ---------------------------------------------------------------------------
/// Paying with `token_amount` reward tokens and `usdc_amount` USDC: burn the
/// tokens; from the reserve, the fee to the treasury and the tokens' earnings
/// to the merchant; from the user, the USDC less its reward to the merchant
/// and the reward's worth to the reserve; mint both rewards to the user.
pub open spec fn redeem_two_token_ops(
    ctx: RedeemTwoToken,
    token_amount: u64,
    usdc_amount: u64,
) -> Seq<TokenOp> {
    let a = redeem_two_split(
        ctx.token_data,
        token_amount,
        usdc_amount,
        ctx.reserve_usdc_amount,
        ctx.token_mint_supply,
    ).unwrap();
    let reserve = Authority::Pda(reserve_signer(ctx.token_data_key, ctx.mint, ctx.token_data));
    seq![
        TokenOp::Burn {
            mint: Role::TokenMint,
            from: Role::UserToken,
            authority: Authority::User,
            amount: token_amount,
        },
        TokenOp::Transfer {
            from: Role::Reserve,
            to: Role::Treasury,
            authority: reserve,
            amount: a.fee_amount,
        },
        TokenOp::Transfer {
            from: Role::Reserve,
            to: Role::Earned,
            authority: reserve,
            amount: a.earned_amount,
        },
        TokenOp::Transfer {
            from: Role::UserUsdc,
            to: Role::Earned,
            authority: Authority::User,
            amount: a.usdc_earned_amount,
        },
        TokenOp::Transfer {
            from: Role::UserUsdc,
            to: Role::Reserve,
            authority: Authority::User,
            amount: a.usdc_reward_amount,
        },
        TokenOp::MintTo {
            mint: Role::TokenMint,
            to: Role::UserToken,
            authority: Authority::Pda(mint_signer(ctx.token_data_key, ctx.token_data)),
            amount: a.total_reward_amount,
        },
    ]
}

/// Plans `redeem_two_token`.
pub fn redeem_two_token(ctx: &RedeemTwoToken, token_amount: u64, usdc_amount: u64) -> (ops: Vec<
    TokenOp,
>)
    requires
        redeem_two_split(
            ctx.token_data,
            token_amount,
            usdc_amount,
            ctx.reserve_usdc_amount,
            ctx.token_mint_supply,
        ) is Some,
    ensures
        ops@ == redeem_two_token_ops(*ctx, token_amount, usdc_amount),
{
    let a = redeem_two_amounts(
        &ctx.token_data,
        token_amount,
        usdc_amount,
        ctx.reserve_usdc_amount,
        ctx.token_mint_supply,
    ).unwrap();
    let reserve = Authority::Pda(make_reserve_signer(ctx.token_data_key, ctx.mint, &ctx.token_data));
    let ops = vec![
        TokenOp::Burn {
            mint: Role::TokenMint,
            from: Role::UserToken,
            authority: Authority::User,
            amount: token_amount,
        },
        TokenOp::Transfer {
            from: Role::Reserve,
            to: Role::Treasury,
            authority: reserve,
            amount: a.fee_amount,
        },
        TokenOp::Transfer {
            from: Role::Reserve,
            to: Role::Earned,
            authority: reserve,
            amount: a.earned_amount,
        },
        TokenOp::Transfer {
            from: Role::UserUsdc,
            to: Role::Earned,
            authority: Authority::User,
            amount: a.usdc_earned_amount,
        },
        TokenOp::Transfer {
            from: Role::UserUsdc,
            to: Role::Reserve,
            authority: Authority::User,
            amount: a.usdc_reward_amount,
        },
        TokenOp::MintTo {
            mint: Role::TokenMint,
            to: Role::UserToken,
            authority: Authority::Pda(make_mint_signer(ctx.token_data_key, &ctx.token_data)),
            amount: a.total_reward_amount,
        },
    ];
    assert(ops@ =~= redeem_two_token_ops(*ctx, token_amount, usdc_amount));
    ops
}

// ---------------------------------------------------------------------------
// redeem_three_token
// ---------------------------------------------------------------------------
/// Paying a merchant with its own tokens, generic tokens and USDC, at the
/// merchant's rates: burn both kinds of tokens; the merchant reserve pays the
/// merchant tokens' earnings to the earned account; the generic reserve pays
/// the generic tokens' earnings to the earned account and the worth of their
/// reward to the merchant reserve; the user pays the USDC less its reward and
/// the fee to the earned account, the reward's worth to the merchant reserve
/// and the fee to the treasury; merchant tokens are minted to the user.
pub open spec fn redeem_three_token_ops(
    ctx: RedeemThreeToken,
    merchant_token_amount: u64,
    generic_token_amount: u64,
    usdc_amount: u64,
) -> Seq<TokenOp> {
    let a = redeem_three_split(
        ctx.merchant_token_data,
        merchant_token_amount,
        generic_token_amount,
        usdc_amount,
        ctx.merchant_reserve_usdc_amount,
        ctx.merchant_token_mint_supply,
        ctx.generic_reserve_usdc_amount,
        ctx.generic_token_mint_supply,
    ).unwrap();
    let merchant_reserve = Authority::Pda(
        reserve_signer(ctx.merchant_token_data_key, ctx.mint, ctx.merchant_token_data),
    );
    let generic_reserve = Authority::Pda(
        reserve_signer(ctx.generic_token_data_key, ctx.mint, ctx.generic_token_data),
    );
    seq![
        TokenOp::Burn {
            mint: Role::TokenMint,
            from: Role::UserToken,
            authority: Authority::User,
            amount: merchant_token_amount,
        },
        TokenOp::Burn {
            mint: Role::GenericTokenMint,
            from: Role::UserGenericToken,
            authority: Authority::User,
            amount: generic_token_amount,
        },
        TokenOp::Transfer {
            from: Role::Reserve,
            to: Role::Earned,
            authority: merchant_reserve,
            amount: a.merchant_usdc_earned,
        },
        TokenOp::Transfer {
            from: Role::GenericReserve,
            to: Role::Earned,
            authority: generic_reserve,
            amount: a.generic_usdc_earned,
        },
        TokenOp::Transfer {
            from: Role::GenericReserve,
            to: Role::Reserve,
            authority: generic_reserve,
            amount: a.generic_usdc_reward,
        },
        TokenOp::Transfer {
            from: Role::UserUsdc,
            to: Role::Earned,
            authority: Authority::User,
            amount: a.usdc_earned_amount,
        },
        TokenOp::Transfer {
            from: Role::UserUsdc,
            to: Role::Reserve,
            authority: Authority::User,
            amount: a.usdc_reward_amount,
        },
        TokenOp::Transfer {
            from: Role::UserUsdc,
            to: Role::Treasury,
            authority: Authority::User,
            amount: a.fee_amount,
        },
        TokenOp::MintTo {
            mint: Role::TokenMint,
            to: Role::UserToken,
            authority: Authority::Pda(mint_signer(ctx.merchant_token_data_key, ctx.merchant_token_data)),
            amount: a.total_reward_amount,
        },
    ]
}

/// Plans `redeem_three_token`.
pub fn redeem_three_token(
    ctx: &RedeemThreeToken,
    merchant_token_amount: u64,
    generic_token_amount: u64,
    usdc_amount: u64,
) -> (ops: Vec<TokenOp>)
    requires
        redeem_three_split(
            ctx.merchant_token_data,
            merchant_token_amount,
            generic_token_amount,
            usdc_amount,
            ctx.merchant_reserve_usdc_amount,
            ctx.merchant_token_mint_supply,
            ctx.generic_reserve_usdc_amount,
            ctx.generic_token_mint_supply,
        ) is Some,
    ensures
        ops@ == redeem_three_token_ops(
            *ctx,
            merchant_token_amount,
            generic_token_amount,
            usdc_amount,
        ),
{
    let a = redeem_three_amounts(
        &ctx.merchant_token_data,
        merchant_token_amount,
        generic_token_amount,
        usdc_amount,
        ctx.merchant_reserve_usdc_amount,
        ctx.merchant_token_mint_supply,
        ctx.generic_reserve_usdc_amount,
        ctx.generic_token_mint_supply,
    ).unwrap();
    let merchant_reserve = Authority::Pda(
        make_reserve_signer(ctx.merchant_token_data_key, ctx.mint, &ctx.merchant_token_data),
    );
    let generic_reserve = Authority::Pda(
        make_reserve_signer(ctx.generic_token_data_key, ctx.mint, &ctx.generic_token_data),
    );
    let ops = vec![
        TokenOp::Burn {
            mint: Role::TokenMint,
            from: Role::UserToken,
            authority: Authority::User,
            amount: merchant_token_amount,
        },
        TokenOp::Burn {
            mint: Role::GenericTokenMint,
            from: Role::UserGenericToken,
            authority: Authority::User,
            amount: generic_token_amount,
        },
        TokenOp::Transfer {
            from: Role::Reserve,
            to: Role::Earned,
            authority: merchant_reserve,
            amount: a.merchant_usdc_earned,
        },
        TokenOp::Transfer {
            from: Role::GenericReserve,
            to: Role::Earned,
            authority: generic_reserve,
            amount: a.generic_usdc_earned,
        },
        TokenOp::Transfer {
            from: Role::GenericReserve,
            to: Role::Reserve,
            authority: generic_reserve,
            amount: a.generic_usdc_reward,
        },
        TokenOp::Transfer {
            from: Role::UserUsdc,
            to: Role::Earned,
            authority: Authority::User,
            amount: a.usdc_earned_amount,
        },
        TokenOp::Transfer {
            from: Role::UserUsdc,
            to: Role::Reserve,
            authority: Authority::User,
            amount: a.usdc_reward_amount,
        },
        TokenOp::Transfer {
            from: Role::UserUsdc,
            to: Role::Treasury,
            authority: Authority::User,
            amount: a.fee_amount,
        },
        TokenOp::MintTo {
            mint: Role::TokenMint,
            to: Role::UserToken,
            authority: Authority::Pda(
                make_mint_signer(ctx.merchant_token_data_key, &ctx.merchant_token_data),
            ),
            amount: a.total_reward_amount,
        },
    ];
    assert(ops@ =~= redeem_three_token_ops(
        *ctx,
        merchant_token_amount,
        generic_token_amount,
        usdc_amount,
    ));
    ops
}

// ---------------------------------------------------------------------------
// withdraw
// ---------------------------------------------------------------------------
/// Withdrawing: move the whole balance of the earned account, signing as the
/// earned account, to the withdrawal account.
pub open spec fn withdraw_ops(ctx: Withdraw) -> Seq<TokenOp> {
    seq![
        TokenOp::Transfer {
            from: Role::Earned,
            to: Role::WithdrawUsdc,
            authority: Authority::Pda(earned_signer(ctx.token_data_key, ctx.mint, ctx.token_data)),
            amount: ctx.earned_usdc_amount,
        },
    ]
}

/// Plans `withdraw`.
pub fn withdraw(ctx: &Withdraw) -> (ops: Vec<TokenOp>)
    ensures
        ops@ == withdraw_ops(*ctx),
{
    let signer = PdaSigner {
        seeds: PdaSeeds::Earned { token_data: ctx.token_data_key, mint: ctx.mint },
        bump: ctx.token_data.earned_bump,
    };
    let ops = vec![
        TokenOp::Transfer {
            from: Role::Earned,
            to: Role::WithdrawUsdc,
            authority: Authority::Pda(signer),
            amount: ctx.earned_usdc_amount,
        },
    ];
    assert(ops@ =~= withdraw_ops(*ctx));
    ops
}

// ---------------------------------------------------------------------------
// update_token_data
// ---------------------------------------------------------------------------
/// Sets the token's name, discount and USDC reward rate; every other field
/// of the token data, and the signer, stay as they were.
pub fn update_token_data(
    ctx: &mut UpdateTokenData,
    name: String,
    discount: u64,
    reward_usdc_token: u64,
) -> (r: Result<(), ErrorCode>)
    ensures
        r == Ok::<(), ErrorCode>(()),
        final(ctx).token_data == (TokenData {
            name,
            discount,
            reward_usdc_token,
            ..old(ctx).token_data
        }),
        final(ctx).user == old(ctx).user,
{
    ctx.token_data.name = name;
    ctx.token_data.discount = discount;
    ctx.token_data.reward_usdc_token = reward_usdc_token;
    Ok(())
}

} // verus!
