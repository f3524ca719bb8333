use anchor_lang::prelude::Pubkey;
use token3::address::Address;
use token3::amounts::{
    mint_amounts, redeem_three_amounts, redeem_token_amounts, redeem_two_amounts,
    redeem_usdc_amounts, MintAmounts, RedeemTokenAmounts, RedeemUsdcAmounts,
};
use token3::instructions::{
    init_treasury, mint_token, mint_token_given_treasury, new_token, new_token_given_addresses,
    redeem_one_generic_token, redeem_one_token, redeem_three_token, redeem_two_token, redeem_usdc,
    update_token_data, withdraw, InitTreasury, MintToken, NewToken, RedeemOneGenericToken,
    Plan, RedeemOneToken, RedeemThreeToken, RedeemTwoToken, RedeemUsdc, UpdateTokenData, Withdraw,
};
use token3::ops::{Authority, Role, TokenOp};
use token3::pda::{find_program_address, PdaSeeds, PdaSigner};
use token3::state::{ErrorCode, TokenData};

fn addr(b: u8) -> Address {
    Address::new([b; 32])
}

fn token_data() -> TokenData {
    TokenData {
        name: String::from("Coffee"),
        user: addr(1),
        mint: addr(2),
        earned: addr(3),
        reserve: addr(4),
        mint_bump: 250,
        earned_bump: 251,
        reserve_bump: 252,
        transaction_fee: 10,
        sale_fee: 500,
        discount: 1000,
        reward_generic_token: 300,
        reward_merchant_token: 1000,
        reward_usdc_token: 200,
    }
}

fn pubkey(a: &Address) -> Pubkey {
    Pubkey::new_from_array(a.bytes)
}

#[test]
fn address_equality_compares_every_byte() {
    let mut b = [7u8; 32];
    assert!(Address::new(b) == Address::new(b));
    b[31] = 8;
    assert!(Address::new(b) != addr(7));
    b[31] = 7;
    b[0] = 0;
    assert!(Address::new(b) != addr(7));
}

#[test]
fn seeds_are_tag_then_addresses() {
    let s = PdaSeeds::Reserve { token_data: addr(5), mint: addr(6) }.seeds();
    assert_eq!(s, vec![b"RESERVE".to_vec(), vec![5u8; 32], vec![6u8; 32]]);
    let s = PdaSeeds::Treasury { mint: addr(6) }.seeds();
    assert_eq!(s, vec![b"TREASURY".to_vec(), vec![6u8; 32]]);
    let s = PdaSeeds::Mint { token_data: addr(5) }.seeds();
    assert_eq!(s, vec![b"MINT".to_vec(), vec![5u8; 32]]);
    let s = PdaSeeds::Earned { token_data: addr(5), mint: addr(6) }.seeds();
    assert_eq!(s, vec![b"EARNED".to_vec(), vec![5u8; 32], vec![6u8; 32]]);
}

#[test]
fn signer_seeds_end_with_the_bump() {
    let signer = PdaSigner { seeds: PdaSeeds::Mint { token_data: addr(5) }, bump: 254 };
    assert_eq!(signer.signer_seeds(), vec![b"MINT".to_vec(), vec![5u8; 32], vec![254u8]]);
}

#[test]
fn derived_address_matches_the_runtime() {
    let program_id = addr(9);
    let mint = addr(6);
    let (found, bump) =
        find_program_address(&PdaSeeds::Treasury { mint }, &program_id).unwrap();
    let (expected, expected_bump) =
        Pubkey::find_program_address(&[b"TREASURY", &mint.bytes], &pubkey(&program_id));
    assert_eq!(found.bytes, expected.to_bytes());
    assert_eq!(bump, expected_bump);
    assert!(found != program_id);
    assert!(found != mint);
}

#[test]
fn init_treasury_succeeds() {
    let ctx = InitTreasury { treasury_usdc_account: addr(1), mint: addr(2), user: addr(3) };
    assert_eq!(init_treasury(&ctx), Ok(()));
}

#[test]
fn error_message() {
    assert_eq!(ErrorCode::PDA.message(), "PDA not match");
}

// ------------------------------------------------------------------ amounts

#[test]
fn mint_amounts_apply_discount_then_fee() {
    let td = token_data();
    assert_eq!(
        mint_amounts(&td, 1000),
        Some(MintAmounts { usdc_amount: 900, fee_amount: 45, reserve_amount: 855 })
    );
}

#[test]
fn mint_amounts_round_down() {
    let mut td = token_data();
    td.discount = 3333;
    td.sale_fee = 3333;
    // 7 * 6667 / 10000 = 4; 4 * 3333 / 10000 = 1
    assert_eq!(
        mint_amounts(&td, 7),
        Some(MintAmounts { usdc_amount: 4, fee_amount: 1, reserve_amount: 3 })
    );
}

#[test]
fn mint_amounts_edges() {
    let mut td = token_data();
    td.discount = 10001;
    assert_eq!(mint_amounts(&td, 1), None);
    td.discount = 10000;
    assert_eq!(
        mint_amounts(&td, 5),
        Some(MintAmounts { usdc_amount: 0, fee_amount: 0, reserve_amount: 0 })
    );
    td.discount = 0;
    assert_eq!(mint_amounts(&td, u64::MAX), None);
    td.sale_fee = 20000;
    assert_eq!(mint_amounts(&td, 100), None);
    td.sale_fee = 10000;
    assert_eq!(
        mint_amounts(&td, 100),
        Some(MintAmounts { usdc_amount: 100, fee_amount: 100, reserve_amount: 0 })
    );
}

#[test]
fn redeem_usdc_amounts_split_the_payment() {
    let td = token_data();
    assert_eq!(
        redeem_usdc_amounts(&td, 1000),
        Some(RedeemUsdcAmounts { fee_amount: 10, reward_amount: 20, earned_amount: 970 })
    );
    // the fee does not fit in what is left after the reward
    assert_eq!(redeem_usdc_amounts(&td, 9), None);
    let mut td = token_data();
    td.reward_usdc_token = 20000;
    assert_eq!(redeem_usdc_amounts(&td, 100), None);
}

#[test]
fn redeem_token_amounts_pro_rata() {
    let td = token_data();
    // reward 10; (100 - 10) * 500 / 1000 = 45; earned 45 - 10 = 35
    assert_eq!(
        redeem_token_amounts(&td, 100, 500, 1000),
        Some(RedeemTokenAmounts { reward_amount: 10, fee_amount: 10, usdc_value: 45, earned_amount: 35 })
    );
    assert_eq!(redeem_token_amounts(&td, 100, 500, 0), None);
    assert_eq!(redeem_token_amounts(&td, 10, 500, 1000), None);
}

#[test]
fn redeem_two_amounts_example() {
    let td = token_data();
    let a = redeem_two_amounts(&td, 100, 1000, 500, 1000).unwrap();
    assert_eq!(a.token_reward_amount, 10);
    assert_eq!(a.usdc_reward_amount, 20);
    assert_eq!(a.total_reward_amount, 30);
    assert_eq!(a.usdc_value, 45);
    assert_eq!(a.earned_amount, 35);
    assert_eq!(a.usdc_earned_amount, 980);
    assert_eq!(redeem_two_amounts(&td, 100, 1000, 500, 0), None);
}

#[test]
fn redeem_three_amounts_example() {
    let td = token_data();
    let a = redeem_three_amounts(&td, 100, 200, 1000, 500, 1000, 300, 600).unwrap();
    assert_eq!(a.merchant_token_reward_amount, 10);
    assert_eq!(a.generic_token_reward_amount, 6);
    assert_eq!(a.usdc_reward_amount, 20);
    // the three rewards together: 10 + 6 + 20
    assert_eq!(a.total_reward_amount, 36);
    assert_eq!(a.merchant_usdc_earned, 45);
    assert_eq!(a.generic_usdc_earned, 97);
    assert_eq!(a.generic_usdc_reward, 3);
    assert_eq!(a.fee_amount, 10);
    assert_eq!(a.usdc_earned_amount, 970);
    assert_eq!(redeem_three_amounts(&td, u64::MAX, 200, 1000, 500, 1000, 300, 600), None);
    assert_eq!(redeem_three_amounts(&td, 100, 200, 1000, 500, 1000, 300, 0), None);
}

// ------------------------------------------------------------------ instructions

#[test]
fn new_token_stores_the_derived_accounts() {
    let program_id = addr(9);
    let token_data_key = addr(11);
    let mint = addr(6);
    let (t, tb) =
        Pubkey::find_program_address(&[b"MINT", &token_data_key.bytes], &pubkey(&program_id));
    let (e, eb) = Pubkey::find_program_address(
        &[b"EARNED", &token_data_key.bytes, &mint.bytes],
        &pubkey(&program_id),
    );
    let (r, rb) = Pubkey::find_program_address(
        &[b"RESERVE", &token_data_key.bytes, &mint.bytes],
        &pubkey(&program_id),
    );
    let ctx = NewToken {
        token_data: token_data_key,
        token_mint: Address::new(t.to_bytes()),
        earned_usdc_account: Address::new(e.to_bytes()),
        reserve_usdc_account: Address::new(r.to_bytes()),
        mint,
        user: addr(1),
    };
    let td = new_token(&ctx, &program_id, String::from("Tea"), 1, 2, 3, 4, 5, 6)
        .unwrap()
        .unwrap();
    assert_eq!(td.name, "Tea");
    assert_eq!(td.user, addr(1));
    assert_eq!(td.mint.bytes, t.to_bytes());
    assert_eq!(td.earned.bytes, e.to_bytes());
    assert_eq!(td.reserve.bytes, r.to_bytes());
    assert_eq!((td.mint_bump, td.earned_bump, td.reserve_bump), (tb, eb, rb));
    assert_eq!(
        (td.transaction_fee, td.sale_fee, td.discount),
        (1, 2, 3)
    );
    assert_eq!(
        (td.reward_generic_token, td.reward_merchant_token, td.reward_usdc_token),
        (4, 5, 6)
    );

    let wrong = NewToken { earned_usdc_account: addr(3), ..ctx };
    assert_eq!(
        new_token(&wrong, &program_id, String::from("Tea"), 1, 2, 3, 4, 5, 6),
        Some(Err(ErrorCode::PDA))
    );
}

#[test]
fn new_token_checks_each_account() {
    let ctx = NewToken {
        token_data: addr(11),
        token_mint: addr(20),
        earned_usdc_account: addr(21),
        reserve_usdc_account: addr(22),
        mint: addr(6),
        user: addr(1),
    };
    let ok = new_token_given_addresses(
        &ctx, (addr(20), 1), (addr(21), 2), (addr(22), 3), String::from("x"), 0, 0, 0, 0, 0, 0,
    );
    assert!(ok.is_ok());
    for (t, e, r) in [(30u8, 21u8, 22u8), (20, 30, 22), (20, 21, 30)] {
        let res = new_token_given_addresses(
            &ctx, (addr(t), 1), (addr(e), 2), (addr(r), 3), String::from("x"), 0, 0, 0, 0, 0, 0,
        );
        assert_eq!(res, Err(ErrorCode::PDA));
    }
}

fn treasury_of(mint: &Address, program_id: &Address) -> Address {
    let (t, _) = Pubkey::find_program_address(&[b"TREASURY", &mint.bytes], &pubkey(program_id));
    Address::new(t.to_bytes())
}

#[test]
fn mint_token_plan() {
    let program_id = addr(9);
    let mint = addr(6);
    let ctx = MintToken {
        token_data_key: addr(11),
        token_data: token_data(),
        treasury_account: treasury_of(&mint, &program_id),
        mint,
    };
    let plan = mint_token(&ctx, &program_id, 1000).unwrap().unwrap();
    assert!(!plan.then_abort);
    let ops = plan.ops;
    let minter = Authority::Pda(PdaSigner { seeds: PdaSeeds::Mint { token_data: addr(11) }, bump: 250 });
    assert_eq!(
        ops,
        vec![
            TokenOp::MintTo { mint: Role::TokenMint, to: Role::UserToken, authority: minter, amount: 1000 },
            TokenOp::Transfer { from: Role::UserUsdc, to: Role::Treasury, authority: Authority::User, amount: 45 },
            TokenOp::Transfer { from: Role::UserUsdc, to: Role::Reserve, authority: Authority::User, amount: 855 },
        ]
    );
}

#[test]
fn mint_token_refuses_a_wrong_treasury() {
    let program_id = addr(9);
    let ctx = MintToken {
        token_data_key: addr(11),
        token_data: token_data(),
        treasury_account: addr(12),
        mint: addr(6),
    };
    assert_eq!(mint_token(&ctx, &program_id, 1000), Some(Err(ErrorCode::PDA)));
    assert_eq!(mint_token_given_treasury(&ctx, &addr(13), 1000), Err(ErrorCode::PDA));
    assert!(mint_token_given_treasury(&ctx, &addr(12), 1000).is_ok());
}

#[test]
fn redeem_usdc_plan() {
    let program_id = addr(9);
    let mint = addr(6);
    let ctx = RedeemUsdc {
        token_data_key: addr(11),
        token_data: token_data(),
        treasury_account: treasury_of(&mint, &program_id),
        mint,
    };
    let plan = redeem_usdc(&ctx, &program_id, 1000).unwrap().unwrap();
    assert!(!plan.then_abort);
    let ops = plan.ops;
    let minter = Authority::Pda(PdaSigner { seeds: PdaSeeds::Mint { token_data: addr(11) }, bump: 250 });
    assert_eq!(
        ops,
        vec![
            TokenOp::MintTo { mint: Role::TokenMint, to: Role::UserToken, authority: minter, amount: 20 },
            TokenOp::Transfer { from: Role::UserUsdc, to: Role::Treasury, authority: Authority::User, amount: 10 },
            TokenOp::Transfer { from: Role::UserUsdc, to: Role::Reserve, authority: Authority::User, amount: 20 },
            TokenOp::Transfer { from: Role::UserUsdc, to: Role::Earned, authority: Authority::User, amount: 970 },
        ]
    );
    let wrong = RedeemUsdc { treasury_account: addr(12), ..ctx };
    assert_eq!(redeem_usdc(&wrong, &program_id, 1000), Some(Err(ErrorCode::PDA)));
}

#[test]
fn redeem_one_token_plan() {
    let ctx = RedeemOneToken {
        token_data_key: addr(11),
        token_data: token_data(),
        mint: addr(6),
        reserve_usdc_amount: 500,
        token_mint_supply: 1000,
    };
    let reserve = Authority::Pda(PdaSigner {
        seeds: PdaSeeds::Reserve { token_data: addr(11), mint: addr(6) },
        bump: 252,
    });
    let minter = Authority::Pda(PdaSigner { seeds: PdaSeeds::Mint { token_data: addr(11) }, bump: 250 });
    assert_eq!(
        redeem_one_token(&ctx, 100),
        vec![
            TokenOp::Burn { mint: Role::TokenMint, from: Role::UserToken, authority: Authority::User, amount: 100 },
            TokenOp::Transfer { from: Role::Reserve, to: Role::Treasury, authority: reserve, amount: 10 },
            TokenOp::Transfer { from: Role::Reserve, to: Role::Earned, authority: reserve, amount: 35 },
            TokenOp::MintTo { mint: Role::TokenMint, to: Role::UserToken, authority: minter, amount: 10 },
        ]
    );
}

#[test]
fn redeem_one_token_never_overdraws_the_reserve() {
    let mut td = token_data();
    td.transaction_fee = 0;
    td.reward_merchant_token = 0;
    let ctx = RedeemOneToken {
        token_data_key: addr(11),
        token_data: td,
        mint: addr(6),
        reserve_usdc_amount: 777,
        token_mint_supply: 1000,
    };
    let ops = redeem_one_token(&ctx, 1000);
    let out: u64 = ops
        .iter()
        .map(|op| match op {
            TokenOp::Transfer { from: Role::Reserve, amount, .. } => *amount,
            _ => 0,
        })
        .sum();
    assert_eq!(out, 777);
}

#[test]
fn redeem_one_generic_token_plan() {
    let mut generic = token_data();
    generic.reserve_bump = 200;
    generic.reward_merchant_token = 2000;
    generic.transaction_fee = 5;
    let ctx = RedeemOneGenericToken {
        generic_token_data_key: addr(21),
        generic_token_data: generic,
        token_data_key: addr(11),
        token_data: token_data(),
        mint: addr(6),
        generic_reserve_usdc_amount: 1000,
        generic_token_mint_supply: 2000,
    };
    let reserve = Authority::Pda(PdaSigner {
        seeds: PdaSeeds::Reserve { token_data: addr(21), mint: addr(6) },
        bump: 200,
    });
    let minter = Authority::Pda(PdaSigner { seeds: PdaSeeds::Mint { token_data: addr(11) }, bump: 250 });
    // reward 20; (100 - 20) * 1000 / 2000 = 40; earned 35
    assert_eq!(
        redeem_one_generic_token(&ctx, 100),
        vec![
            TokenOp::Burn { mint: Role::GenericTokenMint, from: Role::UserGenericToken, authority: Authority::User, amount: 100 },
            TokenOp::Transfer { from: Role::GenericReserve, to: Role::Treasury, authority: reserve, amount: 5 },
            TokenOp::Transfer { from: Role::GenericReserve, to: Role::Earned, authority: reserve, amount: 35 },
            TokenOp::MintTo { mint: Role::TokenMint, to: Role::UserToken, authority: minter, amount: 20 },
        ]
    );
}

#[test]
fn redeem_two_token_plan() {
    let ctx = RedeemTwoToken {
        token_data_key: addr(11),
        token_data: token_data(),
        mint: addr(6),
        reserve_usdc_amount: 500,
        token_mint_supply: 1000,
    };
    let reserve = Authority::Pda(PdaSigner {
        seeds: PdaSeeds::Reserve { token_data: addr(11), mint: addr(6) },
        bump: 252,
    });
    let minter = Authority::Pda(PdaSigner { seeds: PdaSeeds::Mint { token_data: addr(11) }, bump: 250 });
    assert_eq!(
        redeem_two_token(&ctx, 100, 1000),
        vec![
            TokenOp::Burn { mint: Role::TokenMint, from: Role::UserToken, authority: Authority::User, amount: 100 },
            TokenOp::Transfer { from: Role::Reserve, to: Role::Treasury, authority: reserve, amount: 10 },
            TokenOp::Transfer { from: Role::Reserve, to: Role::Earned, authority: reserve, amount: 35 },
            TokenOp::Transfer { from: Role::UserUsdc, to: Role::Earned, authority: Authority::User, amount: 980 },
            TokenOp::Transfer { from: Role::UserUsdc, to: Role::Reserve, authority: Authority::User, amount: 20 },
            TokenOp::MintTo { mint: Role::TokenMint, to: Role::UserToken, authority: minter, amount: 30 },
        ]
    );
}

#[test]
fn redeem_three_token_plan() {
    let mut generic = token_data();
    generic.reserve_bump = 200;
    let ctx = RedeemThreeToken {
        merchant_token_data_key: addr(11),
        merchant_token_data: token_data(),
        generic_token_data_key: addr(21),
        generic_token_data: generic,
        mint: addr(6),
        merchant_reserve_usdc_amount: 500,
        merchant_token_mint_supply: 1000,
        generic_reserve_usdc_amount: 300,
        generic_token_mint_supply: 600,
    };
    let merchant_reserve = Authority::Pda(PdaSigner {
        seeds: PdaSeeds::Reserve { token_data: addr(11), mint: addr(6) },
        bump: 252,
    });
    let generic_reserve = Authority::Pda(PdaSigner {
        seeds: PdaSeeds::Reserve { token_data: addr(21), mint: addr(6) },
        bump: 200,
    });
    let minter = Authority::Pda(PdaSigner { seeds: PdaSeeds::Mint { token_data: addr(11) }, bump: 250 });
    let ops = redeem_three_token(&ctx, 100, 200, 1000);
    assert_eq!(
        ops,
        vec![
            TokenOp::Burn { mint: Role::TokenMint, from: Role::UserToken, authority: Authority::User, amount: 100 },
            TokenOp::Burn { mint: Role::GenericTokenMint, from: Role::UserGenericToken, authority: Authority::User, amount: 200 },
            TokenOp::Transfer { from: Role::Reserve, to: Role::Earned, authority: merchant_reserve, amount: 45 },
            TokenOp::Transfer { from: Role::GenericReserve, to: Role::Earned, authority: generic_reserve, amount: 97 },
            TokenOp::Transfer { from: Role::GenericReserve, to: Role::Reserve, authority: generic_reserve, amount: 3 },
            TokenOp::Transfer { from: Role::UserUsdc, to: Role::Earned, authority: Authority::User, amount: 970 },
            TokenOp::Transfer { from: Role::UserUsdc, to: Role::Reserve, authority: Authority::User, amount: 20 },
            TokenOp::Transfer { from: Role::UserUsdc, to: Role::Treasury, authority: Authority::User, amount: 10 },
            TokenOp::MintTo { mint: Role::TokenMint, to: Role::UserToken, authority: minter, amount: 36 },
        ]
    );
    // the user pays exactly the USDC amount; the generic reserve pays at most
    // the pro-rata value of the generic tokens (200 * 300 / 600 = 100)
    let mut user_out = 0u64;
    let mut generic_out = 0u64;
    for op in &ops {
        if let TokenOp::Transfer { from, amount, .. } = op {
            if *from == Role::UserUsdc {
                user_out += amount;
            }
            if *from == Role::GenericReserve {
                generic_out += amount;
            }
        }
    }
    assert_eq!(user_out, 1000);
    assert!(generic_out <= 100);
}

#[test]
fn withdraw_moves_the_whole_balance() {
    let ctx = Withdraw {
        token_data_key: addr(11),
        token_data: token_data(),
        mint: addr(6),
        earned_usdc_amount: 4242,
    };
    assert_eq!(
        withdraw(&ctx),
        vec![TokenOp::Transfer {
            from: Role::Earned,
            to: Role::WithdrawUsdc,
            authority: Authority::Pda(PdaSigner {
                seeds: PdaSeeds::Earned { token_data: addr(11), mint: addr(6) },
                bump: 251,
            }),
            amount: 4242,
        }]
    );
}

#[test]
fn update_token_data_sets_three_fields() {
    let mut ctx = UpdateTokenData { token_data: token_data(), user: addr(1) };
    assert_eq!(update_token_data(&mut ctx, String::from("Espresso"), 77, 88), Ok(()));
    let mut expected = token_data();
    expected.name = String::from("Espresso");
    expected.discount = 77;
    expected.reward_usdc_token = 88;
    assert_eq!(ctx.token_data, expected);
    assert_eq!(ctx.user, addr(1));
}

#[test]
fn mint_token_aborts_after_minting_when_amounts_overflow() {
    let program_id = addr(9);
    let mint = addr(6);
    let mut td = token_data();
    td.discount = 10001;
    let good = MintToken {
        token_data_key: addr(11),
        token_data: td.clone(),
        treasury_account: treasury_of(&mint, &program_id),
        mint,
    };
    let minter = Authority::Pda(PdaSigner { seeds: PdaSeeds::Mint { token_data: addr(11) }, bump: 250 });
    assert_eq!(
        mint_token(&good, &program_id, 5),
        Some(Ok(Plan {
            ops: vec![TokenOp::MintTo { mint: Role::TokenMint, to: Role::UserToken, authority: minter, amount: 5 }],
            then_abort: true,
        }))
    );
    let wrong = MintToken { treasury_account: addr(12), ..good };
    assert_eq!(mint_token(&wrong, &program_id, 5), Some(Err(ErrorCode::PDA)));
}

#[test]
fn redeem_usdc_aborts_only_past_the_treasury_check() {
    let program_id = addr(9);
    let mint = addr(6);
    let good = RedeemUsdc {
        token_data_key: addr(11),
        token_data: token_data(),
        treasury_account: treasury_of(&mint, &program_id),
        mint,
    };
    assert_eq!(redeem_usdc(&good, &program_id, 9), Some(Ok(Plan { ops: vec![], then_abort: true })));
    let wrong = RedeemUsdc { treasury_account: addr(12), ..good };
    assert_eq!(redeem_usdc(&wrong, &program_id, 9), Some(Err(ErrorCode::PDA)));
}

#[test]
fn redeem_three_token_mints_the_three_rewards() {
    let mut merchant = token_data();
    merchant.reward_merchant_token = 500;
    merchant.reward_generic_token = 1000;
    merchant.reward_usdc_token = 200;
    merchant.transaction_fee = 10;
    let mut generic = token_data();
    generic.reserve_bump = 200;
    let ctx = RedeemThreeToken {
        merchant_token_data_key: addr(11),
        merchant_token_data: merchant,
        generic_token_data_key: addr(21),
        generic_token_data: generic,
        mint: addr(6),
        merchant_reserve_usdc_amount: 5000,
        merchant_token_mint_supply: 10000,
        generic_reserve_usdc_amount: 9000,
        generic_token_mint_supply: 10000,
    };
    let ops = redeem_three_token(&ctx, 1000, 2000, 3000);
    let amounts: Vec<u64> = ops
        .iter()
        .map(|op| match op {
            TokenOp::MintTo { amount, .. } => *amount,
            TokenOp::Burn { amount, .. } => *amount,
            TokenOp::Transfer { amount, .. } => *amount,
        })
        .collect();
    assert_eq!(amounts, vec![1000, 2000, 475, 1620, 180, 2930, 60, 10, 310]);
}

#[test]
fn redeem_one_generic_token_ignores_merchant_rates() {
    let mut generic = token_data();
    generic.reward_merchant_token = 2000;
    let ctx = RedeemOneGenericToken {
        generic_token_data_key: addr(21),
        generic_token_data: generic,
        token_data_key: addr(11),
        token_data: token_data(),
        mint: addr(6),
        generic_reserve_usdc_amount: 1000,
        generic_token_mint_supply: 2000,
    };
    let mut other = token_data();
    other.reward_merchant_token = 9999;
    other.transaction_fee = 77;
    let ctx2 = RedeemOneGenericToken { token_data: other, ..ctx.clone() };
    assert_eq!(redeem_one_generic_token(&ctx, 100), redeem_one_generic_token(&ctx2, 100));
}

#[test]
fn redeem_one_token_grows_with_the_amount() {
    let ctx = RedeemOneToken {
        token_data_key: addr(11),
        token_data: token_data(),
        mint: addr(6),
        reserve_usdc_amount: 500,
        token_mint_supply: 1000,
    };
    let small = redeem_token_amounts(&ctx.token_data, 100, 500, 1000).unwrap();
    let large = redeem_token_amounts(&ctx.token_data, 400, 500, 1000).unwrap();
    assert!(small.reward_amount <= large.reward_amount);
    assert!(small.earned_amount <= large.earned_amount);
    assert_eq!((large.reward_amount, large.earned_amount), (40, 170));
}
