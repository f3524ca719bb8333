use vstd::prelude::*;

use crate::address::Address;

verus! {

/// The data account of one reward token: who created it, the addresses the
/// program derived for it, and the rates that its instructions apply.
/// Rates are in basis points (10000 is the whole amount), except
/// `transaction_fee`, a flat USDC amount per transaction.
#[derive(Clone, Debug, PartialEq)]
pub struct TokenData {
    pub name: String,
    pub user: Address,
    pub mint: Address,
    pub earned: Address,
    pub reserve: Address,
    pub mint_bump: u8,
    pub earned_bump: u8,
    pub reserve_bump: u8,
    /// Flat USDC fee per transaction.
    pub transaction_fee: u64,
    /// Share of a USDC purchase of reward tokens kept as a fee.
    pub sale_fee: u64,
    /// Discount on reward tokens bought with USDC.
    pub discount: u64,
    /// Reward tokens minted per generic token spent.
    pub reward_generic_token: u64,
    /// Reward tokens minted per merchant token spent.
    pub reward_merchant_token: u64,
    /// Reward tokens minted per USDC spent.
    pub reward_usdc_token: u64,
}

/// The program's own errors.
#[derive(Clone, Copy, Debug, PartialEq, Eq, Structural)]
pub enum ErrorCode {
    /// A provided account is not the program-derived address it must be.
    PDA,
}

impl ErrorCode {
    /// The message that goes with the error.
    pub fn message(&self) -> (m: &'static str)
        ensures
            m@ == "PDA not match"@,
    {
        match self {
            ErrorCode::PDA => "PDA not match",
        }
    }
}

} // verus!
