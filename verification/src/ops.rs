use vstd::prelude::*;

use crate::pda::PdaSigner;

verus! {

/// The accounts an instruction's token operations name, by the part they play.
/// In the three-token redemption the merchant's token takes the roles
/// without "Generic".
#[derive(Clone, Copy, Debug, PartialEq, Eq, Structural)]
pub enum Role {
    /// The signing user.
    User,
    /// The mint of the (merchant's) reward token.
    TokenMint,
    /// The user's account of the (merchant's) reward token.
    UserToken,
    /// The user's USDC account.
    UserUsdc,
    /// The USDC reserve backing the (merchant's) reward token.
    Reserve,
    /// The merchant's earned USDC account.
    Earned,
    /// The program's USDC treasury.
    Treasury,
    /// The mint of the generic reward token.
    GenericTokenMint,
    /// The user's account of the generic reward token.
    UserGenericToken,
    /// The USDC reserve backing the generic reward token.
    GenericReserve,
    /// The USDC account that earned USDC is withdrawn to.
    WithdrawUsdc,
}

/// Who authorises a token operation: the signing user, or a program-derived
/// account that the program signs for with its seeds and bump.
#[derive(Clone, Copy, Debug, PartialEq)]
pub enum Authority {
    User,
    Pda(PdaSigner),
}

/// One call into the token program.
#[derive(Clone, Copy, Debug, PartialEq)]
pub enum TokenOp {
    /// Mint `amount` of `mint` into `to`.
    MintTo { mint: Role, to: Role, authority: Authority, amount: u64 },
    /// Burn `amount` of `mint` from `from`.
    Burn { mint: Role, from: Role, authority: Authority, amount: u64 },
    /// Move `amount` from `from` to `to`.
    Transfer { from: Role, to: Role, authority: Authority, amount: u64 },
}

/// Total that the transfers of `ops` move out of `acct`.
pub open spec fn sent(ops: Seq<TokenOp>, acct: Role) -> int
    decreases ops.len(),
{
    if ops.len() == 0 {
        0
    } else {
        sent(ops.drop_last(), acct) + match ops.last() {
            TokenOp::Transfer { from, amount, .. } => if from == acct {
                amount as int
            } else {
                0
            },
            _ => 0,
        }
    }
}

/// Total that the transfers of `ops` move into `acct`.
pub open spec fn received(ops: Seq<TokenOp>, acct: Role) -> int
    decreases ops.len(),
{
    if ops.len() == 0 {
        0
    } else {
        received(ops.drop_last(), acct) + match ops.last() {
            TokenOp::Transfer { to, amount, .. } => if to == acct {
                amount as int
            } else {
                0
            },
            _ => 0,
        }
    }
}

/// Total that `ops` mint of `mint`.
pub open spec fn minted(ops: Seq<TokenOp>, mint: Role) -> int
    decreases ops.len(),
{
    if ops.len() == 0 {
        0
    } else {
        minted(ops.drop_last(), mint) + match ops.last() {
            TokenOp::MintTo { mint: m, amount, .. } => if m == mint {
                amount as int
            } else {
                0
            },
            _ => 0,
        }
    }
}

/// Total that `ops` burn of `mint`.
pub open spec fn burned(ops: Seq<TokenOp>, mint: Role) -> int
    decreases ops.len(),
{
    if ops.len() == 0 {
        0
    } else {
        burned(ops.drop_last(), mint) + match ops.last() {
            TokenOp::Burn { mint: m, amount, .. } => if m == mint {
                amount as int
            } else {
                0
            },
            _ => 0,
        }
    }
}

} // verus!
