//! Verified core of a Solana merchant-reward token program: fee and reward
//! arithmetic, program-derived-address checks, and the exact sequence of
//! token operations that each instruction performs.

pub mod address;
pub mod pda;
pub mod state;
pub mod ops;
pub mod amounts;
pub mod instructions;
pub mod laws;
