//! Ledger-program examples with verified core logic.
//!
//! The heart of the crate is the commit-reveal game engine in [`game`]: a
//! two-party rock-paper-scissors match in which each party first locks in a
//! hash of its play and later proves, by disclosing the payload, that the
//! play was not changed. The remaining modules hold the verified compute
//! parts of the companion example programs: a lottery, a weighted-voting
//! consortium, a greeting counter, instruction decoders and a prime search.

pub mod compute;
pub mod consortium;
pub mod counter;
pub mod errors;
pub mod game;
pub mod lottery;
pub mod multifunc;
pub mod pda;

