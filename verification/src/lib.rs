//! Verified core of an initial-DEX-offering (IDO) crowdfunding program:
//! the on-chain account state, the rules of the sale rounds, the vesting of
//! released tokens, the role registry, and the instruction handlers that
//! change that state.  Runtime plumbing (account loading, token transfers,
//! the clock and rent sysvars) is supplied by the caller as plain values.

pub mod pubkey;
pub mod errors;
pub mod safe_math;
pub mod token;
pub mod rounds;
pub mod releases;
pub mod ido;
pub mod users;
pub mod onepad;
pub mod roles;
pub mod events;
pub mod types;
pub mod utils;
pub mod instructions;
pub mod laws;
