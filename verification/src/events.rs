use vstd::prelude::*;
use crate::pubkey::Pubkey;

verus! {

/// A wallet spent `amount` of the raise token in a sale.
#[derive(PartialEq, Eq, Structural, Clone, Copy, Debug)]
pub struct ParticipateEvent {
    pub amount: u64,
    pub address: Pubkey,
}

/// A wallet claimed `claim` released tokens (in a claim up to tranche `index`).
#[derive(PartialEq, Eq, Structural, Clone, Copy, Debug)]
pub struct ClaimEvent {
    pub index: u8,
    pub address: Pubkey,
    pub claim: u64,
    pub timestamp: i64,
}

/// `amount` was withdrawn from a sale to `address`.
#[derive(PartialEq, Eq, Structural, Clone, Copy, Debug)]
pub struct WithdrawTokenEvent {
    pub amount: u64,
    pub address: Pubkey,
    pub timestamp: i64,
}

/// An admin set a new operator wallet.
#[derive(PartialEq, Eq, Structural, Clone, Copy, Debug)]
pub struct ChangeOperatorWalletEvent {
    pub admin: Pubkey,
    pub operator_wallet: Pubkey,
    pub time: i64,
}

} // verus!
