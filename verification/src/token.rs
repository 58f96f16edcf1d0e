use vstd::prelude::*;
use crate::pubkey::Pubkey;
use anchor_lang::prelude::Pubkey as SolPubkey;

verus! {

/// The associated token account that `wallet` holds for `mint` under the
/// token program (a program-derived address), or `None` where no bump seed
/// gives an address off the curve.
pub uninterp spec fn associated_token_address(wallet: Pubkey, mint: Pubkey) -> Option<Pubkey>;

/// `Pubkey::try_find_program_address` of solana-program on the seeds that
/// spl-associated-token-account's `get_associated_token_address` uses (the
/// wallet, the token program id, the mint) under the associated token
/// program id.  A deterministic derivation from the wallet and the mint:
/// its result is named, not described.  Left unsaid: on which inputs the
/// bump-seed search finds nothing (the result is then `None`).
#[verifier::external_body]
pub(crate) fn try_associated_token_address(wallet: &Pubkey, mint: &Pubkey) -> (r: Option<Pubkey>)
    ensures
        r == associated_token_address(*wallet, *mint),
{
    let w = [wallet.lo.to_le_bytes(), wallet.hi.to_le_bytes()].concat();
    let m = [mint.lo.to_le_bytes(), mint.hi.to_le_bytes()].concat();
    let seeds: [&[u8]; 3] = [&w, anchor_spl::token::ID.as_ref(), &m];
    let (a, _) = SolPubkey::try_find_program_address(&seeds, &anchor_spl::associated_token::ID)?;
    let a = a.to_bytes();
    Some(Pubkey { lo: u128::from_le_bytes(a[..16].try_into().unwrap()), hi: u128::from_le_bytes(a[16..].try_into().unwrap()) })
}

} // verus!
