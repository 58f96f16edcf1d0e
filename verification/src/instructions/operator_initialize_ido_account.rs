use vstd::prelude::*;
use crate::errors::IDOProgramErrors;
use crate::ido::{IdoAccount, is_initial_rounds, is_initial_tiers};
use crate::pubkey::Pubkey;
use crate::types::InitializeIdoParam;

verus! {

/// The sale state that `create_ido` leaves, for a sale created by the
/// operator role account `operator` with the raise token's decimals `decimals`.
pub open spec fn is_created_ido(
    new: IdoAccount,
    old: IdoAccount,
    operator: Pubkey,
    decimals: u8,
    params: InitializeIdoParam,
    bump: u8,
) -> bool {
    &&& new._raise_token == params.raise_token
    &&& new._raise_token_decimals == decimals
    &&& new._rate == params.rate
    &&& new._open_timestamp == params.open_timestamp
    &&& new._cap == params.cap
    &&& new._closed == false
    &&& new.authority == operator
    &&& new.ido_id == params.ido_id
    &&& new.bump == bump
    &&& new._release_token == Pubkey::zero()
    &&& is_initial_tiers(new._tiers@)
    &&& is_initial_rounds(new._rounds@, params.allocation_duration, params.fcfs_duration)
    &&& new._release_token_decimals == old._release_token_decimals
    &&& new._participated_count == old._participated_count
    &&& new._participated == old._participated
    &&& new._releases == old._releases
}

/// Creates a sale whose raise token is an SPL token with `mint_decimals` decimals.
pub fn handle_initialize_ido(
    ido_account: &mut IdoAccount,
    operator_pda_key: Pubkey,
    mint_decimals: u8,
    params: InitializeIdoParam,
    ido_bump: u8,
) -> (r: Result<(), IDOProgramErrors>)
    ensures
        r is Ok,
        is_created_ido(*final(ido_account), *old(ido_account), operator_pda_key, mint_decimals, params, ido_bump),
{
    let InitializeIdoParam {
        raise_token,
        rate,
        open_timestamp,
        allocation_duration,
        fcfs_duration,
        cap,
        release_token: _,
        ido_id,
    } = params;
    ido_account.create_ido(
        &operator_pda_key,
        &raise_token,
        &mint_decimals,
        &rate,
        &open_timestamp,
        &allocation_duration,
        &fcfs_duration,
        &cap,
        &ido_id,
        &ido_bump,
    )?;
    Ok(())
}

/// Creates a sale whose raise token is the native token (9 decimals).
pub fn handle_initialize_ido_native(
    ido_account: &mut IdoAccount,
    operator_pda_key: Pubkey,
    params: InitializeIdoParam,
    ido_bump: u8,
) -> (r: Result<(), IDOProgramErrors>)
    ensures
        r is Ok,
        is_created_ido(*final(ido_account), *old(ido_account), operator_pda_key, 9, params, ido_bump),
{
    let InitializeIdoParam {
        raise_token,
        rate,
        open_timestamp,
        allocation_duration,
        fcfs_duration,
        cap,
        release_token: _,
        ido_id,
    } = params;
    let decimal: u8 = 9;
    ido_account.create_ido(
        &operator_pda_key,
        &raise_token,
        &decimal,
        &rate,
        &open_timestamp,
        &allocation_duration,
        &fcfs_duration,
        &cap,
        &ido_id,
        &ido_bump,
    )?;
    Ok(())
}

} // verus!
