use vstd::prelude::*;
use crate::errors::IDOProgramErrors;
use crate::pubkey::Pubkey;
use crate::token::{associated_token_address, try_associated_token_address};

verus! {

/// Moves `amount` lamports from the sale account (which must keep its
/// rent-exempt minimum `rent_balance`) to the admin.
pub fn withdraw_native_token(
    ido_lamports: &mut u64,
    rent_balance: u64,
    authority_lamports: &mut u64,
    amount: u64,
    _to: Pubkey,
) -> (r: Result<(), IDOProgramErrors>)
    requires
        rent_balance <= *old(ido_lamports),
        *old(ido_lamports) - rent_balance >= amount ==> *old(authority_lamports) + amount <= u64::MAX,
    ensures
        r is Err <==> *old(ido_lamports) - rent_balance < amount,
        r is Err ==> r->Err_0 == IDOProgramErrors::InsufficientAmount && *final(ido_lamports) == *old(ido_lamports)
            && *final(authority_lamports) == *old(authority_lamports),
        r is Ok ==> *final(ido_lamports) >= rent_balance,
        r is Ok ==> *final(ido_lamports) == *old(ido_lamports) - amount && *final(authority_lamports) == *old(authority_lamports) + amount,
{
    let withdraw_amount = *ido_lamports - rent_balance;
    if withdraw_amount < amount {
        return Err(IDOProgramErrors::InsufficientAmount);
    }
    *ido_lamports = *ido_lamports - amount;
    *authority_lamports = *authority_lamports + amount;
    Ok(())
}

/// Checks that a withdrawal of the raise token goes to the admin's own
/// associated token account for that token.
pub fn withdraw_token_from_pda(authority: &Pubkey, raise_token: &Pubkey, destination: &Pubkey) -> (r: Result<
    (),
    IDOProgramErrors,
>)
    requires
        associated_token_address(*authority, *raise_token) is Some,
    ensures
        r is Err <==> associated_token_address(*authority, *raise_token) != Some(*destination),
        r is Err ==> r->Err_0 == IDOProgramErrors::WithdrawTokenAccountNotMatch,
{
    let admin_token_address = try_associated_token_address(authority, raise_token).unwrap();
    if admin_token_address != *destination {
        return Err(IDOProgramErrors::WithdrawTokenAccountNotMatch);
    }
    Ok(())
}

/// `withdraw_token_from_pda` where the admin's associated token address can
/// be derived; `None` where it cannot.
pub fn withdraw_token_from_pda_checked(authority: &Pubkey, raise_token: &Pubkey, destination: &Pubkey) -> (r: Option<
    Result<(), IDOProgramErrors>,
>)
    ensures
        r is None <==> associated_token_address(*authority, *raise_token) is None,
        r is Some ==> (r->Some_0 is Err <==> associated_token_address(*authority, *raise_token) != Some(*destination)),
        r is Some && r->Some_0 is Err ==> r->Some_0->Err_0 == IDOProgramErrors::WithdrawTokenAccountNotMatch,
{
    if try_associated_token_address(authority, raise_token).is_none() {
        return None;
    }
    Some(withdraw_token_from_pda(authority, raise_token, destination))
}

} // verus!
