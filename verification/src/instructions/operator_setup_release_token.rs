use vstd::prelude::*;
use crate::errors::IDOProgramErrors;
use crate::ido::IdoAccount;
use crate::pubkey::Pubkey;

verus! {

/// Sets the token that the sale releases, with the decimals of its mint.
pub fn setup_release_token(ido_account: &mut IdoAccount, release_token: Pubkey, mint_decimals: u8) -> (r: Result<
    (),
    IDOProgramErrors,
>)
    ensures
        r is Ok,
        *final(ido_account) == (IdoAccount {
            _release_token: release_token,
            _release_token_decimals: mint_decimals,
            ..*old(ido_account)
        }),
{
    let decimals = mint_decimals;
    ido_account.set_release_token(&release_token, &decimals)?;
    Ok(())
}

} // verus!
