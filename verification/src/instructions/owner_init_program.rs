use vstd::prelude::*;
use crate::errors::IDOProgramErrors;
use crate::onepad::OnePad;
use crate::pubkey::Pubkey;
use crate::roles::{AuthRole, AuthorityRole};

verus! {

/// Sets up the registry with the creator's admin role account as its first
/// admin, and grants the creator the admin role.
pub fn handle_initialize_onepad(
    onepad_pda: &mut OnePad,
    admin_role_pda: &mut AuthorityRole,
    admin_role_pda_key: Pubkey,
    authority: Pubkey,
    operator_wallet: Pubkey,
    onepad_bump: u8,
    admin_role_bump: u8,
) -> (r: Result<(), IDOProgramErrors>)
    ensures
        r is Ok,
        final(onepad_pda).bump == onepad_bump,
        final(onepad_pda).pause == false,
        final(onepad_pda).admin_role@ == old(onepad_pda).admin_role@.push(admin_role_pda_key),
        final(onepad_pda).operator_wallet == operator_wallet,
        final(onepad_pda).operator_role == old(onepad_pda).operator_role,
        *final(admin_role_pda) == (AuthorityRole {
            authority: authority,
            role: AuthRole::Admin,
            status: true,
            bump: admin_role_bump,
        }),
{
    onepad_pda.initialize(&admin_role_pda_key, &operator_wallet, onepad_bump)?;
    admin_role_pda.initialize(&authority, admin_role_bump, AuthRole::Admin)?;
    Ok(())
}

} // verus!
