use vstd::prelude::*;
use crate::errors::IDOProgramErrors;
use crate::onepad::{OnePad, role_add_error, without_key};
use crate::pubkey::Pubkey;
use crate::roles::{AuthRole, AuthorityRole};

verus! {

/// Grants the operator role to `new_operator` through a fresh role account
/// and lists that account in the registry.
pub fn handle_add_operator(
    onepad_pda: &mut OnePad,
    operator_pda: &mut AuthorityRole,
    operator_pda_key: Pubkey,
    new_operator: Pubkey,
    operator_bump: u8,
) -> (r: Result<(), IDOProgramErrors>)
    ensures
        r is Err <==> role_add_error(old(onepad_pda).operator_role@, operator_pda_key,
            IDOProgramErrors::OperatorAlreadyExist, IDOProgramErrors::OperatorLimitReached) is Some,
        r is Err ==> r->Err_0 == role_add_error(old(onepad_pda).operator_role@, operator_pda_key,
            IDOProgramErrors::OperatorAlreadyExist, IDOProgramErrors::OperatorLimitReached)->Some_0
            && *final(onepad_pda) == *old(onepad_pda),
        r is Ok ==> final(onepad_pda).operator_role@ == old(onepad_pda).operator_role@.push(operator_pda_key),
        (OnePad { operator_role: old(onepad_pda).operator_role, ..*final(onepad_pda) }) == *old(onepad_pda),
        *final(operator_pda) == (AuthorityRole {
            authority: new_operator,
            role: AuthRole::Operator,
            status: true,
            bump: operator_bump,
        }),
{
    operator_pda.initialize(&new_operator, operator_bump, AuthRole::Operator)?;
    onepad_pda.set_operator(operator_pda_key)?;
    Ok(())
}

/// The error, if any, of taking the operator role account `operator_pda_key`
/// (which grants `operator_pda`) away from `old_operator`.
pub open spec fn remove_operator_error(
    onepad: OnePad,
    operator_pda: AuthorityRole,
    operator_pda_key: Pubkey,
    old_operator: Pubkey,
) -> Option<IDOProgramErrors> {
    if !onepad.operator_role@.contains(operator_pda_key) {
        Some(IDOProgramErrors::OnlyOperatorAllowed)
    } else if !(operator_pda.authority == old_operator && operator_pda.role == AuthRole::Operator) {
        Some(IDOProgramErrors::OperatorNotFound)
    } else if onepad.operator_role@.len() == 1 {
        Some(IDOProgramErrors::OperatorLimitReached)
    } else {
        None
    }
}

/// Unlists the operator role account `operator_pda_key`, which must be
/// listed and grant the operator role to `old_operator`.
pub fn handle_remove_operator(
    onepad_pda: &mut OnePad,
    operator_pda: &AuthorityRole,
    operator_pda_key: Pubkey,
    old_operator: Pubkey,
) -> (r: Result<(), IDOProgramErrors>)
    ensures
        r is Err <==> remove_operator_error(*old(onepad_pda), *operator_pda, operator_pda_key, old_operator) is Some,
        r is Err ==> r->Err_0 == remove_operator_error(
            *old(onepad_pda),
            *operator_pda,
            operator_pda_key,
            old_operator,
        )->Some_0 && *final(onepad_pda) == *old(onepad_pda),
        r is Ok ==> final(onepad_pda).operator_role@ == without_key(old(onepad_pda).operator_role@, operator_pda_key),
        (OnePad { operator_role: old(onepad_pda).operator_role, ..*final(onepad_pda) }) == *old(onepad_pda),
{
    if !onepad_pda.has_operator(operator_pda_key) {
        return Err(IDOProgramErrors::OnlyOperatorAllowed);
    }
    if !operator_pda.has_authority(old_operator, AuthRole::Operator) {
        return Err(IDOProgramErrors::OperatorNotFound);
    }
    onepad_pda.remove_operator(operator_pda_key)?;
    Ok(())
}

} // verus!
