use vstd::prelude::*;
use crate::errors::IDOProgramErrors;
use crate::ido::{IdoAccount, tiers_after_count};
use crate::types::SetupUserTierAllocationParam;
use crate::users::PdaUserStats;

verus! {

/// Sets a wallet's tier.  A wallet that already has a record here is
/// re-tiered (and marked allocated unless `remove`); a new wallet gets a
/// record unless `remove`.  In both cases the tier's counter is then
/// updated with `remove` negated: an allocation lowers the count (not below
/// zero) and a removal raises it.  Nothing happens for the removal of a
/// wallet without a record.
pub fn handle_modify_tier_allocated(
    ido_account: &mut IdoAccount,
    user_ido_account: &mut PdaUserStats,
    user_ido_bump: u8,
    params: SetupUserTierAllocationParam,
) -> (r: Result<(), IDOProgramErrors>)
    requires
        old(user_ido_account).bump != 0 && old(user_ido_account).address == params.address && params.remove
            && (params.tier as int) < old(ido_account)._tiers@.len() ==> old(ido_account)._tiers@[params.tier as int].allocated_count
            < u32::MAX,
    ensures
        ({
            let existing = old(user_ido_account).bump != 0 && old(user_ido_account).address == params.address;
            if existing || !params.remove {
                &&& (r is Err <==> params.tier >= old(ido_account)._tiers@.len())
                &&& (r is Err ==> r->Err_0 == IDOProgramErrors::InvalidRounds && *final(ido_account) == *old(ido_account))
                &&& (r is Ok ==> final(ido_account)._tiers@ == tiers_after_count(
                    old(ido_account)._tiers@,
                    params.tier as int,
                    !params.remove,
                ))
                &&& (IdoAccount { _tiers: old(ido_account)._tiers, ..*final(ido_account) }) == *old(ido_account)
                &&& if existing {
                    *final(user_ido_account) == (PdaUserStats {
                        tier_index: params.tier,
                        allocated: !params.remove,
                        ..*old(user_ido_account)
                    })
                } else {
                    *final(user_ido_account) == (PdaUserStats {
                        tier_index: params.tier,
                        address: params.address,
                        allocated: true,
                        bump: user_ido_bump,
                        ..*old(user_ido_account)
                    })
                }
            } else {
                &&& r is Ok
                &&& *final(ido_account) == *old(ido_account)
                &&& *final(user_ido_account) == *old(user_ido_account)
            }
        }),
{
    let SetupUserTierAllocationParam { tier, address, remove } = params;
    if user_ido_account.bump != 0 && user_ido_account.address == address {
        user_ido_account.update_allocate(&tier, &!remove);
        ido_account.update_allocate_count(&(tier as usize), &!remove)?;
    } else {
        if !remove {
            user_ido_account.init_user_pda(&tier, &address, &!remove, &user_ido_bump)?;
            ido_account.update_allocate_count(&(tier as usize), &!remove)?;
        }
    }
    Ok(())
}

} // verus!
