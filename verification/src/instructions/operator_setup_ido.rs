use vstd::prelude::*;
use crate::errors::IDOProgramErrors;
use crate::ido::{IdoAccount, TierItem};
use crate::releases::ReleaseItem;
use crate::rounds::RoundItem;
use crate::types::{
    ModifyRoundAllocationParam,
    ModifyRoundParam,
    ModifyRoundsParam,
    ModifyTierName,
    SetupReleaseTokenParam,
};

verus! {

/// Replaces the release schedule; the three lists must have one length.
pub fn handle_setup_releases(ido_account: &mut IdoAccount, param: SetupReleaseTokenParam) -> (r: Result<
    (),
    IDOProgramErrors,
>)
    ensures
        r is Err <==> !(param.from_timestamps@.len() == param.to_timestamps@.len() && param.to_timestamps@.len()
            == param.percents@.len()),
        r is Err ==> r->Err_0 == IDOProgramErrors::InvalidReleaseIndex && *final(ido_account) == *old(ido_account),
        r is Ok ==> final(ido_account)._releases@.len() == param.from_timestamps@.len() && forall|i: int|
            0 <= i < param.from_timestamps@.len() ==> #[trigger] final(ido_account)._releases@[i] == (ReleaseItem {
                percent: param.percents@[i],
                from_timestamp: param.from_timestamps@[i],
                to_timestamp: param.to_timestamps@[i],
            }),
        (IdoAccount { _releases: old(ido_account)._releases, ..*final(ido_account) }) == *old(ido_account),
{
    let SetupReleaseTokenParam { from_timestamps, to_timestamps, percents } = param;
    if from_timestamps.len() != to_timestamps.len() {
        return Err(IDOProgramErrors::InvalidReleaseIndex);
    }
    if to_timestamps.len() != percents.len() {
        return Err(IDOProgramErrors::InvalidReleaseIndex);
    }
    ido_account.set_releases(&from_timestamps, &to_timestamps, &percents)?;
    Ok(())
}

pub fn handle_set_closed(ido_account: &mut IdoAccount, close: bool) -> (r: Result<(), IDOProgramErrors>)
    ensures
        r is Ok,
        *final(ido_account) == (IdoAccount { _closed: close, ..*old(ido_account) }),
{
    ido_account.set_closed(&close)?;
    Ok(())
}

pub fn handle_set_cap(ido_account: &mut IdoAccount, cap: u64) -> (r: Result<(), IDOProgramErrors>)
    ensures
        r is Ok,
        *final(ido_account) == (IdoAccount { _cap: cap, ..*old(ido_account) }),
{
    ido_account.set_cap(&cap)?;
    Ok(())
}

pub fn handle_set_rate(ido_account: &mut IdoAccount, rate: u32) -> (r: Result<(), IDOProgramErrors>)
    ensures
        r is Ok,
        *final(ido_account) == (IdoAccount { _rate: rate, ..*old(ido_account) }),
{
    ido_account.set_rate(&rate)?;
    Ok(())
}

pub fn set_open_timestamp(ido_account: &mut IdoAccount, open_timestamp: i64) -> (r: Result<(), IDOProgramErrors>)
    ensures
        r is Ok,
        *final(ido_account) == (IdoAccount { _open_timestamp: open_timestamp, ..*old(ido_account) }),
{
    ido_account.set_open_timestamp(&open_timestamp)?;
    Ok(())
}

/// Replaces the tiers by one tier per name, each with no wallet counted;
/// the list must not be empty.
pub fn modify_tiers(ido_account: &mut IdoAccount, name_list: Vec<String>) -> (r: Result<(), IDOProgramErrors>)
    ensures
        r is Err <==> name_list@.len() == 0,
        r is Err ==> r->Err_0 == IDOProgramErrors::InValidTier && *final(ido_account) == *old(ido_account),
        r is Ok ==> final(ido_account)._tiers@.len() == name_list@.len() && forall|i: int|
            0 <= i < name_list@.len() ==> #[trigger] final(ido_account)._tiers@[i] == (TierItem {
                name: name_list@[i],
                allocated_count: 0,
            }),
        (IdoAccount { _tiers: old(ido_account)._tiers, ..*final(ido_account) }) == *old(ido_account),
{
    if name_list.len() == 0 {
        return Err(IDOProgramErrors::InValidTier);
    }
    ido_account._tiers = Vec::new();
    let n = name_list.len();
    for i in 0..n
        invariant
            n == name_list@.len(),
            ido_account._tiers@.len() == i,
            forall|j: int|
                0 <= j < i ==> #[trigger] ido_account._tiers@[j] == (TierItem {
                    name: name_list@[j],
                    allocated_count: 0,
                }),
            (IdoAccount { _tiers: old(ido_account)._tiers, ..*ido_account }) == *old(ido_account),
    {
        ido_account.add_tier(TierItem { name: name_list[i].clone(), allocated_count: 0 });
    }
    Ok(())
}

/// Renames one tier.
pub fn handle_modify_tier(ido_account: &mut IdoAccount, param: ModifyTierName) -> (r: Result<(), IDOProgramErrors>)
    ensures
        r is Err <==> param.tier_index >= old(ido_account)._tiers@.len(),
        r is Err ==> r->Err_0 == IDOProgramErrors::InValidTier && *final(ido_account) == *old(ido_account),
        r is Ok ==> final(ido_account)._tiers@ == old(ido_account)._tiers@.update(
            param.tier_index as int,
            TierItem { name: param.name, ..old(ido_account)._tiers@[param.tier_index as int] },
        ),
        (IdoAccount { _tiers: old(ido_account)._tiers, ..*final(ido_account) }) == *old(ido_account),
{
    let ModifyTierName { tier_index, name } = param;
    let i = tier_index as usize;
    if i >= ido_account._tiers.len() {
        return Err(IDOProgramErrors::InValidTier);
    }
    let mut tier = TierItem { name: String::new(), allocated_count: 0 };
    ido_account._tiers.set_and_swap(i, &mut tier);
    tier.name = name;
    ido_account._tiers.set(i, tier);
    Ok(())
}

/// Sets the per-tier allocations of one round.
pub fn handle_modify_round_allocations(ido_account: &mut IdoAccount, param: ModifyRoundAllocationParam) -> (r:
    Result<(), IDOProgramErrors>)
    ensures
        r is Err <==> param.round_index >= old(ido_account)._rounds@.len(),
        r is Err ==> r->Err_0 == IDOProgramErrors::InvalidRounds && *final(ido_account) == *old(ido_account),
        r is Ok ==> final(ido_account)._rounds@ == old(ido_account)._rounds@.update(
            param.round_index as int,
            RoundItem {
                tier_allocations: param.tier_allocations,
                ..old(ido_account)._rounds@[param.round_index as int]
            },
        ),
        (IdoAccount { _rounds: old(ido_account)._rounds, ..*final(ido_account) }) == *old(ido_account),
{
    let ModifyRoundAllocationParam { round_index, tier_allocations } = param;
    let i = round_index as usize;
    if i >= ido_account._rounds.len() {
        return Err(IDOProgramErrors::InvalidRounds);
    }
    let mut round = RoundItem {
        duration_seconds: 0,
        name: String::new(),
        class: crate::rounds::RoundClass::Allocation,
        tier_allocations: Vec::new(),
    };
    ido_account._rounds.set_and_swap(i, &mut round);
    round.set_tier_allocation(tier_allocations)?;
    ido_account._rounds.set(i, round);
    Ok(())
}

/// Renames one round and sets its length and kind.
pub fn handle_modify_round(ido_account: &mut IdoAccount, param: ModifyRoundParam) -> (r: Result<
    (),
    IDOProgramErrors,
>)
    ensures
        r is Err <==> (param.round_index < 0 || param.round_index >= old(ido_account)._rounds@.len()),
        r is Err ==> r->Err_0 == IDOProgramErrors::InvalidRounds && *final(ido_account) == *old(ido_account),
        r is Ok ==> final(ido_account)._rounds@ == old(ido_account)._rounds@.update(
            param.round_index as int,
            RoundItem {
                name: param.name,
                duration_seconds: param.duration_seconds,
                class: param.class,
                tier_allocations: old(ido_account)._rounds@[param.round_index as int].tier_allocations,
            },
        ),
        (IdoAccount { _rounds: old(ido_account)._rounds, ..*final(ido_account) }) == *old(ido_account),
{
    let ModifyRoundParam { round_index, name, duration_seconds, class } = param;
    ido_account.modify_round(round_index, name, duration_seconds, class)?;
    Ok(())
}

/// Replaces the rounds; the name list must not be empty and the lengths
/// list must match it.
pub fn handle_modify_rounds(ido_account: &mut IdoAccount, param: ModifyRoundsParam) -> (r: Result<
    (),
    IDOProgramErrors,
>)
    requires
        param.name_list@.len() > 0 && param.name_list@.len() == param.duration_list@.len() ==> param.class_list@.len()
            >= param.name_list@.len(),
    ensures
        r is Err <==> !(param.name_list@.len() > 0 && param.name_list@.len() == param.duration_list@.len()),
        r is Err ==> r->Err_0 == IDOProgramErrors::InvalidRounds && *final(ido_account) == *old(ido_account),
        r is Ok ==> final(ido_account)._rounds@.len() == param.name_list@.len() && forall|i: int|
            0 <= i < param.name_list@.len() ==> #[trigger] final(ido_account)._rounds@[i] == (RoundItem {
                name: param.name_list@[i],
                duration_seconds: param.duration_list@[i],
                class: param.class_list@[i],
                tier_allocations: final(ido_account)._rounds@[i].tier_allocations,
            }) && final(ido_account)._rounds@[i].tier_allocations@.len() == 0,
        (IdoAccount { _rounds: old(ido_account)._rounds, ..*final(ido_account) }) == *old(ido_account),
{
    let ModifyRoundsParam { name_list, duration_list, class_list } = param;
    if name_list.len() == 0 {
        return Err(IDOProgramErrors::InvalidRounds);
    }
    if name_list.len() != duration_list.len() {
        return Err(IDOProgramErrors::InvalidRounds);
    }
    ido_account.modify_rounds(&name_list, &duration_list, &class_list)?;
    Ok(())
}

} // verus!
