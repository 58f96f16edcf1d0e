use vstd::prelude::*;
use crate::pubkey::Pubkey;
use crate::rounds::RoundClass;

verus! {

/// The parameters of a new sale.
pub struct InitializeIdoParam {
    pub raise_token: Pubkey,
    pub rate: u32,
    pub open_timestamp: i64,
    pub allocation_duration: u32,
    pub fcfs_duration: u32,
    pub cap: u64,
    pub release_token: Pubkey,
    pub ido_id: u64,
}

/// Allocates wallet `address` to tier `tier`, or takes it out when `remove`.
pub struct SetupUserTierAllocationParam {
    pub tier: u8,
    pub address: Pubkey,
    pub remove: bool,
}

/// A whole new list of rounds, given column by column.
pub struct ModifyRoundsParam {
    pub name_list: Vec<String>,
    pub duration_list: Vec<u32>,
    pub class_list: Vec<RoundClass>,
}

/// New name, length and kind for one round.
pub struct ModifyRoundParam {
    pub round_index: i32,
    pub name: String,
    pub duration_seconds: u32,
    pub class: RoundClass,
}

/// New per-tier allocations for one round.
pub struct ModifyRoundAllocationParam {
    pub round_index: u8,
    pub tier_allocations: Vec<u64>,
}

/// A new name for one tier.
pub struct ModifyTierName {
    pub tier_index: u32,
    pub name: String,
}

/// A whole new release schedule, given column by column.
pub struct SetupReleaseTokenParam {
    pub from_timestamps: Vec<i64>,
    pub to_timestamps: Vec<i64>,
    pub percents: Vec<u16>,
}

} // verus!
