use vstd::prelude::*;
use crate::errors::IDOProgramErrors;

verus! {

/// The kind of a sale round.
#[derive(PartialEq, Eq, Structural, Clone, Copy, Debug)]
pub enum RoundClass {
    Allocation,
    FcfsPrepare,
    Fcfs,
}

/// One round of the sale: its length, its name, its kind, and the amount
/// of the raise token that each tier may spend in it.
#[derive(Clone, Debug)]
pub struct RoundItem {
    pub duration_seconds: u32,
    pub name: String,
    pub class: RoundClass,
    pub tier_allocations: Vec<u64>,
}

impl RoundItem {
    /// The allocation of tier `index`, and 0 for a tier the round does not list.
    pub open spec fn spec_tier_allocation(self, index: u8) -> u64 {
        if (index as int) < self.tier_allocations@.len() {
            self.tier_allocations@[index as int]
        } else {
            0
        }
    }

    pub fn get_tier_allocation(&self, index: u8) -> (r: u64)
        ensures
            r == self.spec_tier_allocation(index),
    {
        let i = index as usize;
        if i < self.tier_allocations.len() {
            self.tier_allocations[i]
        } else {
            0
        }
    }

    pub fn set_tier_allocation(&mut self, tier_allocations: Vec<u64>) -> (r: Result<(), IDOProgramErrors>)
        ensures
            r is Ok,
            final(self).tier_allocations == tier_allocations,
            final(self).duration_seconds == old(self).duration_seconds,
            final(self).name == old(self).name,
            final(self).class == old(self).class,
    {
        self.tier_allocations = tier_allocations;
        Ok(())
    }
}

} // verus!
