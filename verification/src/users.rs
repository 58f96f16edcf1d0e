use vstd::prelude::*;
use crate::errors::IDOProgramErrors;
use crate::pubkey::Pubkey;
use crate::safe_math::safe_add;

verus! {

/// The tokens a wallet has claimed from one release tranche.
#[derive(Clone, Copy, Debug)]
pub struct ClaimItem {
    pub release: u8,
    pub amount: u64,
}

/// The raise tokens a wallet has spent in one round.
#[derive(Clone, Copy, Debug)]
pub struct ParticipateItem {
    pub round: u8,
    pub amount: u64,
}

/// A wallet's record in one sale.
pub struct PdaUserStats {
    pub allocated: bool,
    pub bump: u8,
    pub tier_index: u8,
    pub participate: Vec<ParticipateItem>,
    pub claims: Vec<ClaimItem>,
    pub address: Pubkey,
}

/// The amount of the first claim entry recorded for tranche `release`, or 0.
pub open spec fn claimed_amount(claims: Seq<ClaimItem>, release: u8) -> u64
    decreases claims.len(),
{
    if claims.len() == 0 {
        0
    } else if claims[0].release == release {
        claims[0].amount
    } else {
        claimed_amount(claims.drop_first(), release)
    }
}

/// The sum of all claim entries.
pub open spec fn claims_total(claims: Seq<ClaimItem>) -> nat
    decreases claims.len(),
{
    if claims.len() == 0 {
        0
    } else {
        claims[0].amount as nat + claims_total(claims.drop_first())
    }
}

/// The amount of the first participation entry recorded for round
/// position `round`, or 0.
pub open spec fn participated_amount(items: Seq<ParticipateItem>, round: u8) -> u64
    decreases items.len(),
{
    if items.len() == 0 {
        0
    } else if items[0].round == round {
        items[0].amount
    } else {
        participated_amount(items.drop_first(), round)
    }
}

/// The sum of all participation entries.
pub open spec fn participate_total(items: Seq<ParticipateItem>) -> nat
    decreases items.len(),
{
    if items.len() == 0 {
        0
    } else {
        items[0].amount as nat + participate_total(items.drop_first())
    }
}

/// The claim entry at position `index` grows by `amount`; when there is no
/// such position a new entry for tranche `index` is appended.  (Entries are
/// found by position here and by tranche when read.)
pub open spec fn claims_after_claim(claims: Seq<ClaimItem>, index: u8, amount: u64) -> Seq<ClaimItem> {
    if (index as int) < claims.len() {
        claims.update(
            index as int,
            ClaimItem { release: claims[index as int].release, amount: (claims[index as int].amount + amount) as u64 },
        )
    } else {
        claims.push(ClaimItem { release: index, amount: amount })
    }
}

/// Recording a claim of `amount` in `claims` keeps every amount in `u64`.
pub open spec fn claim_fits(claims: Seq<ClaimItem>, index: u8, amount: u64) -> bool {
    (index as int) < claims.len() ==> claims[index as int].amount + amount <= u64::MAX
}

/// The participation entry at position `round - 1` grows by `amount`; when
/// there is no such position a new entry for round position `round - 1` is
/// appended.
pub open spec fn participate_after(items: Seq<ParticipateItem>, round: u8, amount: u64) -> Seq<ParticipateItem> {
    let ri = (round - 1) as u8;
    if (ri as int) < items.len() {
        items.update(
            ri as int,
            ParticipateItem { round: items[ri as int].round, amount: (items[ri as int].amount + amount) as u64 },
        )
    } else {
        items.push(ParticipateItem { round: ri, amount: amount })
    }
}

/// Recording a participation of `amount` in round `round` keeps every amount in `u64`.
pub open spec fn participate_fits(items: Seq<ParticipateItem>, round: u8, amount: u64) -> bool {
    let ri = round - 1;
    0 <= ri < items.len() ==> items[ri].amount + amount <= u64::MAX
}

pub proof fn lemma_claims_skip(claims: Seq<ClaimItem>, i: int, release: u8)
    requires
        0 <= i < claims.len(),
    ensures
        claims_total(claims.skip(i)) == claims[i].amount + claims_total(claims.skip(i + 1)),
        claimed_amount(claims.skip(i), release) == if claims[i].release == release {
            claims[i].amount
        } else {
            claimed_amount(claims.skip(i + 1), release)
        },
{
    assert(claims.skip(i).drop_first() =~= claims.skip(i + 1));
}

pub proof fn lemma_participate_skip(items: Seq<ParticipateItem>, i: int, round: u8)
    requires
        0 <= i < items.len(),
    ensures
        participate_total(items.skip(i)) == items[i].amount + participate_total(items.skip(i + 1)),
        participated_amount(items.skip(i), round) == if items[i].round == round {
            items[i].amount
        } else {
            participated_amount(items.skip(i + 1), round)
        },
{
    assert(items.skip(i).drop_first() =~= items.skip(i + 1));
}

impl PdaUserStats {
    pub open spec fn spec_total_participate(self) -> nat {
        participate_total(self.participate@)
    }

    pub open spec fn spec_total_claim(self) -> nat {
        claims_total(self.claims@)
    }

    pub fn init_user_pda(&mut self, tier_index: &u8, address: &Pubkey, allocated: &bool, bump: &u8) -> (r: Result<
        (),
        IDOProgramErrors,
    >)
        ensures
            r is Ok,
            *final(self) == (PdaUserStats {
                tier_index: *tier_index,
                address: *address,
                allocated: *allocated,
                bump: *bump,
                ..*old(self)
            }),
    {
        self.tier_index = *tier_index;
        self.address = *address;
        self.allocated = *allocated;
        self.bump = *bump;
        Ok(())
    }

    pub fn update_allocate(&mut self, tier_index: &u8, allocated: &bool)
        ensures
            *final(self) == (PdaUserStats { tier_index: *tier_index, allocated: *allocated, ..*old(self) }),
    {
        self.tier_index = *tier_index;
        self.allocated = *allocated;
    }

    /// Records `participate_amount` spent in round `round` (counted from 1).
    pub fn user_participate(&mut self, round: u8, participate_amount: u64) -> (r: Result<(), IDOProgramErrors>)
        requires
            round >= 1,
            participate_fits(old(self).participate@, round, participate_amount),
        ensures
            r is Ok,
            final(self).participate@ == participate_after(old(self).participate@, round, participate_amount),
            (PdaUserStats { participate: old(self).participate, ..*final(self) }) == *old(self),
    {
        let round_index = round - 1;
        let i = round_index as usize;
        if i < self.participate.len() {
            let p = self.participate[i];
            let amount = safe_add(p.amount, participate_amount).unwrap();
            self.participate.set(i, ParticipateItem { round: p.round, amount: amount });
        } else {
            self.participate.push(ParticipateItem { round: round_index, amount: participate_amount });
        }
        Ok(())
    }

    /// The amount recorded for round position `index`.
    pub fn get_amount_participate_round(&self, index: u8) -> (r: Result<u64, IDOProgramErrors>)
        ensures
            r == Ok::<u64, IDOProgramErrors>(participated_amount(self.participate@, index)),
    {
        let n = self.participate.len();
        assert(self.participate@.skip(0) =~= self.participate@);
        for i in 0..n
            invariant
                n == self.participate@.len(),
                participated_amount(self.participate@.skip(i as int), index) == participated_amount(
                    self.participate@,
                    index,
                ),
        {
            proof {
                lemma_participate_skip(self.participate@, i as int, index);
            }
            if self.participate[i].round == index {
                return Ok(self.participate[i].amount);
            }
        }
        Ok(0)
    }

    /// The sum of everything the wallet has spent.
    pub fn get_total_participate(&self) -> (r: Result<u64, IDOProgramErrors>)
        requires
            self.spec_total_participate() <= u64::MAX,
        ensures
            r == Ok::<u64, IDOProgramErrors>(self.spec_total_participate() as u64),
    {
        let mut total: u64 = 0;
        let n = self.participate.len();
        assert(self.participate@.skip(0) =~= self.participate@);
        for i in 0..n
            invariant
                n == self.participate@.len(),
                self.spec_total_participate() <= u64::MAX,
                total + participate_total(self.participate@.skip(i as int)) == self.spec_total_participate(),
        {
            proof {
                lemma_participate_skip(self.participate@, i as int, 0);
            }
            total = safe_add(total, self.participate[i].amount).unwrap();
        }
        assert(self.participate@.skip(n as int).len() == 0);
        Ok(total)
    }

    /// Whether the wallet's total spending fits in a `u64`.
    pub fn total_participate_fits(&self) -> (r: bool)
        ensures
            r == (self.spec_total_participate() <= u64::MAX),
    {
        let mut total: u64 = 0;
        let n = self.participate.len();
        assert(self.participate@.skip(0) =~= self.participate@);
        for i in 0..n
            invariant
                n == self.participate@.len(),
                total + participate_total(self.participate@.skip(i as int)) == self.spec_total_participate(),
        {
            proof {
                lemma_participate_skip(self.participate@, i as int, 0);
            }
            match safe_add(total, self.participate[i].amount) {
                Ok(v) => {
                    total = v;
                },
                Err(_) => {
                    return false;
                },
            }
        }
        assert(self.participate@.skip(n as int).len() == 0);
        true
    }

    /// Records `claim_amount` claimed from tranche `index`.
    pub fn user_claim(&mut self, index: u8, claim_amount: u64) -> (r: Result<(), IDOProgramErrors>)
        requires
            claim_fits(old(self).claims@, index, claim_amount),
        ensures
            r is Ok,
            final(self).claims@ == claims_after_claim(old(self).claims@, index, claim_amount),
            (PdaUserStats { claims: old(self).claims, ..*final(self) }) == *old(self),
    {
        let i = index as usize;
        if i < self.claims.len() {
            let c = self.claims[i];
            let amount = safe_add(c.amount, claim_amount).unwrap();
            self.claims.set(i, ClaimItem { release: c.release, amount: amount });
        } else {
            self.claims.push(ClaimItem { release: index, amount: claim_amount });
        }
        Ok(())
    }

    /// The sum of everything the wallet has claimed.
    pub fn get_total_claim(self) -> (r: Result<u64, IDOProgramErrors>)
        requires
            self.spec_total_claim() <= u64::MAX,
        ensures
            r == Ok::<u64, IDOProgramErrors>(self.spec_total_claim() as u64),
    {
        let mut total: u64 = 0;
        let n = self.claims.len();
        assert(self.claims@.skip(0) =~= self.claims@);
        for i in 0..n
            invariant
                n == self.claims@.len(),
                self.spec_total_claim() <= u64::MAX,
                total + claims_total(self.claims@.skip(i as int)) == self.spec_total_claim(),
        {
            proof {
                lemma_claims_skip(self.claims@, i as int, 0);
            }
            total = safe_add(total, self.claims[i].amount).unwrap();
        }
        assert(self.claims@.skip(n as int).len() == 0);
        Ok(total)
    }

    /// The amount recorded as claimed from tranche `index`.
    pub fn get_amount_claim_release_round(&self, index: u8) -> (r: Result<u64, IDOProgramErrors>)
        ensures
            r == Ok::<u64, IDOProgramErrors>(claimed_amount(self.claims@, index)),
    {
        let n = self.claims.len();
        assert(self.claims@.skip(0) =~= self.claims@);
        for i in 0..n
            invariant
                n == self.claims@.len(),
                claimed_amount(self.claims@.skip(i as int), index) == claimed_amount(self.claims@, index),
        {
            proof {
                lemma_claims_skip(self.claims@, i as int, index);
            }
            if self.claims[i].release == index {
                return Ok(self.claims[i].amount);
            }
        }
        Ok(0)
    }

    /// The account size needed to hold the record and its claims.
    pub fn get_size(&self) -> (r: usize)
        requires
            83 + self.claims@.len() * 9 <= usize::MAX,
        ensures
            r == 83 + self.claims@.len() * 9,
    {
        let size = 8 + 75 + self.claims.len() * 9;
        size
    }
}

} // verus!
