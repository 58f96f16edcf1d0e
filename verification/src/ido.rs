use vstd::prelude::*;
use vstd::string::*;
use crate::errors::IDOProgramErrors;
use crate::pubkey::Pubkey;
use crate::releases::ReleaseItem;
use crate::rounds::{RoundClass, RoundItem};

verus! {

/// A participant tier and the number of wallets allocated to it.
#[derive(Clone, Debug)]
pub struct TierItem {
    pub name: String,
    pub allocated_count: u32,
}

/// The state of one sale.
pub struct IdoAccount {
    pub _closed: bool,
    pub _release_token_decimals: u8,
    pub _raise_token_decimals: u8,
    pub bump: u8,
    pub _rate: u32,
    pub ido_id: u64,
    pub _open_timestamp: i64,
    pub _participated_count: u32,
    pub _participated: u64,
    pub _cap: u64,
    pub _release_token: Pubkey,
    pub _raise_token: Pubkey,
    pub authority: Pubkey,
    pub _tiers: Vec<TierItem>,
    pub _rounds: Vec<RoundItem>,
    pub _releases: Vec<ReleaseItem>,
}

/// The total length in seconds of a sequence of rounds.
pub open spec fn durations_sum(rounds: Seq<RoundItem>) -> nat
    decreases rounds.len(),
{
    if rounds.len() == 0 {
        0
    } else {
        rounds[0].duration_seconds as nat + durations_sum(rounds.drop_first())
    }
}

/// The total length of the rounds that precede the first round that is not
/// an allocation round (all of them when every round is one).
pub open spec fn allocation_phase_length(rounds: Seq<RoundItem>) -> nat
    decreases rounds.len(),
{
    if rounds.len() == 0 {
        0
    } else if rounds[0].class != RoundClass::Allocation {
        0
    } else {
        rounds[0].duration_seconds as nat + allocation_phase_length(rounds.drop_first())
    }
}

/// The tiers after one wallet more (or, when `remove`, one fewer unless
/// none is counted) is counted in tier `index`.
pub open spec fn tiers_after_count(tiers: Seq<TierItem>, index: int, remove: bool) -> Seq<TierItem> {
    tiers.update(
        index,
        TierItem {
            allocated_count: if !remove {
                (tiers[index].allocated_count + 1) as u32
            } else if tiers[index].allocated_count > 0 {
                (tiers[index].allocated_count - 1) as u32
            } else {
                0
            },
            ..tiers[index]
        },
    )
}

/// The three tiers that every new sale starts with.
pub open spec fn is_initial_tiers(t: Seq<TierItem>) -> bool {
    &&& t.len() == 3
    &&& t[0].name@ == "Lottery Winners"@ && t[0].allocated_count == 0
    &&& t[1].name@ == "Top 100"@ && t[1].allocated_count == 0
    &&& t[2].name@ == "Top 200"@ && t[2].allocated_count == 0
}

/// The three rounds that every new sale starts with: an allocation round,
/// a 900-second preparation round, and a first-come-first-served round.
pub open spec fn is_initial_rounds(r: Seq<RoundItem>, allocation_duration: u32, fcfs_duration: u32) -> bool {
    &&& r.len() == 3
    &&& r[0].name@ == "Allocation"@ && r[0].duration_seconds == allocation_duration
    &&& r[0].class == RoundClass::Allocation && r[0].tier_allocations@.len() == 0
    &&& r[1].name@ == "FCFS - Prepare"@ && r[1].duration_seconds == 900
    &&& r[1].class == RoundClass::FcfsPrepare && r[1].tier_allocations@.len() == 0
    &&& r[2].name@ == "FCFS"@ && r[2].duration_seconds == fcfs_duration
    &&& r[2].class == RoundClass::Fcfs && r[2].tier_allocations@.len() == 0
}

pub proof fn lemma_durations_sum_skip(rounds: Seq<RoundItem>, i: int)
    requires
        0 <= i < rounds.len(),
    ensures
        durations_sum(rounds.skip(i)) == rounds[i].duration_seconds + durations_sum(rounds.skip(i + 1)),
        allocation_phase_length(rounds.skip(i)) == if rounds[i].class != RoundClass::Allocation {
            0
        } else {
            rounds[i].duration_seconds + allocation_phase_length(rounds.skip(i + 1))
        },
{
    assert(rounds.skip(i).drop_first() =~= rounds.skip(i + 1));
}

pub proof fn lemma_allocation_phase_le_total(rounds: Seq<RoundItem>)
    ensures
        allocation_phase_length(rounds) <= durations_sum(rounds),
    decreases rounds.len(),
{
    if rounds.len() > 0 {
        lemma_allocation_phase_le_total(rounds.drop_first());
    }
}

impl IdoAccount {
    /// The end of the last round.
    pub open spec fn spec_close_timestamp(self) -> int {
        self._open_timestamp + durations_sum(self._rounds@)
    }

    /// The start of the first round that is not an allocation round.
    pub open spec fn spec_fcfs_timestamp(self) -> int {
        self._open_timestamp + allocation_phase_length(self._rounds@)
    }

    /// The end of the last round fits in an `i64`.
    pub open spec fn timeline_fits(self) -> bool {
        self.spec_close_timestamp() <= i64::MAX
    }

    /// The sale takes no more participation at time `now`: it was closed by
    /// hand, its rounds are over, or the cap is reached.
    pub open spec fn spec_is_close(self, now: i64) -> bool {
        self._closed || now >= self.spec_close_timestamp() || self._participated >= self._cap
    }

    pub fn create_ido(
        &mut self,
        admin: &Pubkey,
        raise_token: &Pubkey,
        decimals: &u8,
        rate: &u32,
        open_timestamp: &i64,
        allocation_duration: &u32,
        fcfs_duration: &u32,
        cap: &u64,
        ido_id: &u64,
        bump: &u8,
    ) -> (r: Result<(), IDOProgramErrors>)
        ensures
            r is Ok,
            final(self)._raise_token == *raise_token,
            final(self)._raise_token_decimals == *decimals,
            final(self)._rate == *rate,
            final(self)._open_timestamp == *open_timestamp,
            final(self)._cap == *cap,
            final(self)._closed == false,
            final(self).authority == *admin,
            final(self).ido_id == *ido_id,
            final(self).bump == *bump,
            final(self)._release_token == Pubkey::zero(),
            is_initial_tiers(final(self)._tiers@),
            is_initial_rounds(final(self)._rounds@, *allocation_duration, *fcfs_duration),
            final(self)._release_token_decimals == old(self)._release_token_decimals,
            final(self)._participated_count == old(self)._participated_count,
            final(self)._participated == old(self)._participated,
            final(self)._releases == old(self)._releases,
    {
        self._raise_token = *raise_token;
        self._raise_token_decimals = *decimals;
        self._rate = *rate;
        self._open_timestamp = *open_timestamp;
        self._cap = *cap;
        self._closed = false;
        self.authority = *admin;
        self.ido_id = *ido_id;
        self.bump = *bump;
        self._release_token = Pubkey::default();
        self.init_tier()?;
        self.init_rounds(allocation_duration, fcfs_duration)?;
        Ok(())
    }

    pub fn init_tier(&mut self) -> (r: Result<(), IDOProgramErrors>)
        ensures
            r is Ok,
            is_initial_tiers(final(self)._tiers@),
            (IdoAccount { _tiers: old(self)._tiers, ..*final(self) }) == *old(self),
    {
        self._tiers = Vec::new();
        self.add_tier(TierItem { name: String::from_str("Lottery Winners"), allocated_count: 0 });
        self.add_tier(TierItem { name: String::from_str("Top 100"), allocated_count: 0 });
        self.add_tier(TierItem { name: String::from_str("Top 200"), allocated_count: 0 });
        Ok(())
    }

    pub fn init_rounds(&mut self, allocation_duration: &u32, fcfs_duration: &u32) -> (r: Result<(), IDOProgramErrors>)
        ensures
            r is Ok,
            is_initial_rounds(final(self)._rounds@, *allocation_duration, *fcfs_duration),
            (IdoAccount { _rounds: old(self)._rounds, ..*final(self) }) == *old(self),
    {
        self._rounds = Vec::new();
        self.add_round(RoundItem {
            name: String::from_str("Allocation"),
            duration_seconds: *allocation_duration,
            class: RoundClass::Allocation,
            tier_allocations: Vec::new(),
        });
        self.add_round(RoundItem {
            name: String::from_str("FCFS - Prepare"),
            duration_seconds: 900,
            class: RoundClass::FcfsPrepare,
            tier_allocations: Vec::new(),
        });
        self.add_round(RoundItem {
            name: String::from_str("FCFS"),
            duration_seconds: *fcfs_duration,
            class: RoundClass::Fcfs,
            tier_allocations: Vec::new(),
        });
        Ok(())
    }

    pub fn add_tier(&mut self, tier: TierItem)
        ensures
            final(self)._tiers@ == old(self)._tiers@.push(tier),
            (IdoAccount { _tiers: old(self)._tiers, ..*final(self) }) == *old(self),
    {
        self._tiers.push(tier);
    }

    pub fn add_round(&mut self, round: RoundItem)
        ensures
            final(self)._rounds@ == old(self)._rounds@.push(round),
            (IdoAccount { _rounds: old(self)._rounds, ..*final(self) }) == *old(self),
    {
        self._rounds.push(round);
    }

    pub fn set_closed(&mut self, close: &bool) -> (r: Result<(), IDOProgramErrors>)
        ensures
            r is Ok,
            *final(self) == (IdoAccount { _closed: *close, ..*old(self) }),
    {
        self._closed = *close;
        Ok(())
    }

    pub fn set_cap(&mut self, cap: &u64) -> (r: Result<(), IDOProgramErrors>)
        ensures
            r is Ok,
            *final(self) == (IdoAccount { _cap: *cap, ..*old(self) }),
    {
        self._cap = *cap;
        Ok(())
    }

    /// Replaces the release schedule by one tranche per entry of
    /// `from_timestamps`, taking its end and percentage from the same
    /// position of the other two lists.
    pub fn set_releases(
        &mut self,
        from_timestamps: &Vec<i64>,
        to_timestamps: &Vec<i64>,
        percents: &Vec<u16>,
    ) -> (r: Result<(), IDOProgramErrors>)
        requires
            to_timestamps.len() >= from_timestamps.len(),
            percents.len() >= from_timestamps.len(),
        ensures
            r is Ok,
            final(self)._releases@.len() == from_timestamps@.len(),
            forall|i: int|
                0 <= i < from_timestamps@.len() ==> #[trigger] final(self)._releases@[i] == (ReleaseItem {
                    percent: percents@[i],
                    from_timestamp: from_timestamps@[i],
                    to_timestamp: to_timestamps@[i],
                }),
            (IdoAccount { _releases: old(self)._releases, ..*final(self) }) == *old(self),
    {
        self._releases = Vec::new();
        let n = from_timestamps.len();
        for i in 0..n
            invariant
                n == from_timestamps@.len(),
                to_timestamps.len() >= n,
                percents.len() >= n,
                self._releases@.len() == i,
                forall|j: int|
                    0 <= j < i ==> #[trigger] self._releases@[j] == (ReleaseItem {
                        percent: percents@[j],
                        from_timestamp: from_timestamps@[j],
                        to_timestamp: to_timestamps@[j],
                    }),
                (IdoAccount { _releases: old(self)._releases, ..*self }) == *old(self),
        {
            self._releases.push(
                ReleaseItem {
                    from_timestamp: from_timestamps[i],
                    to_timestamp: to_timestamps[i],
                    percent: percents[i],
                },
            );
        }
        Ok(())
    }

    pub fn set_release_token(&mut self, token: &Pubkey, token_decimals: &u8) -> (r: Result<(), IDOProgramErrors>)
        ensures
            r is Ok,
            *final(self) == (IdoAccount {
                _release_token: *token,
                _release_token_decimals: *token_decimals,
                ..*old(self)
            }),
    {
        self._release_token = *token;
        self._release_token_decimals = *token_decimals;
        Ok(())
    }

    /// Renames round `index` and sets its length and kind; its tier
    /// allocations are kept.
    pub fn modify_round(&mut self, index: i32, name: String, duration_seconds: u32, class: RoundClass) -> (r: Result<
        (),
        IDOProgramErrors,
    >)
        ensures
            r is Err <==> (index < 0 || index >= old(self)._rounds@.len()),
            r is Err ==> r->Err_0 == IDOProgramErrors::InvalidRounds && *final(self) == *old(self),
            r is Ok ==> final(self)._rounds@ == old(self)._rounds@.update(
                index as int,
                RoundItem {
                    name: name,
                    duration_seconds: duration_seconds,
                    class: class,
                    tier_allocations: old(self)._rounds@[index as int].tier_allocations,
                },
            ),
            (IdoAccount { _rounds: old(self)._rounds, ..*final(self) }) == *old(self),
    {
        if index < 0 || index as usize >= self._rounds.len() {
            return Err(IDOProgramErrors::InvalidRounds);
        }
        let i = index as usize;
        let mut r = RoundItem {
            duration_seconds: 0,
            name: String::new(),
            class: RoundClass::Allocation,
            tier_allocations: Vec::new(),
        };
        self._rounds.set_and_swap(i, &mut r);
        r.name = name;
        r.duration_seconds = duration_seconds;
        r.class = class;
        self._rounds.set(i, r);
        Ok(())
    }

    /// Replaces the rounds by one round per name, taking its length and kind
    /// from the same position of the other two lists, with no tier
    /// allocations.
    pub fn modify_rounds(
        &mut self,
        name_list: &Vec<String>,
        duration_list: &Vec<u32>,
        class_list: &Vec<RoundClass>,
    ) -> (r: Result<(), IDOProgramErrors>)
        requires
            duration_list.len() >= name_list.len(),
            class_list.len() >= name_list.len(),
        ensures
            r is Ok,
            final(self)._rounds@.len() == name_list@.len(),
            forall|i: int|
                0 <= i < name_list@.len() ==> #[trigger] final(self)._rounds@[i] == (RoundItem {
                    name: name_list@[i],
                    duration_seconds: duration_list@[i],
                    class: class_list@[i],
                    tier_allocations: final(self)._rounds@[i].tier_allocations,
                }) && final(self)._rounds@[i].tier_allocations@.len() == 0,
            (IdoAccount { _rounds: old(self)._rounds, ..*final(self) }) == *old(self),
    {
        self._rounds = Vec::new();
        let n = name_list.len();
        for i in 0..n
            invariant
                n == name_list@.len(),
                duration_list.len() >= n,
                class_list.len() >= n,
                self._rounds@.len() == i,
                forall|j: int|
                    0 <= j < i ==> #[trigger] self._rounds@[j] == (RoundItem {
                        name: name_list@[j],
                        duration_seconds: duration_list@[j],
                        class: class_list@[j],
                        tier_allocations: self._rounds@[j].tier_allocations,
                    }) && self._rounds@[j].tier_allocations@.len() == 0,
                (IdoAccount { _rounds: old(self)._rounds, ..*self }) == *old(self),
        {
            self.add_round(
                RoundItem {
                    name: name_list[i].clone(),
                    duration_seconds: duration_list[i],
                    class: class_list[i],
                    tier_allocations: Vec::new(),
                },
            );
        }
        Ok(())
    }

    pub fn set_rate(&mut self, rate: &u32) -> (r: Result<(), IDOProgramErrors>)
        ensures
            r is Ok,
            *final(self) == (IdoAccount { _rate: *rate, ..*old(self) }),
    {
        self._rate = *rate;
        Ok(())
    }

    pub fn set_open_timestamp(&mut self, open_timestamps: &i64) -> (r: Result<(), IDOProgramErrors>)
        ensures
            r is Ok,
            *final(self) == (IdoAccount { _open_timestamp: *open_timestamps, ..*old(self) }),
    {
        self._open_timestamp = *open_timestamps;
        Ok(())
    }

    /// The end of the last round: the opening time plus every round's length.
    pub fn close_timestamp(&self) -> (r: i64)
        requires
            self.timeline_fits(),
        ensures
            r == self.spec_close_timestamp(),
    {
        let mut ts = self._open_timestamp;
        let n = self._rounds.len();
        assert(self._rounds@.skip(0) =~= self._rounds@);
        for i in 0..n
            invariant
                n == self._rounds@.len(),
                self.timeline_fits(),
                ts + durations_sum(self._rounds@.skip(i as int)) == self.spec_close_timestamp(),
                self._open_timestamp <= ts,
        {
            proof {
                lemma_durations_sum_skip(self._rounds@, i as int);
            }
            ts = ts + self._rounds[i].duration_seconds as i64;
        }
        assert(self._rounds@.skip(n as int).len() == 0);
        ts
    }

    /// The start of the first round that is not an allocation round, or the
    /// end of the last round when every round is an allocation round.
    pub fn fcfs_timestamp(&self) -> (r: i64)
        requires
            self.spec_fcfs_timestamp() <= i64::MAX,
        ensures
            r == self.spec_fcfs_timestamp(),
    {
        let mut ts = self._open_timestamp;
        let n = self._rounds.len();
        assert(self._rounds@.skip(0) =~= self._rounds@);
        for i in 0..n
            invariant
                n == self._rounds@.len(),
                self.spec_fcfs_timestamp() <= i64::MAX,
                ts + allocation_phase_length(self._rounds@.skip(i as int)) == self.spec_fcfs_timestamp(),
                self._open_timestamp <= ts,
        {
            proof {
                lemma_durations_sum_skip(self._rounds@, i as int);
            }
            match self._rounds[i].class {
                RoundClass::FcfsPrepare => {
                    return ts;
                },
                RoundClass::Fcfs => {
                    return ts;
                },
                _ => {
                    ts = ts + self._rounds[i].duration_seconds as i64;
                },
            }
        }
        assert(self._rounds@.skip(n as int).len() == 0);
        ts
    }

    /// Whether the sale is closed at time `now_ts` (the clock is read by the caller).
    pub fn _is_close(&self, now_ts: i64) -> (r: bool)
        requires
            self.timeline_fits(),
        ensures
            r == self.spec_is_close(now_ts),
    {
        let close_timestamp = self.close_timestamp();
        if self._closed || now_ts >= close_timestamp || self._participated >= self._cap {
            return true;
        }
        false
    }

    pub fn bump(&self) -> (r: u8)
        ensures
            r == self.bump,
    {
        self.bump
    }

    /// Counts one wallet more (or, when `remove`, one fewer unless none is
    /// counted) in tier `index`.
    pub fn update_allocate_count(&mut self, index: &usize, remove: &bool) -> (r: Result<(), IDOProgramErrors>)
        requires
            *index < old(self)._tiers@.len() && !*remove ==> old(self)._tiers@[*index as int].allocated_count
                < u32::MAX,
        ensures
            r is Err <==> *index >= old(self)._tiers@.len(),
            r is Err ==> r->Err_0 == IDOProgramErrors::InvalidRounds && *final(self) == *old(self),
            r is Ok ==> final(self)._tiers@ == tiers_after_count(old(self)._tiers@, *index as int, *remove),
            (IdoAccount { _tiers: old(self)._tiers, ..*final(self) }) == *old(self),
    {
        let i = *index;
        if i >= self._tiers.len() {
            return Err(IDOProgramErrors::InvalidRounds);
        }
        let mut tier = TierItem { name: String::new(), allocated_count: 0 };
        self._tiers.set_and_swap(i, &mut tier);
        if !*remove {
            tier.allocated_count = tier.allocated_count + 1;
        } else {
            if tier.allocated_count > 0 {
                tier.allocated_count = tier.allocated_count - 1;
            }
        }
        self._tiers.set(i, tier);
        Ok(())
    }
}

} // verus!
