use vstd::prelude::*;
use vstd::string::*;
use vstd::arithmetic::power::{pow, lemma_pow_positive};
use vstd::arithmetic::div_mod::{lemma_div_is_ordered, lemma_div_multiples_vanish};
use vstd::arithmetic::mul::lemma_mul_inequality;
use crate::ido::{IdoAccount, durations_sum, lemma_durations_sum_skip};
use crate::pubkey::Pubkey;
use crate::rounds::{RoundClass, RoundItem};
use crate::safe_math::{safe_add, safe_sub, safe_mul, safe_div, safe_pow};
use crate::users::{PdaUserStats, ClaimItem, claimed_amount, lemma_claims_skip};

verus! {

/// Percentages are given in hundredths of a percent.
pub const PERCENT_SCALED_DECIMALS: u64 = 10000;

/// Rates are given in millionths of a release token per raise token.
pub const RATE_DECIMALS: u64 = 1000000;

/// The share of a tranche before the decimals are aligned:
/// `participated * rate / RATE_DECIMALS * percent / PERCENT_SCALED_DECIMALS`,
/// each division rounding down; `None` when a product leaves `u64`.
pub open spec fn tranche_base(participated: int, rate: u32, percent: u16) -> Option<int> {
    let a = participated * rate;
    if a > u64::MAX {
        None
    } else {
        let c = (a / (RATE_DECIMALS as int)) * percent;
        if c > u64::MAX {
            None
        } else {
            Some(c / (PERCENT_SCALED_DECIMALS as int))
        }
    }
}

/// `total` moved from the raise token's decimals to the release token's:
/// divided or multiplied by the power of ten of their difference; `None`
/// when that power leaves `u32` or the product leaves `u64`.
pub open spec fn scale_decimals(total: int, raise_decimals: u8, release_decimals: u8) -> Option<int> {
    if raise_decimals > release_decimals {
        let p = pow(10, (raise_decimals - release_decimals) as nat);
        if p > u32::MAX {
            None
        } else {
            Some(total / p)
        }
    } else if release_decimals > raise_decimals {
        let p = pow(10, (release_decimals - raise_decimals) as nat);
        if p > u32::MAX || total * p > u64::MAX {
            None
        } else {
            Some(total * p)
        }
    } else {
        Some(total)
    }
}

/// The part of `total` vested at `now`: all of it outside a proper
/// vesting window, else the share of the window elapsed (rounding down);
/// `None` when the window's length leaves `i64` or a product leaves `u64`.
pub open spec fn vested(total: int, from: i64, to: i64, now: i64) -> Option<int> {
    if to > from && now < to {
        let elapsed: int = if now > from { now - from } else { 0 };
        let duration: int = to - from;
        if duration > i64::MAX || total * elapsed > u64::MAX {
            None
        } else {
            Some(total * elapsed / duration)
        }
    } else {
        Some(total)
    }
}

/// 1 when the tranche can be claimed now, 2 when it is open but nothing is
/// left to give (or the pool is empty), 0 when it is not open yet or no
/// release token is set.
pub open spec fn release_status(release_token: Pubkey, from: i64, now: i64, balance: u64, remaining: int) -> u8 {
    if !release_token.is_default() && (from == 0 || now > from) {
        if balance == 0 || remaining == 0 {
            2
        } else {
            1
        }
    } else {
        0
    }
}

/// The figures of tranche `index` at time `now` for a wallet that spent
/// `participated` in total and has the claim entries `claims`, with a pool
/// holding `balance` release tokens: (start, end, percent, claimable,
/// total, claimed, remaining, status).  A tranche that does not exist gives
/// only zeros.  `None` when the computation leaves its integer types.
pub open spec fn allocation_of(
    ido: IdoAccount,
    participated: nat,
    claims: Seq<ClaimItem>,
    balance: u64,
    index: usize,
    now: i64,
) -> Option<(i64, i64, u16, u64, u64, u64, u64, u8)> {
    if index >= ido._releases@.len() {
        Some((0, 0, 0, 0, 0, 0, 0, 0))
    } else {
        let r = ido._releases@[index as int];
        if participated > u64::MAX {
            None
        } else {
            match tranche_base(participated as int, ido._rate, r.percent) {
                None => None,
                Some(base) => match scale_decimals(base, ido._raise_token_decimals, ido._release_token_decimals) {
                    None => None,
                    Some(total) => match vested(total, r.from_timestamp, r.to_timestamp, now) {
                        None => None,
                        Some(claimable) => {
                            let claimed = claimed_amount(claims, index as u8);
                            let remaining: int = if claimed < claimable { claimable - claimed } else { 0 };
                            Some(
                                (
                                    r.from_timestamp,
                                    r.to_timestamp,
                                    r.percent,
                                    claimable as u64,
                                    total as u64,
                                    claimed,
                                    remaining as u64,
                                    release_status(ido._release_token, r.from_timestamp, now, balance, remaining),
                                ),
                            )
                        },
                    },
                },
            }
        }
    }
}

/// The figures of tranche `index` for `user` at time `now` (see `allocation_of`).
pub open spec fn spec_get_allocation(
    ido: IdoAccount,
    user: PdaUserStats,
    balance: u64,
    index: usize,
    now: i64,
) -> Option<(i64, i64, u16, u64, u64, u64, u64, u8)> {
    allocation_of(ido, user.spec_total_participate(), user.claims@, balance, index, now)
}

pub proof fn lemma_mul_div_le(t: int, e: int, d: int)
    requires
        0 <= t,
        0 <= e <= d,
        0 < d,
    ensures
        0 <= t * e / d <= t,
{
    lemma_mul_inequality(e, d, t);
    assert(e * t == t * e && d * t == t * d) by (nonlinear_arith);
    assert(0 <= t * e) by (nonlinear_arith)
        requires
            0 <= t,
            0 <= e,
    ;
    lemma_div_is_ordered(t * e, t * d, d);
    lemma_div_is_ordered(0, t * e, d);
    lemma_div_multiples_vanish(t, d);
    assert(d * t == t * d) by (nonlinear_arith);
}

pub proof fn lemma_mul_div_monotone(t: int, e1: int, e2: int, d: int)
    requires
        0 <= t,
        e1 <= e2,
        0 < d,
    ensures
        t * e1 / d <= t * e2 / d,
{
    lemma_mul_inequality(e1, e2, t);
    assert(e1 * t == t * e1 && e2 * t == t * e2) by (nonlinear_arith);
    lemma_div_is_ordered(t * e1, t * e2, d);
}

/// Every figure that `spec_get_allocation` returns is in range: what is
/// vested never exceeds the tranche, and what remains never exceeds it.
pub proof fn lemma_allocation_bounds(total: int, from: i64, to: i64, now: i64)
    requires
        0 <= total <= u64::MAX,
        vested(total, from, to, now) is Some,
    ensures
        0 <= vested(total, from, to, now)->Some_0 <= total,
        now >= to ==> vested(total, from, to, now)->Some_0 == total,
{
    if to > from && now < to {
        let elapsed: int = if now > from { now - from } else { 0 };
        lemma_mul_div_le(total, elapsed, to - from);
    }
}

pub proof fn lemma_scale_bounds(base: int, raise: u8, release: u8)
    requires
        0 <= base <= u64::MAX,
        scale_decimals(base, raise, release) is Some,
    ensures
        0 <= scale_decimals(base, raise, release)->Some_0 <= u64::MAX,
{
    if raise > release {
        let p = pow(10, (raise - release) as nat);
        lemma_pow_positive(10, (raise - release) as nat);
        lemma_div_is_ordered(0, base, p);
        assert(base / p <= base) by (nonlinear_arith)
            requires
                0 <= base,
                1 <= p,
        ;
    } else if release > raise {
        let p = pow(10, (release - raise) as nat);
        lemma_pow_positive(10, (release - raise) as nat);
        assert(0 <= base * p) by (nonlinear_arith)
            requires
                0 <= base,
                1 <= p,
        ;
    }
}

pub proof fn lemma_tranche_base_bounds(participated: int, rate: u32, percent: u16)
    requires
        participated >= 0,
        tranche_base(participated, rate, percent) is Some,
    ensures
        0 <= tranche_base(participated, rate, percent)->Some_0 <= u64::MAX,
{
    assert(0 <= participated * rate) by (nonlinear_arith)
        requires
            participated >= 0,
            rate >= 0,
    ;
    let a = participated * rate;
    assert(0 <= (a / (RATE_DECIMALS as int)) * percent) by (nonlinear_arith)
        requires
            a >= 0,
            percent >= 0,
    ;
}

/// The facts about one tranche's figures that hold whenever they can be
/// computed: the total is in range, what is claimable is within it (all of
/// it once the window has ended), what remains is claimable less claimed,
/// and the status is as `release_status` says.
pub proof fn lemma_allocation_facts(
    ido: IdoAccount,
    participated: nat,
    claims: Seq<ClaimItem>,
    balance: u64,
    index: usize,
    now: i64,
)
    requires
        allocation_of(ido, participated, claims, balance, index, now) is Some,
    ensures
        ({
            let a = allocation_of(ido, participated, claims, balance, index, now)->Some_0;
            &&& a.3 <= a.4
            &&& now >= a.1 ==> a.3 == a.4
            &&& a.5 == if index < ido._releases@.len() { claimed_amount(claims, index as u8) } else { 0 }
            &&& a.5 < a.3 ==> a.6 == a.3 - a.5
            &&& a.5 >= a.3 ==> a.6 == 0
            &&& a.7 == if index < ido._releases@.len() {
                release_status(ido._release_token, a.0, now, balance, a.6 as int)
            } else {
                0
            }
        }),
{
    if index < ido._releases@.len() {
        let r = ido._releases@[index as int];
        lemma_tranche_base_bounds(participated as int, ido._rate, r.percent);
        let base = tranche_base(participated as int, ido._rate, r.percent)->Some_0;
        lemma_scale_bounds(base, ido._raise_token_decimals, ido._release_token_decimals);
        let total = scale_decimals(base, ido._raise_token_decimals, ido._release_token_decimals)->Some_0;
        lemma_allocation_bounds(total, r.from_timestamp, r.to_timestamp, now);
    }
}

/// The figures of tranche `index` for the wallet at `now_ts`, given the
/// release-token balance of the sale's pool (the clock and the pool
/// balance are read by the caller).
pub fn _get_allocation(
    ido_account: &IdoAccount,
    user_pda: &PdaUserStats,
    release_token_balance: u64,
    index: usize,
    now_ts: i64,
) -> (r: (i64, i64, u16, u64, u64, u64, u64, u8))
    requires
        spec_get_allocation(*ido_account, *user_pda, release_token_balance, index, now_ts) is Some,
    ensures
        r == spec_get_allocation(*ido_account, *user_pda, release_token_balance, index, now_ts)->Some_0,
{
    if index >= ido_account._releases.len() {
        return (0, 0, 0, 0, 0, 0, 0, 0);
    }
    let r = ido_account._releases[index];
    let _rate: u32 = ido_account._rate;
    let mut status: u8 = 0;
    let mut remaining: u64 = 0;
    let percent: u16 = r.percent;
    let from_timestamp: i64 = r.from_timestamp;
    let to_timestamp: i64 = r.to_timestamp;
    let participated: u64 = user_pda.get_total_participate().unwrap();
    let raise_decimals: u8 = ido_account._raise_token_decimals;
    let release_decimals: u8 = ido_account._release_token_decimals;
    let a = safe_mul(participated, _rate as u64).unwrap();
    let b = safe_div(a, RATE_DECIMALS).unwrap();
    let c = safe_mul(b, percent as u64).unwrap();
    let mut total: u64 = safe_div(c, PERCENT_SCALED_DECIMALS).unwrap();
    let ghost base = total as int;
    if raise_decimals > release_decimals {
        let base10: u32 = 10;
        proof {
            lemma_pow_positive(10, (raise_decimals - release_decimals) as nat);
        }
        let p = safe_pow(base10, (raise_decimals - release_decimals) as u32).unwrap();
        total = safe_div(total, p as u64).unwrap();
    }
    if release_decimals > raise_decimals {
        let base10: u32 = 10;
        let p = safe_pow(base10, (release_decimals - raise_decimals) as u32).unwrap();
        total = safe_mul(total, p as u64).unwrap();
    }
    assert(total == scale_decimals(base, raise_decimals, release_decimals)->Some_0);
    let mut claimable = total;
    proof {
        lemma_allocation_bounds(total as int, from_timestamp, to_timestamp, now_ts);
    }
    if to_timestamp > from_timestamp && now_ts < to_timestamp {
        let mut elapsed: i64 = 0;
        if now_ts > from_timestamp {
            elapsed = now_ts - from_timestamp;
        }
        let duration = to_timestamp - from_timestamp;
        let m = safe_mul(total, elapsed as u64).unwrap();
        claimable = safe_div(m, duration as u64).unwrap();
    }
    let claimed = user_pda.get_amount_claim_release_round(index as u8).unwrap();
    if claimed < claimable {
        remaining = safe_sub(claimable, claimed).unwrap();
    }
    let native_token_pub = Pubkey::default();
    if ido_account._release_token != native_token_pub {
        if from_timestamp == 0 || now_ts > from_timestamp {
            status = 1;
            if release_token_balance == 0 {
                status = 2;
            }
            if remaining == 0 {
                status = 2;
            }
        }
    }
    (from_timestamp, to_timestamp, percent, claimable, total, claimed, remaining, status)
}

/// The figures of tranche `index` as `allocation_of` gives them, computed
/// with every step checked: `None` exactly when `allocation_of` is `None`.
/// `participated` is `None` when the wallet's total spending leaves `u64`.
pub fn try_allocation_of(
    ido_account: &IdoAccount,
    participated: Option<u64>,
    claims: &Vec<ClaimItem>,
    release_token_balance: u64,
    index: usize,
    now_ts: i64,
) -> (r: Option<(i64, i64, u16, u64, u64, u64, u64, u8)>)
    ensures
        forall|p: nat|
            (participated is Some <==> p <= u64::MAX) && (participated is Some ==> participated->Some_0 == p)
                ==> r == allocation_of(*ido_account, p, claims@, release_token_balance, index, now_ts),
{
    if index >= ido_account._releases.len() {
        return Some((0, 0, 0, 0, 0, 0, 0, 0));
    }
    let p = match participated {
        Some(p) => p,
        None => {
            return None;
        },
    };
    let r = ido_account._releases[index];
    let a = match safe_mul(p, ido_account._rate as u64) {
        Ok(v) => v,
        Err(_) => {
            return None;
        },
    };
    let b = safe_div(a, RATE_DECIMALS).unwrap();
    let c = match safe_mul(b, r.percent as u64) {
        Ok(v) => v,
        Err(_) => {
            return None;
        },
    };
    let mut total = safe_div(c, PERCENT_SCALED_DECIMALS).unwrap();
    let ghost base = total as int;
    let raise_decimals = ido_account._raise_token_decimals;
    let release_decimals = ido_account._release_token_decimals;
    if raise_decimals > release_decimals {
        proof {
            lemma_pow_positive(10, (raise_decimals - release_decimals) as nat);
        }
        let pw = match safe_pow(10, (raise_decimals - release_decimals) as u32) {
            Ok(v) => v,
            Err(_) => {
                return None;
            },
        };
        total = safe_div(total, pw as u64).unwrap();
    } else if release_decimals > raise_decimals {
        let pw = match safe_pow(10, (release_decimals - raise_decimals) as u32) {
            Ok(v) => v,
            Err(_) => {
                return None;
            },
        };
        total = match safe_mul(total, pw as u64) {
            Ok(v) => v,
            Err(_) => {
                return None;
            },
        };
    }
    assert(total == scale_decimals(base, raise_decimals, release_decimals)->Some_0);
    let mut claimable = total;
    if r.to_timestamp > r.from_timestamp && now_ts < r.to_timestamp {
        let duration_wide = r.to_timestamp as i128 - r.from_timestamp as i128;
        if duration_wide > i64::MAX as i128 {
            return None;
        }
        let mut elapsed: i64 = 0;
        if now_ts > r.from_timestamp {
            elapsed = now_ts - r.from_timestamp;
        }
        let duration = r.to_timestamp - r.from_timestamp;
        let m = match safe_mul(total, elapsed as u64) {
            Ok(v) => v,
            Err(_) => {
                return None;
            },
        };
        claimable = safe_div(m, duration as u64).unwrap();
    }
    proof {
        lemma_allocation_bounds(total as int, r.from_timestamp, r.to_timestamp, now_ts);
    }
    let claimed = claimed_amount_of(claims, index as u8);
    let mut remaining: u64 = 0;
    if claimed < claimable {
        remaining = claimable - claimed;
    }
    let mut status: u8 = 0;
    if ido_account._release_token != Pubkey::default() {
        if r.from_timestamp == 0 || now_ts > r.from_timestamp {
            status = 1;
            if release_token_balance == 0 || remaining == 0 {
                status = 2;
            }
        }
    }
    Some((r.from_timestamp, r.to_timestamp, r.percent, claimable, total, claimed, remaining, status))
}

/// The amount of the first claim entry for tranche `release`, or 0.
fn claimed_amount_of(claims: &Vec<ClaimItem>, release: u8) -> (r: u64)
    ensures
        r == claimed_amount(claims@, release),
{
    let n = claims.len();
    assert(claims@.skip(0) =~= claims@);
    for i in 0..n
        invariant
            n == claims@.len(),
            claimed_amount(claims@.skip(i as int), release) == claimed_amount(claims@, release),
    {
        proof {
            lemma_claims_skip(claims@, i as int, release);
        }
        if claims[i].release == release {
            return claims[i].amount;
        }
    }
    0
}

/// The round-state code of a round of kind `class` that is under way.
pub open spec fn round_state_of(class: RoundClass) -> u8 {
    match class {
        RoundClass::Allocation => 1,
        RoundClass::FcfsPrepare => 2,
        RoundClass::Fcfs => 3,
    }
}

/// The caption shown for each round-state code.
pub open spec fn round_caption(state: u8) -> Seq<char> {
    if state == 0 {
        "Allocation Round <u>opens</u> in:"@
    } else if state == 1 {
        "Allocation Round <u>closes</u> in:"@
    } else if state == 2 {
        "FCFS Round <u>opens</u> in:"@
    } else if state == 3 {
        "FCFS Round <u>closes</u> in:"@
    } else {
        ""@
    }
}

/// Walks the rounds from time `ts`, `passed` rounds already behind: the
/// number of the round under way at `now` (counted from 1), its state code
/// and its end; when every round is over, the number of rounds, state 4
/// and time 0.
pub open spec fn round_scan(rounds: Seq<RoundItem>, ts: int, now: int, passed: nat) -> (nat, u8, int)
    decreases rounds.len(),
{
    if rounds.len() == 0 {
        (passed, 4, 0)
    } else {
        let end = ts + rounds[0].duration_seconds;
        if now < end {
            (passed + 1, round_state_of(rounds[0].class), end)
        } else {
            round_scan(rounds.drop_first(), end, now, passed + 1)
        }
    }
}

/// What the wallet view shows at `now`: (tier, round number, state code,
/// time of the next change).  A closed sale shows round 0 in state 4; a
/// sale not open yet shows round 0 in state 0 with its opening time.
pub open spec fn spec_info_wallet(ido: IdoAccount, user: PdaUserStats, now: i64) -> (u8, int, u8, int) {
    let tier: u8 = if user.allocated { user.tier_index } else { 0 };
    if ido.spec_is_close(now) {
        (tier, 0, 4, 0)
    } else if now < ido._open_timestamp {
        (tier, 0, 0, ido._open_timestamp as int)
    } else {
        let s = round_scan(ido._rounds@, ido._open_timestamp as int, now as int, 0);
        (tier, s.0 as int, s.1, s.2)
    }
}

/// The wallet view at `now_ts` (the clock is read by the caller).
pub fn _info_wallet(ido_account: &mut IdoAccount, user_pda: &mut PdaUserStats, now_ts: i64) -> (r: (
    u8,
    u8,
    u8,
    String,
    i64,
))
    requires
        old(ido_account).timeline_fits(),
        spec_info_wallet(*old(ido_account), *old(user_pda), now_ts).1 <= 255,
    ensures
        *final(ido_account) == *old(ido_account),
        *final(user_pda) == *old(user_pda),
        r.0 == spec_info_wallet(*old(ido_account), *old(user_pda), now_ts).0,
        r.1 == spec_info_wallet(*old(ido_account), *old(user_pda), now_ts).1,
        r.2 == spec_info_wallet(*old(ido_account), *old(user_pda), now_ts).2,
        r.3@ == round_caption(r.2),
        r.4 == spec_info_wallet(*old(ido_account), *old(user_pda), now_ts).3,
{
    let mut round: usize = 0;
    let mut round_state: u8 = 4;
    let mut round_state_text = String::from_str("");
    let mut round_timestamp: i64 = 0;
    let is_close = ido_account._is_close(now_ts);
    let tier: u8 = if user_pda.allocated {
        user_pda.tier_index
    } else {
        0
    };
    if !is_close {
        let mut ts = ido_account._open_timestamp;
        if now_ts < ts {
            round_state = 0;
            round_state_text = String::from_str("Allocation Round <u>opens</u> in:");
            round_timestamp = ts;
        } else {
            let n = ido_account._rounds.len();
            let ghost rounds = ido_account._rounds@;
            let ghost close = ido_account.spec_close_timestamp();
            let mut i: usize = 0;
            assert(rounds.skip(0) =~= rounds);
            while i < n
                invariant_except_break
                    n == rounds.len(),
                    rounds == ido_account._rounds@,
                    close == ido_account.spec_close_timestamp(),
                    close <= i64::MAX,
                    0 <= i <= n,
                    ts + durations_sum(rounds.skip(i as int)) == close,
                    round_scan(rounds, ido_account._open_timestamp as int, now_ts as int, 0) == round_scan(
                        rounds.skip(i as int),
                        ts as int,
                        now_ts as int,
                        i as nat,
                    ),
                    round == i,
                    round_state == 4,
                    round_state_text@ == round_caption(4),
                    round_timestamp == 0,
                    now_ts >= ts,
                ensures
                    round_scan(rounds, ido_account._open_timestamp as int, now_ts as int, 0) == (
                        round as nat,
                        round_state,
                        round_timestamp as int,
                    ),
                    round_state_text@ == round_caption(round_state),
                decreases n - i,
            {
                proof {
                    lemma_durations_sum_skip(rounds, i as int);
                    assert(rounds.skip(i as int).drop_first() =~= rounds.skip(i + 1));
                }
                round = i + 1;
                ts = ts + ido_account._rounds[i].duration_seconds as i64;
                if now_ts < ts {
                    match ido_account._rounds[i].class {
                        RoundClass::Allocation => {
                            round_state = 1;
                            round_state_text = String::from_str("Allocation Round <u>closes</u> in:");
                            round_timestamp = ts;
                        },
                        RoundClass::FcfsPrepare => {
                            round_state = 2;
                            round_state_text = String::from_str("FCFS Round <u>opens</u> in:");
                            round_timestamp = ts;
                        },
                        RoundClass::Fcfs => {
                            round_state = 3;
                            round_state_text = String::from_str("FCFS Round <u>closes</u> in:");
                            round_timestamp = ts;
                        },
                    }
                    break;
                }
                i = i + 1;
            }
        }
    }
    (tier, round as u8, round_state, round_state_text, round_timestamp)
}

/// How much more of the raise token the wallet may spend in round `round`
/// (counted from 1): its tier's allocation in that round less everything
/// it has spent, or 0.
pub open spec fn spec_allocation_remaining(ido: IdoAccount, user: PdaUserStats, round: u8) -> int {
    if round == 0 || user.tier_index == 0 {
        0
    } else if user.allocated && round - 1 < ido._rounds@.len() {
        let participated = user.spec_total_participate();
        let allocated = ido._rounds@[round - 1].spec_tier_allocation(user.tier_index);
        if participated < allocated {
            allocated - participated
        } else {
            0
        }
    } else {
        0
    }
}

pub fn get_allocation_remaining(ido_account: &mut IdoAccount, user_pda: &PdaUserStats, round: &u8) -> (r: u64)
    requires
        (*round != 0 && user_pda.tier_index != 0 && user_pda.allocated && *round - 1 < old(ido_account)._rounds@.len()) ==> user_pda.spec_total_participate() <= u64::MAX,
    ensures
        *final(ido_account) == *old(ido_account),
        r == spec_allocation_remaining(*old(ido_account), *user_pda, *round),
{
    let tier = user_pda.tier_index;
    if *round == 0 || tier == 0 {
        return 0;
    }
    let round_index = (*round - 1) as usize;
    let _tier_index = tier;
    if user_pda.allocated {
        if round_index < ido_account._rounds.len() {
            let participated = user_pda.get_total_participate().unwrap();
            let allocated = ido_account._rounds[round_index].get_tier_allocation(_tier_index);
            if participated < allocated {
                return safe_sub(allocated, participated).unwrap();
            }
        } else {
            return 0;
        }
    }
    0
}

} // verus!
