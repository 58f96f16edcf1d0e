use vstd::prelude::*;
use crate::errors::IDOProgramErrors;
use crate::events::ClaimEvent;
use crate::ido::IdoAccount;
use crate::pubkey::Pubkey;
use crate::token::{associated_token_address, try_associated_token_address};
use crate::users::{ClaimItem, PdaUserStats, claim_fits, claims_after_claim};
use crate::safe_math::safe_add;
use crate::utils::{_get_allocation, allocation_of, try_allocation_of};

verus! {

/// A claim over tranches `i` up to `index - 1`, in order, for a wallet that
/// spent `participated` and has the claim entries `claims`: each tranche
/// whose status is 1 pays out its remaining amount, which is recorded as
/// claimed before the next tranche is looked at.  The result is the claim
/// entries afterwards and the payouts in order; `None` when a step leaves
/// its integer types.
pub open spec fn claim_run(
    ido: IdoAccount,
    participated: nat,
    claims: Seq<ClaimItem>,
    balance: u64,
    now: i64,
    i: nat,
    index: nat,
) -> Option<(Seq<ClaimItem>, Seq<u64>)>
    decreases index - i,
{
    if i >= index {
        Some((claims, Seq::empty()))
    } else {
        match allocation_of(ido, participated, claims, balance, i as usize, now) {
            None => None,
            Some(a) => if a.7 != 1 {
                claim_run(ido, participated, claims, balance, now, i + 1, index)
            } else if !claim_fits(claims, i as u8, a.6) {
                None
            } else {
                match claim_run(ido, participated, claims_after_claim(claims, i as u8, a.6), balance, now, i + 1, index) {
                    None => None,
                    Some(rest) => Some((rest.0, seq![a.6] + rest.1)),
                }
            },
        }
    }
}

/// `run` with `paid` put before its payouts.
pub open spec fn after_payouts(paid: Seq<u64>, run: Option<(Seq<ClaimItem>, Seq<u64>)>) -> Option<(Seq<ClaimItem>, Seq<u64>)> {
    match run {
        Some(x) => Some((x.0, paid + x.1)),
        None => None,
    }
}

/// Why a claim is refused, if it is: the destination must be the wallet's
/// associated token account for the release token, a release token must be
/// set, and at least one tranche must be asked for.
pub open spec fn claim_error(ido: IdoAccount, user: Pubkey, user_token_account: Pubkey, index: u8) -> Option<
    IDOProgramErrors,
> {
    if associated_token_address(user, ido._release_token) != Some(user_token_account) {
        Some(IDOProgramErrors::ReleaseTokenAccountNotMatch)
    } else if ido._release_token.is_default() {
        Some(IDOProgramErrors::InvalidReleaseToken)
    } else if index == 0 {
        Some(IDOProgramErrors::InvalidReleaseIndex)
    } else {
        None
    }
}

/// What `claim` gives: the refusal of `claim_error`, with the record left
/// as it was; else the record with the claim entries of `claim_run` and
/// one event per payout, in order.
pub open spec fn claim_outcome(
    ido: IdoAccount,
    before: PdaUserStats,
    after: PdaUserStats,
    user: Pubkey,
    user_token_account: Pubkey,
    balance: u64,
    index: u8,
    now: i64,
    r: Result<Vec<ClaimEvent>, IDOProgramErrors>,
) -> bool {
    &&& r is Err <==> claim_error(ido, user, user_token_account, index) is Some
    &&& r is Err ==> r->Err_0 == claim_error(ido, user, user_token_account, index)->Some_0 && after == before
    &&& r is Ok ==> ({
        let run = claim_run(ido, before.spec_total_participate(), before.claims@, balance, now, 0, index as nat)->Some_0;
        &&& after.claims@ == run.0
        &&& (PdaUserStats { claims: before.claims, ..after }) == before
        &&& r->Ok_0@.len() == run.1.len()
        &&& forall|k: int|
            0 <= k < run.1.len() ==> #[trigger] r->Ok_0@[k] == (ClaimEvent {
                index: index,
                address: before.address,
                claim: run.1[k],
                timestamp: now,
            })
    })
}

/// Claims every claimable tranche below `index` for wallet `user`, whose
/// release-token account is `user_token_account`, at time `now_ts` with a
/// pool holding `release_token_balance`.  Returns one event per payout, in
/// order; the caller transfers each event's `claim` from the pool and
/// emits the event.
pub fn claim(
    ido_account: &IdoAccount,
    user_pda: &mut PdaUserStats,
    user: Pubkey,
    user_token_account: Pubkey,
    release_token_balance: u64,
    index: u8,
    now_ts: i64,
) -> (r: Result<Vec<ClaimEvent>, IDOProgramErrors>)
    requires
        associated_token_address(user, ido_account._release_token) is Some,
        claim_error(*ido_account, user, user_token_account, index) is None ==> claim_run(
            *ido_account,
            old(user_pda).spec_total_participate(),
            old(user_pda).claims@,
            release_token_balance,
            now_ts,
            0,
            index as nat,
        ) is Some,
    ensures
        claim_outcome(
            *ido_account,
            *old(user_pda),
            *final(user_pda),
            user,
            user_token_account,
            release_token_balance,
            index,
            now_ts,
            r,
        ),
{
    let _user_token_address = try_associated_token_address(&user, &ido_account._release_token).unwrap();
    if _user_token_address != user_token_account {
        return Err(IDOProgramErrors::ReleaseTokenAccountNotMatch);
    }
    if ido_account._release_token == Pubkey::default() {
        return Err(IDOProgramErrors::InvalidReleaseToken);
    }
    if index == 0 {
        return Err(IDOProgramErrors::InvalidReleaseIndex);
    }
    let ghost participated = user_pda.spec_total_participate();
    let ghost full = claim_run(
        *ido_account,
        participated,
        user_pda.claims@,
        release_token_balance,
        now_ts,
        0,
        index as nat,
    );
    let ghost start = *user_pda;
    let ghost mut paid: Seq<u64> = Seq::empty();
    let mut events: Vec<ClaimEvent> = Vec::new();
    assert(after_payouts(paid, full) == full) by {
        assert(full is Some);
        assert(paid + full->Some_0.1 =~= full->Some_0.1);
    }
    for i in 0..index
        invariant
            full is Some,
            user_pda.spec_total_participate() == participated,
            (PdaUserStats { claims: start.claims, ..*user_pda }) == start,
            full == after_payouts(
                paid,
                claim_run(
                    *ido_account,
                    participated,
                    user_pda.claims@,
                    release_token_balance,
                    now_ts,
                    i as nat,
                    index as nat,
                ),
            ),
            events@.len() == paid.len(),
            forall|k: int|
                0 <= k < paid.len() ==> #[trigger] events@[k] == (ClaimEvent {
                    index: index,
                    address: start.address,
                    claim: paid[k],
                    timestamp: now_ts,
                }),
    {
        let ghost cur = user_pda.claims@;
        let (_, _, _, _, _, _, remaining, status) = _get_allocation(
            ido_account,
            user_pda,
            release_token_balance,
            i as usize,
            now_ts,
        );
        if status == 1 {
            user_pda.user_claim(i, remaining)?;
            proof {
                let rest = claim_run(
                    *ido_account,
                    participated,
                    user_pda.claims@,
                    release_token_balance,
                    now_ts,
                    (i + 1) as nat,
                    index as nat,
                );
                assert(claims_after_claim(cur, i, remaining) == user_pda.claims@);
                assert(rest is Some);
                assert(paid.push(remaining) + rest->Some_0.1 =~= paid + (seq![remaining] + rest->Some_0.1));
                paid = paid.push(remaining);
            }
            events.push(ClaimEvent { index: index, address: user_pda.address, claim: remaining, timestamp: now_ts });
        }
    }
    proof {
        assert(paid + Seq::<u64>::empty() =~= paid);
    }
    Ok(events)
}

/// Whether `claim` can be called on these inputs: the wallet's associated
/// token address can be derived, and the claim is either refused up front
/// or runs without leaving its integer types (the conditions of its
/// `requires`).
pub fn claim_completes(
    ido_account: &IdoAccount,
    user_pda: &PdaUserStats,
    user: Pubkey,
    user_token_account: Pubkey,
    release_token_balance: u64,
    index: u8,
    now_ts: i64,
) -> (r: bool)
    ensures
        r == (associated_token_address(user, ido_account._release_token) is Some && (claim_error(
            *ido_account,
            user,
            user_token_account,
            index,
        ) is Some || claim_run(
            *ido_account,
            user_pda.spec_total_participate(),
            user_pda.claims@,
            release_token_balance,
            now_ts,
            0,
            index as nat,
        ) is Some)),
{
    let token_address = match try_associated_token_address(&user, &ido_account._release_token) {
        Some(a) => a,
        None => {
            return false;
        },
    };
    if token_address != user_token_account || ido_account._release_token == Pubkey::default() || index == 0 {
        return true;
    }
    let participated: Option<u64> = if user_pda.total_participate_fits() {
        Some(user_pda.get_total_participate().unwrap())
    } else {
        None
    };
    let ghost p = user_pda.spec_total_participate();
    let ghost full = claim_run(*ido_account, p, user_pda.claims@, release_token_balance, now_ts, 0, index as nat);
    let mut claims: Vec<ClaimItem> = Vec::new();
    let n = user_pda.claims.len();
    for j in 0..n
        invariant
            n == user_pda.claims@.len(),
            claims@ == user_pda.claims@.take(j as int),
    {
        claims.push(user_pda.claims[j]);
        assert(claims@ =~= user_pda.claims@.take(j + 1));
    }
    assert(claims@ =~= user_pda.claims@);
    for i in 0..index
        invariant
            associated_token_address(user, ido_account._release_token) is Some,
            claim_error(*ido_account, user, user_token_account, index) is None,
            p == user_pda.spec_total_participate(),
            full == claim_run(*ido_account, p, user_pda.claims@, release_token_balance, now_ts, 0, index as nat),
            (participated is Some <==> p <= u64::MAX) && (participated is Some ==> participated->Some_0 == p),
            full is Some <==> claim_run(
                *ido_account,
                p,
                claims@,
                release_token_balance,
                now_ts,
                i as nat,
                index as nat,
            ) is Some,
    {
        let ta = try_allocation_of(ido_account, participated, &claims, release_token_balance, i as usize, now_ts);
        assert(ta == allocation_of(*ido_account, p, claims@, release_token_balance, i as usize, now_ts));
        let a = match ta {
            Some(a) => a,
            None => {
                return false;
            },
        };
        if a.7 == 1 {
            let k = i as usize;
            if k < claims.len() {
                let c = claims[k];
                let amount = match safe_add(c.amount, a.6) {
                    Ok(v) => v,
                    Err(_) => {
                        return false;
                    },
                };
                claims.set(k, ClaimItem { release: c.release, amount: amount });
            } else {
                claims.push(ClaimItem { release: i, amount: a.6 });
            }
        }
    }
    true
}

/// `claim` where it can be called (see `claim_completes`); `None`, with the
/// record left as it was, where it cannot.
pub fn claim_checked(
    ido_account: &IdoAccount,
    user_pda: &mut PdaUserStats,
    user: Pubkey,
    user_token_account: Pubkey,
    release_token_balance: u64,
    index: u8,
    now_ts: i64,
) -> (r: Option<Result<Vec<ClaimEvent>, IDOProgramErrors>>)
    ensures
        r is None <==> !(associated_token_address(user, ido_account._release_token) is Some && (claim_error(
            *ido_account,
            user,
            user_token_account,
            index,
        ) is Some || claim_run(
            *ido_account,
            old(user_pda).spec_total_participate(),
            old(user_pda).claims@,
            release_token_balance,
            now_ts,
            0,
            index as nat,
        ) is Some)),
        r is None ==> *final(user_pda) == *old(user_pda),
        r is Some ==> claim_outcome(
            *ido_account,
            *old(user_pda),
            *final(user_pda),
            user,
            user_token_account,
            release_token_balance,
            index,
            now_ts,
            r->Some_0,
        ),
{
    if !claim_completes(ido_account, user_pda, user, user_token_account, release_token_balance, index, now_ts) {
        return None;
    }
    Some(claim(ido_account, user_pda, user, user_token_account, release_token_balance, index, now_ts))
}

} // verus!
