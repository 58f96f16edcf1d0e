//! Properties that relate several operations or hold of every state.

use vstd::prelude::*;
use vstd::arithmetic::div_mod::{lemma_div_is_ordered, lemma_div_by_self};
use vstd::arithmetic::power::pow;
use crate::errors::IDOProgramErrors;
use crate::ido::{
    IdoAccount,
    TierItem,
    tiers_after_count,
    allocation_phase_length,
    durations_sum,
    lemma_allocation_phase_le_total,
};
use crate::onepad::{role_add_error, role_list_wf, without_key, lemma_without_key_properties};
use crate::instructions::user_claim_token::claim_run;
use crate::pubkey::Pubkey;
use crate::rounds::{RoundClass, RoundItem};
use crate::users::{
    ClaimItem,
    ParticipateItem,
    claimed_amount,
    claims_total,
    claims_after_claim,
    claim_fits,
    participate_total,
    participate_after,
    participate_fits,
    PdaUserStats,
};
use crate::utils::{
    allocation_of,
    lemma_allocation_bounds,
    lemma_allocation_facts,
    lemma_mul_div_monotone,
    lemma_scale_bounds,
    lemma_tranche_base_bounds,
    round_scan,
    scale_decimals,
    spec_allocation_remaining,
    spec_info_wallet,
    tranche_base,
};

verus! {

/// Adding a key that a role list accepts keeps the list well formed and
/// makes the key present.
pub proof fn law_role_add_keeps_wf(keys: Seq<Pubkey>, k: Pubkey, exists_err: IDOProgramErrors, limit_err: IDOProgramErrors)
    requires
        role_list_wf(keys),
        role_add_error(keys, k, exists_err, limit_err) is None,
    ensures
        role_list_wf(keys.push(k)),
        keys.push(k).contains(k),
{
    assert(keys.push(k)[keys.len() as int] == k);
    assert forall|a: int, b: int| 0 <= a < keys.push(k).len() && 0 <= b < keys.push(k).len() && a != b implies keys.push(
        k,
    )[a] != keys.push(k)[b] by {
        if a < keys.len() && b < keys.len() {
        } else if a == keys.len() {
            assert(keys.contains(keys[b]));
        } else {
            assert(keys.contains(keys[a]));
        }
    }
}

/// Removing a key from a role list keeps it well formed, leaves the key
/// absent, and keeps every other key.
pub proof fn law_role_remove_keeps_wf(keys: Seq<Pubkey>, k: Pubkey)
    requires
        role_list_wf(keys),
    ensures
        role_list_wf(without_key(keys, k)),
        !without_key(keys, k).contains(k),
        forall|x: Pubkey| x != k ==> (#[trigger] without_key(keys, k).contains(x) <==> keys.contains(x)),
{
    lemma_without_key_properties(keys, k);
}

/// Adding a key to a role list that already holds at least one key, and
/// then removing it, gives back the list as it was.
pub proof fn law_role_add_then_remove(keys: Seq<Pubkey>, k: Pubkey, exists_err: IDOProgramErrors, limit_err: IDOProgramErrors)
    requires
        role_add_error(keys, k, exists_err, limit_err) is None,
        keys.len() >= 1,
    ensures
        keys.push(k).len() != 1,
        without_key(keys.push(k), k) == keys,
{
    lemma_without_key_properties(keys, k);
    assert(keys.push(k).drop_last() =~= keys);
}

/// The first-come-first-served phase starts no earlier than the opening and
/// no later than the end of the last round.
pub proof fn law_fcfs_within_sale(ido: IdoAccount)
    ensures
        ido._open_timestamp <= ido.spec_fcfs_timestamp() <= ido.spec_close_timestamp(),
{
    lemma_allocation_phase_le_total(ido._rounds@);
}

/// Once a sale is closed it stays closed as time passes.
pub proof fn law_close_is_permanent(ido: IdoAccount, t1: i64, t2: i64)
    requires
        t1 <= t2,
        ido.spec_is_close(t1),
    ensures
        ido.spec_is_close(t2),
{
}

/// Vesting never goes backwards: for the same wallet and tranche, what is
/// claimable at a later time is at least what was claimable earlier, and
/// the tranche's total does not depend on the time.
pub proof fn law_vesting_monotone(
    ido: IdoAccount,
    participated: nat,
    claims: Seq<ClaimItem>,
    balance: u64,
    index: usize,
    t1: i64,
    t2: i64,
)
    requires
        t1 <= t2,
        allocation_of(ido, participated, claims, balance, index, t1) is Some,
        allocation_of(ido, participated, claims, balance, index, t2) is Some,
    ensures
        allocation_of(ido, participated, claims, balance, index, t1)->Some_0.3 <= allocation_of(
            ido,
            participated,
            claims,
            balance,
            index,
            t2,
        )->Some_0.3,
        allocation_of(ido, participated, claims, balance, index, t1)->Some_0.4 == allocation_of(
            ido,
            participated,
            claims,
            balance,
            index,
            t2,
        )->Some_0.4,
{
    lemma_allocation_facts(ido, participated, claims, balance, index, t1);
    lemma_allocation_facts(ido, participated, claims, balance, index, t2);
    if index < ido._releases@.len() {
        let r = ido._releases@[index as int];
        lemma_tranche_base_bounds(participated as int, ido._rate, r.percent);
        let base = tranche_base(participated as int, ido._rate, r.percent)->Some_0;
        lemma_scale_bounds(base, ido._raise_token_decimals, ido._release_token_decimals);
        let total = scale_decimals(base, ido._raise_token_decimals, ido._release_token_decimals)->Some_0;
        lemma_allocation_bounds(total, r.from_timestamp, r.to_timestamp, t1);
        lemma_allocation_bounds(total, r.from_timestamp, r.to_timestamp, t2);
        let (from, to) = (r.from_timestamp, r.to_timestamp);
        if to > from && t1 < to {
            let e1: int = if t1 > from { t1 - from } else { 0 };
            if t2 < to {
                let e2: int = if t2 > from { t2 - from } else { 0 };
                lemma_mul_div_monotone(total, e1, e2, to - from);
            }
        }
    }
}

/// What is claimable never exceeds the tranche's total, equals it once the
/// vesting window has ended, and what remains is what is claimable less
/// what was already claimed.
pub proof fn law_claimable_within_total(
    ido: IdoAccount,
    participated: nat,
    claims: Seq<ClaimItem>,
    balance: u64,
    index: usize,
    now: i64,
)
    requires
        allocation_of(ido, participated, claims, balance, index, now) is Some,
    ensures
        ({
            let a = allocation_of(ido, participated, claims, balance, index, now)->Some_0;
            &&& a.3 <= a.4
            &&& now >= a.1 ==> a.3 == a.4
            &&& a.6 <= a.3
            &&& a.5 < a.3 ==> a.5 + a.6 == a.3
            &&& a.5 >= a.3 ==> a.6 == 0
        }),
{
    lemma_allocation_facts(ido, participated, claims, balance, index, now);
}

/// A tranche is paid out only when something remains for the wallet, the
/// pool is not empty, a release token is set and the tranche has started.
pub proof fn law_payout_conditions(
    ido: IdoAccount,
    participated: nat,
    claims: Seq<ClaimItem>,
    balance: u64,
    index: usize,
    now: i64,
)
    requires
        allocation_of(ido, participated, claims, balance, index, now) is Some,
        allocation_of(ido, participated, claims, balance, index, now)->Some_0.7 == 1,
    ensures
        ({
            let a = allocation_of(ido, participated, claims, balance, index, now)->Some_0;
            &&& a.6 > 0
            &&& balance > 0
            &&& !ido._release_token.is_default()
            &&& a.0 == 0 || now > a.0
            &&& index < ido._releases@.len()
        }),
{
    lemma_allocation_facts(ido, participated, claims, balance, index, now);
}

/// Recording a claim adds exactly its amount to the wallet's claimed total,
/// whichever entry it lands in.
pub proof fn law_claim_total_grows(claims: Seq<ClaimItem>, index: u8, amount: u64)
    requires
        claim_fits(claims, index, amount),
    ensures
        claims_total(claims_after_claim(claims, index, amount)) == claims_total(claims) + amount,
{
    if (index as int) < claims.len() {
        lemma_claims_total_update(claims, index as int, (claims[index as int].amount + amount) as u64);
    } else {
        lemma_claims_total_push(claims, ClaimItem { release: index, amount: amount });
    }
}

proof fn lemma_claims_total_update(claims: Seq<ClaimItem>, i: int, v: u64)
    requires
        0 <= i < claims.len(),
    ensures
        claims_total(claims.update(i, ClaimItem { release: claims[i].release, amount: v })) == claims_total(claims)
            - claims[i].amount + v,
    decreases i,
{
    let c2 = claims.update(i, ClaimItem { release: claims[i].release, amount: v });
    if i == 0 {
        assert(c2.drop_first() =~= claims.drop_first());
    } else {
        lemma_claims_total_update(claims.drop_first(), i - 1, v);
        assert(c2.drop_first() =~= claims.drop_first().update(
            i - 1,
            ClaimItem { release: claims[i].release, amount: v },
        ));
    }
}

proof fn lemma_claims_total_push(claims: Seq<ClaimItem>, x: ClaimItem)
    ensures
        claims_total(claims.push(x)) == claims_total(claims) + x.amount,
    decreases claims.len(),
{
    if claims.len() > 0 {
        assert(claims.push(x)[0] == claims[0]);
        lemma_claims_total_push(claims.drop_first(), x);
        assert(claims.push(x).drop_first() =~= claims.drop_first().push(x));
    } else {
        assert(claims.push(x).drop_first() =~= Seq::<ClaimItem>::empty());
        assert(claims.push(x)[0] == x);
        assert(claims_total(Seq::<ClaimItem>::empty()) == 0);
    }
}

/// Recording a participation adds exactly its amount to the wallet's
/// total, whichever entry it lands in.
pub proof fn law_participate_total_grows(items: Seq<ParticipateItem>, round: u8, amount: u64)
    requires
        round >= 1,
        participate_fits(items, round, amount),
    ensures
        participate_total(participate_after(items, round, amount)) == participate_total(items) + amount,
{
    let ri = (round - 1) as u8;
    if (ri as int) < items.len() {
        lemma_participate_total_update(items, ri as int, (items[ri as int].amount + amount) as u64);
    } else {
        lemma_participate_total_push(items, ParticipateItem { round: ri, amount: amount });
    }
}

proof fn lemma_participate_total_update(items: Seq<ParticipateItem>, i: int, v: u64)
    requires
        0 <= i < items.len(),
    ensures
        participate_total(items.update(i, ParticipateItem { round: items[i].round, amount: v }))
            == participate_total(items) - items[i].amount + v,
    decreases i,
{
    let c2 = items.update(i, ParticipateItem { round: items[i].round, amount: v });
    if i == 0 {
        assert(c2.drop_first() =~= items.drop_first());
    } else {
        lemma_participate_total_update(items.drop_first(), i - 1, v);
        assert(c2.drop_first() =~= items.drop_first().update(
            i - 1,
            ParticipateItem { round: items[i].round, amount: v },
        ));
    }
}

proof fn lemma_participate_total_push(items: Seq<ParticipateItem>, x: ParticipateItem)
    ensures
        participate_total(items.push(x)) == participate_total(items) + x.amount,
    decreases items.len(),
{
    if items.len() > 0 {
        assert(items.push(x)[0] == items[0]);
        lemma_participate_total_push(items.drop_first(), x);
        assert(items.push(x).drop_first() =~= items.drop_first().push(x));
    } else {
        assert(items.push(x).drop_first() =~= Seq::<ParticipateItem>::empty());
        assert(items.push(x)[0] == x);
        assert(participate_total(Seq::<ParticipateItem>::empty()) == 0);
    }
}

/// Claim entries sit at the position of their tranche.
pub open spec fn claims_aligned(claims: Seq<ClaimItem>) -> bool {
    forall|j: int| 0 <= j < claims.len() ==> #[trigger] claims[j].release == j
}

proof fn lemma_claimed_amount_shifted(claims: Seq<ClaimItem>, base: int, release: u8)
    requires
        forall|j: int| 0 <= j < claims.len() ==> #[trigger] claims[j].release == base + j,
    ensures
        claimed_amount(claims, release) == if base <= release < base + claims.len() {
            claims[release - base].amount
        } else {
            0
        },
    decreases claims.len(),
{
    if claims.len() > 0 {
        let rest = claims.drop_first();
        assert forall|j: int| 0 <= j < rest.len() implies #[trigger] rest[j].release == (base + 1) + j by {
            assert(rest[j] == claims[j + 1]);
        }
        lemma_claimed_amount_shifted(rest, base + 1, release);
        assert(claims[0].release == base);
    }
}

/// With claim entries at the positions of their tranches, reading a
/// tranche's claimed amount after recording a claim for it at a position
/// that exists or is next gives the old amount plus the claim, and the
/// entries stay in place.
pub proof fn law_claim_read_after_write(claims: Seq<ClaimItem>, index: u8, amount: u64)
    requires
        claims_aligned(claims),
        index <= claims.len(),
        claim_fits(claims, index, amount),
    ensures
        claimed_amount(claims_after_claim(claims, index, amount), index) == claimed_amount(claims, index) + amount,
        claims_aligned(claims_after_claim(claims, index, amount)),
{
    let after = claims_after_claim(claims, index, amount);
    assert(claims_aligned(after));
    lemma_claimed_amount_shifted(claims, 0, index);
    lemma_claimed_amount_shifted(after, 0, index);
}

/// With claim entries at the positions of their tranches, a tranche that was
/// just paid out at time `now` has then been claimed exactly up to its
/// vested amount (never beyond its total), and pays nothing more at that
/// time.
pub proof fn law_no_second_payout(
    ido: IdoAccount,
    participated: nat,
    claims: Seq<ClaimItem>,
    balance: u64,
    i: u8,
    now: i64,
)
    requires
        claims_aligned(claims),
        i <= claims.len(),
        allocation_of(ido, participated, claims, balance, i as usize, now) is Some,
        allocation_of(ido, participated, claims, balance, i as usize, now)->Some_0.7 == 1,
        claim_fits(claims, i, allocation_of(ido, participated, claims, balance, i as usize, now)->Some_0.6),
    ensures
        ({
            let a = allocation_of(ido, participated, claims, balance, i as usize, now)->Some_0;
            let after = claims_after_claim(claims, i, a.6);
            &&& allocation_of(ido, participated, after, balance, i as usize, now) is Some
            &&& allocation_of(ido, participated, after, balance, i as usize, now)->Some_0.5 == a.3
            &&& a.3 <= a.4
            &&& allocation_of(ido, participated, after, balance, i as usize, now)->Some_0.6 == 0
            &&& allocation_of(ido, participated, after, balance, i as usize, now)->Some_0.7 != 1
        }),
{
    let a = allocation_of(ido, participated, claims, balance, i as usize, now)->Some_0;
    let after = claims_after_claim(claims, i, a.6);
    lemma_allocation_facts(ido, participated, claims, balance, i as usize, now);
    law_claim_read_after_write(claims, i, a.6);
    assert((i as usize) as u8 == i);
    assert(allocation_of(ido, participated, after, balance, i as usize, now) is Some);
    lemma_allocation_facts(ido, participated, after, balance, i as usize, now);
}

/// Counting a wallet into a tier and then out of it gives back the tiers.
pub proof fn law_count_in_then_out(tiers: Seq<TierItem>, index: int)
    requires
        0 <= index < tiers.len(),
        tiers[index].allocated_count < u32::MAX,
    ensures
        tiers_after_count(tiers_after_count(tiers, index, false), index, true) == tiers,
{
    let t1 = tiers_after_count(tiers, index, false);
    let t2 = tiers_after_count(t1, index, true);
    assert(t2 =~= tiers);
}

/// The sum of a sequence of amounts.
pub open spec fn amounts_sum(s: Seq<u64>) -> nat
    decreases s.len(),
{
    if s.len() == 0 {
        0
    } else {
        s[0] as nat + amounts_sum(s.drop_first())
    }
}

/// Every payout of a claim is recorded: the wallet's claimed total grows
/// by exactly the sum of the payouts.
pub proof fn law_claim_records_payouts(
    ido: IdoAccount,
    participated: nat,
    claims: Seq<ClaimItem>,
    balance: u64,
    now: i64,
    i: nat,
    index: nat,
)
    requires
        claim_run(ido, participated, claims, balance, now, i, index) is Some,
    ensures
        claims_total(claim_run(ido, participated, claims, balance, now, i, index)->Some_0.0) == claims_total(claims)
            + amounts_sum(claim_run(ido, participated, claims, balance, now, i, index)->Some_0.1),
    decreases index - i,
{
    if i < index {
        let a = allocation_of(ido, participated, claims, balance, i as usize, now)->Some_0;
        if a.7 != 1 {
            law_claim_records_payouts(ido, participated, claims, balance, now, i + 1, index);
        } else {
            let next = claims_after_claim(claims, i as u8, a.6);
            law_claim_total_grows(claims, i as u8, a.6);
            law_claim_records_payouts(ido, participated, next, balance, now, i + 1, index);
            let rest = claim_run(ido, participated, next, balance, now, i + 1, index)->Some_0;
            assert((seq![a.6] + rest.1).drop_first() =~= rest.1);
        }
    } else {
        assert(amounts_sum(Seq::<u64>::empty()) == 0);
    }
}

proof fn lemma_allocation_same_claimed(
    ido: IdoAccount,
    participated: nat,
    c1: Seq<ClaimItem>,
    c2: Seq<ClaimItem>,
    balance: u64,
    j: usize,
    now: i64,
)
    requires
        claimed_amount(c1, j as u8) == claimed_amount(c2, j as u8),
    ensures
        allocation_of(ido, participated, c1, balance, j, now) == allocation_of(ido, participated, c2, balance, j, now),
{
}

/// Entries at positions from `i` on, and entries for tranches from `i` on,
/// sit at the positions of their tranches.
spec fn claims_placed_from(claims: Seq<ClaimItem>, i: int) -> bool {
    forall|p: int|
        0 <= p < claims.len() && (p >= i || claims[p].release >= i) ==> #[trigger] claims[p].release == p
}

proof fn lemma_claimed_unique(claims: Seq<ClaimItem>, r: u8, q: int)
    requires
        forall|p: int| 0 <= p < claims.len() && #[trigger] claims[p].release == r ==> p == q,
    ensures
        0 <= q < claims.len() && claims[q].release == r ==> claimed_amount(claims, r) == claims[q].amount,
        !(0 <= q < claims.len() && claims[q].release == r) ==> claimed_amount(claims, r) == 0,
    decreases claims.len(),
{
    if claims.len() > 0 && claims[0].release != r {
        let rest = claims.drop_first();
        assert forall|p: int| 0 <= p < rest.len() && #[trigger] rest[p].release == r implies p == q - 1 by {
            assert(rest[p] == claims[p + 1]);
        }
        lemma_claimed_unique(rest, r, q - 1);
        if 1 <= q < claims.len() {
            assert(rest[q - 1] == claims[q]);
        }
    }
}

proof fn lemma_claimed_other_update(claims: Seq<ClaimItem>, k: int, x: ClaimItem, m: u8)
    requires
        0 <= k < claims.len(),
        claims[k].release == x.release,
        x.release != m,
    ensures
        claimed_amount(claims.update(k, x), m) == claimed_amount(claims, m),
    decreases claims.len(),
{
    if k == 0 {
        assert(claims.update(k, x).drop_first() =~= claims.drop_first());
    } else {
        assert(claims.update(k, x).drop_first() =~= claims.drop_first().update(k - 1, x));
        lemma_claimed_other_update(claims.drop_first(), k - 1, x, m);
    }
}

proof fn lemma_claimed_other_push(claims: Seq<ClaimItem>, x: ClaimItem, m: u8)
    requires
        x.release != m,
    ensures
        claimed_amount(claims.push(x), m) == claimed_amount(claims, m),
    decreases claims.len(),
{
    if claims.len() == 0 {
        assert(claims.push(x).drop_first() =~= claims);
    } else {
        assert(claims.push(x).drop_first() =~= claims.drop_first().push(x));
        lemma_claimed_other_push(claims.drop_first(), x, m);
    }
}

/// Recording a claim for tranche `i` where entries from `i` on are in
/// place adds the claim to tranche `i` alone.
proof fn lemma_claim_step(claims: Seq<ClaimItem>, i: u8, amount: u64)
    requires
        claims_placed_from(claims, i as int),
        claim_fits(claims, i, amount),
    ensures
        ({
            let after = claims_after_claim(claims, i, amount);
            &&& claimed_amount(after, i) == claimed_amount(claims, i) + amount
            &&& forall|m: u8| m != i ==> #[trigger] claimed_amount(after, m) == claimed_amount(claims, m)
            &&& claims_placed_from(after, i + 1)
            &&& after.len() >= claims.len()
            &&& claims_aligned(claims) && (i as int) <= claims.len() ==> claims_aligned(after)
        }),
{
    let after = claims_after_claim(claims, i, amount);
    if (i as int) < claims.len() {
        let x = after[i as int];
        assert(after == claims.update(i as int, x));
        assert forall|p: int| 0 <= p < after.len() implies #[trigger] after[p].release == claims[p].release by {}
        lemma_claimed_unique(claims, i, i as int);
        lemma_claimed_unique(after, i, i as int);
        assert forall|m: u8| m != i implies #[trigger] claimed_amount(after, m) == claimed_amount(claims, m) by {
            lemma_claimed_other_update(claims, i as int, x, m);
        }
    } else {
        let x = ClaimItem { release: i, amount: amount };
        assert(after == claims.push(x));
        assert forall|p: int| 0 <= p < claims.len() && #[trigger] claims[p].release == i implies p == i as int by {}
        lemma_claimed_unique(claims, i, i as int);
        assert forall|p: int| 0 <= p < after.len() && #[trigger] after[p].release == i implies p == claims.len() by {
            if p < claims.len() {
                assert(after[p] == claims[p]);
            }
        }
        lemma_claimed_unique(after, i, claims.len() as int);
        assert forall|m: u8| m != i implies #[trigger] claimed_amount(after, m) == claimed_amount(claims, m) by {
            lemma_claimed_other_push(claims, x, m);
        }
    }
}

/// What a claim run from tranche `i` does to the claimed amounts, where
/// entries from `i` on are in place: every tranche it visits is computed,
/// each tranche it pays out has its claimed amount raised by exactly the
/// payout, and every other tranche keeps its claimed amount.
proof fn lemma_claim_run_effect(
    ido: IdoAccount,
    participated: nat,
    claims: Seq<ClaimItem>,
    balance: u64,
    now: i64,
    i: nat,
    index: nat,
)
    requires
        claims_placed_from(claims, i as int),
        index <= 256,
        claim_run(ido, participated, claims, balance, now, i, index) is Some,
    ensures
        ({
            let cf = claim_run(ido, participated, claims, balance, now, i, index)->Some_0.0;
            &&& forall|j: int|
                i <= j < index ==> (#[trigger] allocation_of(ido, participated, claims, balance, j as usize, now)) is Some
            &&& forall|m: u8| #[trigger]
                claimed_amount(cf, m) == claimed_amount(claims, m) + paid_in_run(
                    ido,
                    participated,
                    claims,
                    balance,
                    now,
                    i,
                    index,
                    m,
                )
        }),
    decreases index - i,
{
    if i < index {
        let a = allocation_of(ido, participated, claims, balance, i as usize, now)->Some_0;
        if a.7 != 1 {
            lemma_claim_run_effect(ido, participated, claims, balance, now, i + 1, index);
            assert forall|m: u8| #[trigger] paid_in_run(ido, participated, claims, balance, now, i, index, m)
                == paid_in_run(ido, participated, claims, balance, now, i + 1, index, m) by {}
        } else {
            let next = claims_after_claim(claims, i as u8, a.6);
            lemma_claim_step(claims, i as u8, a.6);
            assert((i as u8) as int == i);
            lemma_claim_run_effect(ido, participated, next, balance, now, i + 1, index);
            assert forall|j: int| i + 1 <= j < index implies #[trigger] allocation_of(
                ido,
                participated,
                next,
                balance,
                j as usize,
                now,
            ) == allocation_of(ido, participated, claims, balance, j as usize, now) by {
                assert((j as usize) as u8 != i as u8);
                lemma_allocation_same_claimed(ido, participated, next, claims, balance, j as usize, now);
            }
            assert forall|m: u8| #[trigger] paid_in_run(ido, participated, claims, balance, now, i, index, m)
                == (if m as int == i { a.6 as int } else { paid_in_run(ido, participated, next, balance, now, i + 1, index, m) }) by {
                if m as int != i && (m as int) >= i + 1 && (m as int) < index {
                    assert(allocation_of(ido, participated, next, balance, (m as int) as usize, now)
                        == allocation_of(ido, participated, claims, balance, (m as int) as usize, now));
                }
            }
        }
        assert forall|j: int| i <= j < index implies (#[trigger] allocation_of(
            ido,
            participated,
            claims,
            balance,
            j as usize,
            now,
        )) is Some by {
            if j == i {
                assert(allocation_of(ido, participated, claims, balance, (i as int) as usize, now) is Some);
            } else if a.7 == 1 {
                let next = claims_after_claim(claims, i as u8, a.6);
                assert(allocation_of(ido, participated, next, balance, j as usize, now) is Some);
            }
        }
    }
}

/// What tranche `m` is paid by a claim run from tranche `i` to `index - 1`,
/// read off the entries the run starts from: its remaining amount when it
/// is visited and claimable, else nothing.
spec fn paid_in_run(
    ido: IdoAccount,
    participated: nat,
    claims: Seq<ClaimItem>,
    balance: u64,
    now: i64,
    i: nat,
    index: nat,
    m: u8,
) -> int {
    let a = allocation_of(ido, participated, claims, balance, m as usize, now)->Some_0;
    if i <= m < index && a.7 == 1 {
        a.6 as int
    } else {
        0
    }
}

proof fn lemma_claim_run_settled_pays_nothing(
    ido: IdoAccount,
    participated: nat,
    claims: Seq<ClaimItem>,
    balance: u64,
    now: i64,
    i: nat,
    index: nat,
)
    requires
        forall|j: int| i <= j < index ==> #[trigger] allocation_of(ido, participated, claims, balance, j as usize, now) is Some,
        forall|j: int| i <= j < index ==> #[trigger] allocation_of(ido, participated, claims, balance, j as usize, now)->Some_0.7 != 1,
    ensures
        claim_run(ido, participated, claims, balance, now, i, index) == Some((claims, Seq::<u64>::empty())),
    decreases index - i,
{
    if i < index {
        assert(allocation_of(ido, participated, claims, balance, (i as int) as usize, now) is Some);
        lemma_claim_run_settled_pays_nothing(ido, participated, claims, balance, now, i + 1, index);
    }
}

/// Claiming again at the same moment pays nothing, whatever the pool holds
/// then, when the wallet's claim entries sit at the positions of their
/// tranches and the pool was not empty the first time.
pub proof fn law_claim_twice_pays_once(
    ido: IdoAccount,
    participated: nat,
    claims: Seq<ClaimItem>,
    balance: u64,
    again_balance: u64,
    now: i64,
    index: u8,
)
    requires
        claims_aligned(claims),
        balance > 0,
        claim_run(ido, participated, claims, balance, now, 0, index as nat) is Some,
    ensures
        ({
            let after = claim_run(ido, participated, claims, balance, now, 0, index as nat)->Some_0.0;
            claim_run(ido, participated, after, again_balance, now, 0, index as nat) == Some((after, Seq::<u64>::empty()))
        }),
{
    lemma_claim_run_effect(ido, participated, claims, balance, now, 0, index as nat);
    let after = claim_run(ido, participated, claims, balance, now, 0, index as nat)->Some_0.0;
    assert forall|j: int| 0 <= j < index implies #[trigger] allocation_of(
        ido,
        participated,
        after,
        again_balance,
        j as usize,
        now,
    ) is Some && allocation_of(ido, participated, after, again_balance, j as usize, now)->Some_0.7 != 1 by {
        assert(allocation_of(ido, participated, claims, balance, j as usize, now) is Some);
        assert(claimed_amount(after, (j as usize) as u8) == claimed_amount(claims, (j as usize) as u8) + paid_in_run(
            ido, participated, claims, balance, now, 0, index as nat, (j as usize) as u8));
        lemma_second_look(ido, participated, claims, after, balance, again_balance, j as usize, now,
            paid_in_run(ido, participated, claims, balance, now, 0, index as nat, (j as usize) as u8));
    }
    lemma_claim_run_settled_pays_nothing(ido, participated, after, again_balance, now, 0, index as nat);
}

/// A tranche looked at again with the claimed amount a payout left (or
/// untouched when it paid nothing), with any pool balance, is computed and
/// pays nothing, when the pool was not empty the first time.
proof fn lemma_second_look(
    ido: IdoAccount,
    participated: nat,
    claims: Seq<ClaimItem>,
    after: Seq<ClaimItem>,
    balance: u64,
    again_balance: u64,
    j: usize,
    now: i64,
    paid: int,
)
    requires
        j < 256,
        balance > 0,
        allocation_of(ido, participated, claims, balance, j, now) is Some,
        paid == (if allocation_of(ido, participated, claims, balance, j, now)->Some_0.7 == 1 {
            allocation_of(ido, participated, claims, balance, j, now)->Some_0.6 as int
        } else {
            0
        }),
        claimed_amount(after, j as u8) == claimed_amount(claims, j as u8) + paid,
    ensures
        allocation_of(ido, participated, after, again_balance, j, now) is Some,
        allocation_of(ido, participated, after, again_balance, j, now)->Some_0.7 != 1,
{
    lemma_allocation_facts(ido, participated, claims, balance, j, now);
    assert(allocation_of(ido, participated, after, again_balance, j, now) is Some);
    lemma_allocation_facts(ido, participated, after, again_balance, j, now);
}

/// The total of tranche `j` for a wallet that spent `participated`: what
/// `allocation_of` gives as the tranche's total whenever it computes it
/// (at any time, with any claim entries and any pool balance); 0 for a
/// tranche that does not exist or whose total cannot be computed.
pub open spec fn tranche_total(ido: IdoAccount, participated: nat, j: int) -> int {
    if 0 <= j < ido._releases@.len() && participated <= u64::MAX {
        match tranche_base(participated as int, ido._rate, ido._releases@[j].percent) {
            Some(base) => match scale_decimals(base, ido._raise_token_decimals, ido._release_token_decimals) {
                Some(total) => total,
                None => 0,
            },
            None => 0,
        }
    } else {
        0
    }
}

/// A tranche paid out by a claim ends claimed up to what is claimable,
/// which is within the tranche's total.
proof fn lemma_payout_reaches_claimable(
    ido: IdoAccount,
    participated: nat,
    claims: Seq<ClaimItem>,
    balance: u64,
    j: usize,
    now: i64,
)
    requires
        allocation_of(ido, participated, claims, balance, j, now) is Some,
    ensures
        ({
            let a = allocation_of(ido, participated, claims, balance, j, now)->Some_0;
            &&& a.4 == tranche_total(ido, participated, j as int)
            &&& a.7 == 1 ==> claimed_amount(claims, j as u8) + a.6 == a.3
            &&& a.3 <= a.4
        }),
{
    lemma_allocation_facts(ido, participated, claims, balance, j, now);
    if j < ido._releases@.len() {
        let r = ido._releases@[j as int];
        lemma_tranche_base_bounds(participated as int, ido._rate, r.percent);
        let base = tranche_base(participated as int, ido._rate, r.percent)->Some_0;
        lemma_scale_bounds(base, ido._raise_token_decimals, ido._release_token_decimals);
    }
}

/// A claim run from tranche `i` over aligned entries that reach at least
/// `i` keeps them aligned when every tranche without an entry pays out.
proof fn lemma_claim_run_keeps_aligned(
    ido: IdoAccount,
    participated: nat,
    claims: Seq<ClaimItem>,
    balance: u64,
    now: i64,
    i: nat,
    index: nat,
)
    requires
        claims_aligned(claims),
        claims.len() >= i,
        index <= 256,
        claim_run(ido, participated, claims, balance, now, i, index) is Some,
        forall|j: int|
            claims.len() <= j < index ==> #[trigger] allocation_of(ido, participated, claims, balance, j as usize, now)->Some_0.7
                == 1,
    ensures
        claims_aligned(claim_run(ido, participated, claims, balance, now, i, index)->Some_0.0),
    decreases index - i,
{
    if i < index {
        let a = allocation_of(ido, participated, claims, balance, i as usize, now)->Some_0;
        assert(allocation_of(ido, participated, claims, balance, (i as int) as usize, now) == Some(a));
        if a.7 != 1 {
            lemma_claim_run_keeps_aligned(ido, participated, claims, balance, now, i + 1, index);
        } else {
            let next = claims_after_claim(claims, i as u8, a.6);
            lemma_claim_step(claims, i as u8, a.6);
            assert((i as u8) as int == i);
            assert forall|j: int| next.len() <= j < index implies #[trigger] allocation_of(
                ido,
                participated,
                next,
                balance,
                j as usize,
                now,
            )->Some_0.7 == 1 by {
                assert((j as usize) as u8 != i as u8);
                lemma_allocation_same_claimed(ido, participated, next, claims, balance, j as usize, now);
            }
            lemma_claim_run_keeps_aligned(ido, participated, next, balance, now, i + 1, index);
        }
    }
}

/// No tranche is ever paid beyond its total: over claim entries that sit
/// at the positions of their tranches and claim no tranche beyond its
/// total, a claim at any time and with any pool balance raises the claimed
/// amount of each tranche it pays out by exactly that payout, leaves every
/// other tranche's claimed amount as it was, and still claims no tranche
/// beyond its total.  The entries stay at their positions (so that the
/// same holds of the next claim) when every tranche visited that had no
/// entry yet pays out.
pub proof fn law_claims_within_totals(
    ido: IdoAccount,
    participated: nat,
    claims: Seq<ClaimItem>,
    balance: u64,
    now: i64,
    index: u8,
)
    requires
        claims_aligned(claims),
        forall|j: u8| #[trigger] claimed_amount(claims, j) <= tranche_total(ido, participated, j as int),
        claim_run(ido, participated, claims, balance, now, 0, index as nat) is Some,
    ensures
        ({
            let cf = claim_run(ido, participated, claims, balance, now, 0, index as nat)->Some_0.0;
            &&& forall|j: u8| #[trigger] claimed_amount(cf, j) <= tranche_total(ido, participated, j as int)
            &&& forall|j: u8|
                #[trigger] claimed_amount(cf, j) == claimed_amount(claims, j) + if j < index && allocation_of(
                    ido,
                    participated,
                    claims,
                    balance,
                    j as usize,
                    now,
                )->Some_0.7 == 1 {
                    allocation_of(ido, participated, claims, balance, j as usize, now)->Some_0.6 as int
                } else {
                    0
                }
            &&& (forall|j: int|
                claims.len() <= j < index ==> #[trigger] allocation_of(
                    ido,
                    participated,
                    claims,
                    balance,
                    j as usize,
                    now,
                )->Some_0.7 == 1) ==> claims_aligned(cf)
        }),
{
    lemma_claim_run_effect(ido, participated, claims, balance, now, 0, index as nat);
    let cf = claim_run(ido, participated, claims, balance, now, 0, index as nat)->Some_0.0;
    assert forall|j: u8| #[trigger] claimed_amount(cf, j) <= tranche_total(ido, participated, j as int) by {
        assert(claimed_amount(cf, j) == claimed_amount(claims, j) + paid_in_run(
            ido, participated, claims, balance, now, 0, index as nat, j));
        assert(claimed_amount(claims, j) <= tranche_total(ido, participated, j as int));
        if j < index {
            assert(allocation_of(ido, participated, claims, balance, (j as int) as usize, now) is Some);
            lemma_payout_reaches_claimable(ido, participated, claims, balance, j as usize, now);
        }
    }
    assert forall|j: u8| #[trigger] claimed_amount(cf, j) == claimed_amount(claims, j) + if j < index && allocation_of(
        ido,
        participated,
        claims,
        balance,
        j as usize,
        now,
    )->Some_0.7 == 1 {
        allocation_of(ido, participated, claims, balance, j as usize, now)->Some_0.6 as int
    } else {
        0
    } by {
        assert(claimed_amount(cf, j) == claimed_amount(claims, j) + paid_in_run(
            ido, participated, claims, balance, now, 0, index as nat, j));
    }
    if forall|j: int|
        claims.len() <= j < index ==> #[trigger] allocation_of(ido, participated, claims, balance, j as usize, now)->Some_0.7
            == 1 {
        lemma_claim_run_keeps_aligned(ido, participated, claims, balance, now, 0, index as nat);
    }
}

/// The wallet view's time of the next change lies in the future whenever
/// the sale is not over, and is 0 when it is.
pub proof fn law_info_wallet_next_change(ido: IdoAccount, user: PdaUserStats, now: i64)
    ensures
        ({
            let v = spec_info_wallet(ido, user, now);
            &&& v.2 <= 4
            &&& v.2 < 4 ==> v.3 > now
            &&& v.2 == 4 ==> v.3 == 0
        }),
{
    if !ido.spec_is_close(now) && now >= ido._open_timestamp {
        lemma_round_scan_future(ido._rounds@, ido._open_timestamp as int, now as int, 0);
    }
}

proof fn lemma_round_scan_future(rounds: Seq<RoundItem>, ts: int, now: int, passed: nat)
    ensures
        round_scan(rounds, ts, now, passed).1 <= 4,
        round_scan(rounds, ts, now, passed).1 < 4 ==> round_scan(rounds, ts, now, passed).2 > now,
        round_scan(rounds, ts, now, passed).1 == 4 ==> round_scan(rounds, ts, now, passed).2 == 0,
    decreases rounds.len(),
{
    if rounds.len() > 0 {
        lemma_round_scan_future(rounds.drop_first(), ts + rounds[0].duration_seconds, now, passed + 1);
    }
}

/// The vesting schedule of a tranche: the figures show the tranche's start,
/// end and percent; before a proper window (start < end) opens nothing is
/// claimable; strictly inside it, what is claimable is the tranche's total
/// times the time elapsed since the start over the window's length,
/// rounded down (so it is positive as soon as that product reaches the
/// window's length); once it has ended, or when the window is not proper,
/// the whole total is claimable.  What was claimed is the wallet's entry
/// for the tranche.
pub proof fn law_vesting_schedule(
    ido: IdoAccount,
    participated: nat,
    claims: Seq<ClaimItem>,
    balance: u64,
    index: usize,
    now: i64,
)
    requires
        index < ido._releases@.len(),
        allocation_of(ido, participated, claims, balance, index, now) is Some,
    ensures
        ({
            let a = allocation_of(ido, participated, claims, balance, index, now)->Some_0;
            let from = ido._releases@[index as int].from_timestamp;
            let to = ido._releases@[index as int].to_timestamp;
            &&& a.0 == from && a.1 == to && a.2 == ido._releases@[index as int].percent
            &&& from < now < to ==> a.3 == a.4 * (now - from) / (to - from)
            &&& from < now < to && a.4 * (now - from) >= to - from ==> a.3 > 0
            &&& from < to && now <= from ==> a.3 == 0
            &&& (to <= from || now >= to) ==> a.3 == a.4
            &&& a.5 == claimed_amount(claims, index as u8)
        }),
{
    let a = allocation_of(ido, participated, claims, balance, index, now)->Some_0;
    let r = ido._releases@[index as int];
    lemma_tranche_base_bounds(participated as int, ido._rate, r.percent);
    let base = tranche_base(participated as int, ido._rate, r.percent)->Some_0;
    lemma_scale_bounds(base, ido._raise_token_decimals, ido._release_token_decimals);
    let total = scale_decimals(base, ido._raise_token_decimals, ido._release_token_decimals)->Some_0;
    lemma_allocation_bounds(total, r.from_timestamp, r.to_timestamp, now);
    assert(a.4 == total);
    if r.from_timestamp < now < r.to_timestamp {
        let x = total * (now - r.from_timestamp);
        let d = r.to_timestamp - r.from_timestamp;
        assert(a.3 == x / d);
        if x >= d {
            lemma_div_is_ordered(d, x, d);
            lemma_div_by_self(d);
        }
    }
    if r.from_timestamp < r.to_timestamp && now <= r.from_timestamp {
        assert(total * 0 == 0) by (nonlinear_arith);
        assert(0int / (r.to_timestamp - r.from_timestamp) == 0) by (nonlinear_arith)
            requires
                r.to_timestamp - r.from_timestamp > 0,
        ;
    }
}

/// A tranche's total, for a wallet that spent `participated` (at most a
/// `u64`): what it spent times the rate over a million, times the percent
/// over ten thousand (each division rounding down), moved to the release
/// token's decimals by dividing or multiplying by ten to the difference.
pub proof fn law_tranche_total_formula(
    ido: IdoAccount,
    participated: nat,
    claims: Seq<ClaimItem>,
    balance: u64,
    index: usize,
    now: i64,
)
    requires
        index < ido._releases@.len(),
        allocation_of(ido, participated, claims, balance, index, now) is Some,
    ensures
        ({
            let a = allocation_of(ido, participated, claims, balance, index, now)->Some_0;
            let base = participated * ido._rate / 1_000_000int * ido._releases@[index as int].percent / 10_000int;
            let raise = ido._raise_token_decimals;
            let release = ido._release_token_decimals;
            &&& raise == release ==> a.4 == base
            &&& raise > release ==> a.4 == base / pow(10, (raise - release) as nat)
            &&& release > raise ==> a.4 == base * pow(10, (release - raise) as nat)
        }),
{
    let r = ido._releases@[index as int];
    lemma_tranche_base_bounds(participated as int, ido._rate, r.percent);
    let base = tranche_base(participated as int, ido._rate, r.percent)->Some_0;
    lemma_scale_bounds(base, ido._raise_token_decimals, ido._release_token_decimals);
}

/// The state of a tranche: 0 while no release token is set or the tranche
/// (with a start) has not started; once it has, 1 when something remains
/// for the wallet and the pool is not empty, else 2.  A tranche that does
/// not exist shows only zeros.
pub proof fn law_tranche_status(
    ido: IdoAccount,
    participated: nat,
    claims: Seq<ClaimItem>,
    balance: u64,
    index: usize,
    now: i64,
)
    requires
        allocation_of(ido, participated, claims, balance, index, now) is Some,
    ensures
        ({
            let a = allocation_of(ido, participated, claims, balance, index, now)->Some_0;
            let started = index < ido._releases@.len() && (ido._releases@[index as int].from_timestamp == 0
                || now > ido._releases@[index as int].from_timestamp);
            &&& index >= ido._releases@.len() ==> a == (0i64, 0i64, 0u16, 0u64, 0u64, 0u64, 0u64, 0u8)
            &&& (ido._release_token.is_default() || !started) ==> a.7 == 0
            &&& !ido._release_token.is_default() && started && balance > 0 && a.6 > 0 ==> a.7 == 1
            &&& !ido._release_token.is_default() && started && (balance == 0 || a.6 == 0) ==> a.7 == 2
        }),
{
    lemma_allocation_facts(ido, participated, claims, balance, index, now);
}

/// The allocation still open to an allocated wallet of a tier in round
/// `round` (counted from 1, within the sale's rounds) is read from that
/// round: its tier's allocation there, when it has one, less everything the
/// wallet spent, or 0 when the wallet spent at least that much.
pub proof fn law_allocation_remaining_reads_round(ido: IdoAccount, user: PdaUserStats, round: u8)
    requires
        user.allocated,
        user.tier_index != 0,
        1 <= round <= ido._rounds@.len(),
    ensures
        ({
            let allocations = ido._rounds@[round - 1].tier_allocations@;
            let t = user.tier_index as int;
            let spent = participate_total(user.participate@);
            spec_allocation_remaining(ido, user, round) == if t < allocations.len() && spent < allocations[t] {
                allocations[t] - spent
            } else {
                0
            }
        }),
{
}

/// Nothing is open to a wallet in round 0, to a wallet without a tier or
/// not allocated, or in a round past the sale's last.
pub proof fn law_allocation_remaining_none(ido: IdoAccount, user: PdaUserStats, round: u8)
    requires
        round == 0 || user.tier_index == 0 || !user.allocated || round > ido._rounds@.len(),
    ensures
        spec_allocation_remaining(ido, user, round) == 0,
{
}

/// Before an open sale's opening the wallet view shows its tier (0 when not
/// allocated), round 0, state 0 and the opening time.
pub proof fn law_view_before_opening(ido: IdoAccount, user: PdaUserStats, now: i64)
    requires
        !ido._closed,
        ido._participated < ido._cap,
        now < ido._open_timestamp,
    ensures
        spec_info_wallet(ido, user, now) == ((if user.allocated { user.tier_index } else { 0u8 }), 0int, 0u8,
            ido._open_timestamp as int),
{
}

/// A closed sale (closed by hand, its cap reached, or its last round over)
/// shows no round: the wallet view is its tier (0 when not allocated),
/// round 0, state 4 and time 0.
pub proof fn law_closed_sale_view(ido: IdoAccount, user: PdaUserStats, now: i64)
    requires
        ido._closed || ido._participated >= ido._cap || now >= ido._open_timestamp + durations_sum(ido._rounds@),
    ensures
        spec_info_wallet(ido, user, now) == ((if user.allocated { user.tier_index } else { 0u8 }), 0int, 4u8, 0int),
{
}

/// While round `k` of an open sale is under way, the wallet view shows
/// round `k + 1`, the state of that round's kind (allocation 1, preparation
/// 2, first-come-first-served 3, wherever the round stands) and the round's
/// end.
pub proof fn law_view_of_running_round(ido: IdoAccount, user: PdaUserStats, now: i64, k: int)
    requires
        !ido._closed,
        ido._participated < ido._cap,
        0 <= k < ido._rounds@.len(),
        ido._open_timestamp + durations_sum(ido._rounds@.take(k)) <= now,
        now < ido._open_timestamp + durations_sum(ido._rounds@.take(k + 1)),
    ensures
        ({
            let v = spec_info_wallet(ido, user, now);
            &&& v.0 == if user.allocated { user.tier_index } else { 0u8 }
            &&& v.1 == k + 1
            &&& v.2 == match ido._rounds@[k].class {
                RoundClass::Allocation => 1u8,
                RoundClass::FcfsPrepare => 2u8,
                RoundClass::Fcfs => 3u8,
            }
            &&& v.3 == ido._open_timestamp + durations_sum(ido._rounds@.take(k + 1))
        }),
{
    lemma_durations_sum_take_le(ido._rounds@, k + 1);
    lemma_round_scan_at(ido._rounds@, ido._open_timestamp as int, now as int, 0, k);
}

proof fn lemma_durations_sum_take_le(rounds: Seq<RoundItem>, j: int)
    requires
        0 <= j <= rounds.len(),
    ensures
        durations_sum(rounds.take(j)) <= durations_sum(rounds),
    decreases j,
{
    if j > 0 {
        assert(rounds.take(j).drop_first() =~= rounds.drop_first().take(j - 1));
        lemma_durations_sum_take_le(rounds.drop_first(), j - 1);
    }
}

proof fn lemma_round_scan_at(rounds: Seq<RoundItem>, ts: int, now: int, passed: nat, k: int)
    requires
        0 <= k < rounds.len(),
        ts + durations_sum(rounds.take(k)) <= now < ts + durations_sum(rounds.take(k + 1)),
    ensures
        round_scan(rounds, ts, now, passed) == (
            (passed + k + 1) as nat,
            match rounds[k].class {
                RoundClass::Allocation => 1u8,
                RoundClass::FcfsPrepare => 2u8,
                RoundClass::Fcfs => 3u8,
            },
            ts + durations_sum(rounds.take(k + 1)),
        ),
    decreases k,
{
    let rest = rounds.drop_first();
    assert(rounds.take(k + 1).drop_first() =~= rest.take(k));
    assert(durations_sum(rounds.take(k + 1)) == rounds[0].duration_seconds + durations_sum(rest.take(k)));
    if k == 0 {
        assert(rest.take(0).len() == 0);
    } else {
        assert(rounds.take(k).drop_first() =~= rest.take(k - 1));
        assert(durations_sum(rounds.take(k)) == rounds[0].duration_seconds + durations_sum(rest.take(k - 1)));
        lemma_round_scan_at(rest, ts + rounds[0].duration_seconds, now, passed + 1, k - 1);
    }
}

} // verus!
