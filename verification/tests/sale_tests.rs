use crowdfunding::events::{ChangeOperatorWalletEvent, ClaimEvent, WithdrawTokenEvent};
use crowdfunding::errors::IDOProgramErrors;
use crowdfunding::ido::IdoAccount;
use crowdfunding::instructions::admin_setup_operator::{handle_add_operator, handle_remove_operator};
use crowdfunding::instructions::admin_setup_operator_wallet::handle_change_operator_wallet;
use crowdfunding::instructions::admin_withdraw;
use crowdfunding::instructions::operator_initialize_ido_account::{handle_initialize_ido, handle_initialize_ido_native};
use crowdfunding::instructions::operator_setup_ido::{
    handle_modify_round, handle_modify_round_allocations, handle_modify_rounds, handle_modify_tier,
    handle_set_cap, handle_set_closed, handle_set_rate, handle_setup_releases, modify_tiers, set_open_timestamp,
};
use crowdfunding::instructions::operator_setup_release_token::setup_release_token;
use crowdfunding::instructions::operator_setup_tier_allocate::handle_modify_tier_allocated;
use crowdfunding::instructions::operator_withdraw;
use crowdfunding::instructions::owner_init_program::handle_initialize_onepad;
use crowdfunding::instructions::user_claim_token::{claim, claim_checked, claim_completes};
use crowdfunding::onepad::OnePad;
use crowdfunding::pubkey::Pubkey;
use crowdfunding::releases::ReleaseItem;
use crowdfunding::roles::{AuthRole, AuthorityRole};
use crowdfunding::rounds::RoundClass;
use crowdfunding::types::{
    InitializeIdoParam, ModifyRoundAllocationParam, ModifyRoundParam, ModifyRoundsParam, ModifyTierName,
    SetupReleaseTokenParam, SetupUserTierAllocationParam,
};
use crowdfunding::users::{ParticipateItem, PdaUserStats};
use crowdfunding::utils::{_get_allocation, _info_wallet, get_allocation_remaining, try_allocation_of};

fn key(n: u128) -> Pubkey {
    Pubkey { lo: n, hi: 0 }
}

fn params() -> InitializeIdoParam {
    InitializeIdoParam {
        raise_token: key(8),
        rate: 2_000_000,
        open_timestamp: 1_000,
        allocation_duration: 100,
        fcfs_duration: 50,
        cap: 1_000_000,
        release_token: key(9),
        ido_id: 1,
    }
}

fn blank_ido() -> IdoAccount {
    IdoAccount {
        _closed: false,
        _release_token_decimals: 0,
        _raise_token_decimals: 0,
        bump: 0,
        _rate: 0,
        ido_id: 0,
        _open_timestamp: 0,
        _participated_count: 0,
        _participated: 0,
        _cap: 0,
        _release_token: Pubkey::default(),
        _raise_token: Pubkey::default(),
        authority: Pubkey::default(),
        _tiers: vec![],
        _rounds: vec![],
        _releases: vec![],
    }
}

fn sale() -> IdoAccount {
    let mut ido = blank_ido();
    handle_initialize_ido(&mut ido, key(7), 6, params(), 200).unwrap();
    ido
}

fn buyer(spent: u64) -> PdaUserStats {
    PdaUserStats {
        allocated: true,
        bump: 1,
        tier_index: 1,
        participate: vec![ParticipateItem { round: 0, amount: spent }],
        claims: vec![],
        address: key(50),
    }
}

fn with_release(mut ido: IdoAccount, percent: u16, from: i64, to: i64) -> IdoAccount {
    ido._releases = vec![ReleaseItem { percent, from_timestamp: from, to_timestamp: to }];
    ido._release_token_decimals = ido._raise_token_decimals;
    ido._release_token = key(9);
    ido
}

// ---- allocation figures ----

#[test]
fn allocation_half_way_through_vesting() {
    // 1000 raise units * rate 2.0 = 2000 release units; 50% tranche = 1000
    let ido = with_release(sale(), 5_000, 100, 200);
    let user = buyer(1_000);
    assert_eq!(_get_allocation(&ido, &user, 10, 0, 150), (100, 200, 5_000, 500, 1_000, 0, 500, 1));
}

#[test]
fn allocation_before_and_after_window() {
    let ido = with_release(sale(), 5_000, 100, 200);
    let user = buyer(1_000);
    // before the window nothing is vested and the tranche is not open
    assert_eq!(_get_allocation(&ido, &user, 10, 0, 50), (100, 200, 5_000, 0, 1_000, 0, 0, 0));
    // at and after the end everything is vested
    assert_eq!(_get_allocation(&ido, &user, 10, 0, 200).3, 1_000);
    assert_eq!(_get_allocation(&ido, &user, 10, 0, 10_000).3, 1_000);
}

#[test]
fn vesting_never_goes_backwards() {
    let ido = with_release(sale(), 10_000, 0, 1_000);
    let user = buyer(333);
    let mut last = 0;
    for t in [-5, 0, 1, 10, 333, 999, 1_000, 5_000] {
        let c = _get_allocation(&ido, &user, 1, 0, t).3;
        assert!(c >= last);
        last = c;
    }
    assert_eq!(last, 666);
}

#[test]
fn allocation_status_codes() {
    let ido = with_release(sale(), 5_000, 100, 200);
    let user = buyer(1_000);
    // empty pool
    assert_eq!(_get_allocation(&ido, &user, 0, 0, 150).7, 2);
    // everything already claimed
    let mut claimed = buyer(1_000);
    claimed.user_claim(0, 500).unwrap();
    let a = _get_allocation(&ido, &claimed, 10, 0, 150);
    assert_eq!((a.5, a.6, a.7), (500, 0, 2));
    // no release token set
    let mut no_token = with_release(sale(), 5_000, 100, 200);
    no_token._release_token = Pubkey::default();
    assert_eq!(_get_allocation(&no_token, &user, 10, 0, 150).7, 0);
    // a tranche starting at time zero is open at once
    let zero = with_release(sale(), 5_000, 0, 0);
    assert_eq!(_get_allocation(&zero, &user, 10, 0, -7), (0, 0, 5_000, 1_000, 1_000, 0, 1_000, 1));
}

#[test]
fn allocation_of_a_missing_tranche_is_zero() {
    let ido = with_release(sale(), 5_000, 100, 200);
    assert_eq!(_get_allocation(&ido, &buyer(1_000), 10, 3, 150), (0, 0, 0, 0, 0, 0, 0, 0));
}

#[test]
fn allocation_aligns_decimals() {
    let mut ido = with_release(sale(), 10_000, 0, 0);
    ido._release_token_decimals = 9; // three more decimals than the raise token
    assert_eq!(_get_allocation(&ido, &buyer(1_000), 1, 0, 5).4, 2_000_000);
    ido._release_token_decimals = 4; // two fewer
    assert_eq!(_get_allocation(&ido, &buyer(1_000), 1, 0, 5).4, 20);
}

// ---- wallet view ----

#[test]
fn info_wallet_walks_the_rounds() {
    let mut ido = sale();
    let mut user = buyer(0);
    let (tier, round, state, text, ts) = _info_wallet(&mut ido, &mut user, 999);
    assert_eq!((tier, round, state, text.as_str(), ts), (1, 0, 0, "Allocation Round <u>opens</u> in:", 1_000));
    let v = _info_wallet(&mut ido, &mut user, 1_050);
    assert_eq!((v.1, v.2, v.3.as_str(), v.4), (1, 1, "Allocation Round <u>closes</u> in:", 1_100));
    let v = _info_wallet(&mut ido, &mut user, 1_100);
    assert_eq!((v.1, v.2, v.3.as_str(), v.4), (2, 2, "FCFS Round <u>opens</u> in:", 2_000));
    let v = _info_wallet(&mut ido, &mut user, 2_010);
    assert_eq!((v.1, v.2, v.3.as_str(), v.4), (3, 3, "FCFS Round <u>closes</u> in:", 2_050));
    let v = _info_wallet(&mut ido, &mut user, 2_050);
    assert_eq!((v.1, v.2, v.3.as_str(), v.4), (0, 4, "", 0));
}

#[test]
fn info_wallet_hides_the_tier_of_an_unallocated_wallet() {
    let mut ido = sale();
    let mut user = buyer(0);
    user.allocated = false;
    assert_eq!(_info_wallet(&mut ido, &mut user, 999).0, 0);
}

#[test]
fn allocation_remaining_in_a_round() {
    let mut ido = sale();
    handle_modify_round_allocations(&mut ido, ModifyRoundAllocationParam { round_index: 0, tier_allocations: vec![0, 700] })
        .unwrap();
    let user = buyer(300);
    assert_eq!(get_allocation_remaining(&mut ido, &user, &1), 400);
    assert_eq!(get_allocation_remaining(&mut ido, &user, &0), 0);
    assert_eq!(get_allocation_remaining(&mut ido, &user, &9), 0);
    assert_eq!(get_allocation_remaining(&mut ido, &buyer(800), &1), 0);
    let mut unallocated = buyer(300);
    unallocated.allocated = false;
    assert_eq!(get_allocation_remaining(&mut ido, &unallocated, &1), 0);
}

// ---- registry instructions ----

fn blank_pad() -> OnePad {
    OnePad { bump: 0, pause: true, operator_wallet: key(0), admin_role: vec![], operator_role: vec![] }
}

fn blank_role() -> AuthorityRole {
    AuthorityRole { authority: key(0), role: AuthRole::Operator, status: false, bump: 0 }
}

#[test]
fn initialize_onepad_grants_admin() {
    let mut pad = blank_pad();
    let mut admin = blank_role();
    handle_initialize_onepad(&mut pad, &mut admin, key(11), key(1), key(2), 3, 4).unwrap();
    assert_eq!(pad.admin_role, vec![key(11)]);
    assert_eq!(pad.operator_wallet, key(2));
    assert!(admin.has_authority(key(1), AuthRole::Admin) && admin.status && admin.bump == 4);
}

#[test]
fn add_and_remove_operators() {
    let mut pad = blank_pad();
    let mut op = blank_role();
    handle_add_operator(&mut pad, &mut op, key(21), key(2), 5).unwrap();
    assert_eq!(pad.operator_role, vec![key(21)]);
    assert!(op.has_authority(key(2), AuthRole::Operator));
    let mut again = blank_role();
    assert_eq!(handle_add_operator(&mut pad, &mut again, key(21), key(2), 5), Err(IDOProgramErrors::OperatorAlreadyExist));
    assert_eq!(handle_remove_operator(&mut pad, &op, key(21), key(2)), Err(IDOProgramErrors::OperatorLimitReached));
    let mut op2 = blank_role();
    handle_add_operator(&mut pad, &mut op2, key(22), key(3), 5).unwrap();
    assert_eq!(handle_remove_operator(&mut pad, &op2, key(23), key(3)), Err(IDOProgramErrors::OnlyOperatorAllowed));
    assert_eq!(handle_remove_operator(&mut pad, &op2, key(22), key(2)), Err(IDOProgramErrors::OperatorNotFound));
    handle_remove_operator(&mut pad, &op2, key(22), key(3)).unwrap();
    assert_eq!(pad.operator_role, vec![key(21)]);
}

#[test]
fn change_operator_wallet_rules() {
    let mut pad = blank_pad();
    pad.operator_wallet = key(2);
    assert_eq!(handle_change_operator_wallet(&mut pad, key(1), key(2), 5), Err(IDOProgramErrors::OperatorWalletSameAsNewWallet));
    assert_eq!(handle_change_operator_wallet(&mut pad, key(1), key(0), 5), Err(IDOProgramErrors::AddressZero));
    assert_eq!(
        handle_change_operator_wallet(&mut pad, key(1), key(3), 5),
        Ok(ChangeOperatorWalletEvent { admin: key(1), operator_wallet: key(3), time: 5 })
    );
    assert_eq!(pad.operator_wallet, key(3));
}

// ---- sale setup instructions ----

#[test]
fn initialize_native_sale_uses_nine_decimals() {
    let mut ido = blank_ido();
    handle_initialize_ido_native(&mut ido, key(7), params(), 3).unwrap();
    assert_eq!(ido._raise_token_decimals, 9);
    assert_eq!(ido._raise_token, key(8));
    assert_eq!(ido._release_token, Pubkey::default());
    assert_eq!(ido.authority, key(7));
    assert_eq!(ido._rounds.len(), 3);
}

#[test]
fn operator_settings() {
    let mut ido = sale();
    handle_set_closed(&mut ido, true).unwrap();
    handle_set_cap(&mut ido, 77).unwrap();
    handle_set_rate(&mut ido, 3).unwrap();
    set_open_timestamp(&mut ido, 55).unwrap();
    setup_release_token(&mut ido, key(9), 8).unwrap();
    assert_eq!((ido._closed, ido._cap, ido._rate, ido._open_timestamp), (true, 77, 3, 55));
    assert_eq!((ido._release_token, ido._release_token_decimals), (key(9), 8));
}

#[test]
fn setup_releases_checks_lengths() {
    let mut ido = sale();
    let bad = SetupReleaseTokenParam { from_timestamps: vec![1, 2], to_timestamps: vec![3], percents: vec![1, 2] };
    assert_eq!(handle_setup_releases(&mut ido, bad), Err(IDOProgramErrors::InvalidReleaseIndex));
    let bad = SetupReleaseTokenParam { from_timestamps: vec![1], to_timestamps: vec![3], percents: vec![1, 2] };
    assert_eq!(handle_setup_releases(&mut ido, bad), Err(IDOProgramErrors::InvalidReleaseIndex));
    let good = SetupReleaseTokenParam { from_timestamps: vec![1, 2], to_timestamps: vec![3, 4], percents: vec![5, 6] };
    handle_setup_releases(&mut ido, good).unwrap();
    assert_eq!(ido._releases.len(), 2);
    assert_eq!(ido._releases[1].percent, 6);
}

#[test]
fn tiers_can_be_replaced_and_renamed() {
    let mut ido = sale();
    assert_eq!(modify_tiers(&mut ido, vec![]), Err(IDOProgramErrors::InValidTier));
    modify_tiers(&mut ido, vec!["Gold".to_string(), "Silver".to_string()]).unwrap();
    assert_eq!(ido._tiers.len(), 2);
    handle_modify_tier(&mut ido, ModifyTierName { tier_index: 1, name: "Bronze".to_string() }).unwrap();
    assert_eq!(ido._tiers[1].name, "Bronze");
    assert_eq!(
        handle_modify_tier(&mut ido, ModifyTierName { tier_index: 2, name: "x".to_string() }),
        Err(IDOProgramErrors::InValidTier)
    );
}

#[test]
fn rounds_can_be_replaced_and_changed() {
    let mut ido = sale();
    let empty = ModifyRoundsParam { name_list: vec![], duration_list: vec![], class_list: vec![] };
    assert_eq!(handle_modify_rounds(&mut ido, empty), Err(IDOProgramErrors::InvalidRounds));
    let mismatched = ModifyRoundsParam {
        name_list: vec!["a".to_string()],
        duration_list: vec![1, 2],
        class_list: vec![RoundClass::Fcfs],
    };
    assert_eq!(handle_modify_rounds(&mut ido, mismatched), Err(IDOProgramErrors::InvalidRounds));
    let ok = ModifyRoundsParam {
        name_list: vec!["a".to_string(), "b".to_string()],
        duration_list: vec![10, 20],
        class_list: vec![RoundClass::Allocation, RoundClass::Fcfs],
    };
    handle_modify_rounds(&mut ido, ok).unwrap();
    assert_eq!(ido.close_timestamp(), 1_030);
    assert_eq!(ido.fcfs_timestamp(), 1_010);
    handle_modify_round(
        &mut ido,
        ModifyRoundParam { round_index: 0, name: "z".to_string(), duration_seconds: 5, class: RoundClass::Allocation },
    )
    .unwrap();
    assert_eq!(ido.close_timestamp(), 1_025);
    assert_eq!(
        handle_modify_round(
            &mut ido,
            ModifyRoundParam { round_index: 2, name: "z".to_string(), duration_seconds: 5, class: RoundClass::Fcfs },
        ),
        Err(IDOProgramErrors::InvalidRounds)
    );
    assert_eq!(
        handle_modify_round_allocations(&mut ido, ModifyRoundAllocationParam { round_index: 2, tier_allocations: vec![] }),
        Err(IDOProgramErrors::InvalidRounds)
    );
}

#[test]
fn tier_allocation_of_a_wallet() {
    let mut ido = sale();
    ido._tiers[1].allocated_count = 5;
    let mut user = PdaUserStats { allocated: false, bump: 0, tier_index: 0, participate: vec![], claims: vec![], address: key(0) };
    // a new wallet gets a record, and the tier's counter goes down
    handle_modify_tier_allocated(&mut ido, &mut user, 9, SetupUserTierAllocationParam { tier: 1, address: key(60), remove: false })
        .unwrap();
    assert_eq!((user.tier_index, user.address, user.allocated, user.bump), (1, key(60), true, 9));
    assert_eq!(ido._tiers[1].allocated_count, 4);
    // removing it marks it unallocated and the counter goes up
    handle_modify_tier_allocated(&mut ido, &mut user, 9, SetupUserTierAllocationParam { tier: 1, address: key(60), remove: true })
        .unwrap();
    assert!(!user.allocated);
    assert_eq!(ido._tiers[1].allocated_count, 5);
    // an unknown tier is refused
    assert_eq!(
        handle_modify_tier_allocated(&mut ido, &mut user, 9, SetupUserTierAllocationParam { tier: 7, address: key(60), remove: false }),
        Err(IDOProgramErrors::InvalidRounds)
    );
    // removing a wallet without a record does nothing
    let mut fresh = PdaUserStats { allocated: false, bump: 0, tier_index: 0, participate: vec![], claims: vec![], address: key(0) };
    handle_modify_tier_allocated(&mut ido, &mut fresh, 9, SetupUserTierAllocationParam { tier: 1, address: key(61), remove: true })
        .unwrap();
    assert_eq!((fresh.bump, fresh.allocated), (0, false));
}

// ---- withdrawals ----

#[test]
fn native_withdrawal_keeps_the_rent_minimum() {
    let (mut ido, mut wallet) = (1_000u64, 5u64);
    assert_eq!(
        operator_withdraw::withdraw_native_token(&mut ido, 300, &mut wallet, key(4), 701, 9),
        Err(IDOProgramErrors::InsufficientAmount)
    );
    assert_eq!((ido, wallet), (1_000, 5));
    assert_eq!(
        operator_withdraw::withdraw_native_token(&mut ido, 300, &mut wallet, key(4), 700, 9),
        Ok(WithdrawTokenEvent { amount: 700, address: key(4), timestamp: 9 })
    );
    assert_eq!((ido, wallet), (300, 705));
    let (mut ido2, mut admin) = (50u64, 0u64);
    admin_withdraw::withdraw_native_token(&mut ido2, 10, &mut admin, 40, key(1)).unwrap();
    assert_eq!((ido2, admin), (10, 40));
    assert_eq!(admin_withdraw::withdraw_native_token(&mut ido2, 10, &mut admin, 1, key(1)), Err(IDOProgramErrors::InsufficientAmount));
}

fn from_solana(k: &anchor_lang::prelude::Pubkey) -> Pubkey {
    let b = k.to_bytes();
    Pubkey { lo: u128::from_le_bytes(b[..16].try_into().unwrap()), hi: u128::from_le_bytes(b[16..].try_into().unwrap()) }
}

fn to_solana(k: &Pubkey) -> anchor_lang::prelude::Pubkey {
    let mut b = [0u8; 32];
    b[..16].copy_from_slice(&k.lo.to_le_bytes());
    b[16..].copy_from_slice(&k.hi.to_le_bytes());
    anchor_lang::prelude::Pubkey::new_from_array(b)
}

fn ata(wallet: &Pubkey, mint: &Pubkey) -> Pubkey {
    from_solana(&anchor_spl::associated_token::get_associated_token_address(&to_solana(wallet), &to_solana(mint)))
}

#[test]
fn admin_token_withdrawal_goes_to_the_admins_token_account() {
    let (admin, token) = (key(70), key(71));
    let right = ata(&admin, &token);
    assert!(right != admin && right != token);
    assert_eq!(admin_withdraw::withdraw_token_from_pda(&admin, &token, &right), Ok(()));
    assert_eq!(
        admin_withdraw::withdraw_token_from_pda(&admin, &token, &admin),
        Err(IDOProgramErrors::WithdrawTokenAccountNotMatch)
    );
    assert_eq!(admin_withdraw::withdraw_token_from_pda_checked(&admin, &token, &right), Some(Ok(())));
    assert_eq!(
        admin_withdraw::withdraw_token_from_pda_checked(&admin, &token, &token),
        Some(Err(IDOProgramErrors::WithdrawTokenAccountNotMatch))
    );
}

// ---- claims ----

fn claims_of(user: &PdaUserStats) -> Vec<(u8, u64)> {
    user.claims.iter().map(|c| (c.release, c.amount)).collect()
}

fn claim_sale() -> IdoAccount {
    let mut ido = sale();
    ido._release_token = key(9);
    ido._release_token_decimals = 6;
    ido._releases = vec![
        ReleaseItem { percent: 2_500, from_timestamp: 0, to_timestamp: 0 },
        ReleaseItem { percent: 5_000, from_timestamp: 100, to_timestamp: 200 },
        ReleaseItem { percent: 2_500, from_timestamp: 500, to_timestamp: 0 },
    ];
    ido
}

#[test]
fn claim_refusals() {
    let ido = claim_sale();
    let mut user = buyer(1_000);
    let account = ata(&key(50), &key(9));
    assert_eq!(claim(&ido, &mut user, key(50), key(3), 10, 3, 150), Err(IDOProgramErrors::ReleaseTokenAccountNotMatch));
    assert_eq!(claim(&ido, &mut user, key(50), account, 10, 0, 150), Err(IDOProgramErrors::InvalidReleaseIndex));
    let mut unset = claim_sale();
    unset._release_token = Pubkey::default();
    let unset_account = ata(&key(50), &Pubkey::default());
    assert_eq!(claim(&unset, &mut user, key(50), unset_account, 10, 3, 150), Err(IDOProgramErrors::InvalidReleaseToken));
    assert!(user.claims.is_empty());
}

#[test]
fn claim_pays_each_open_tranche() {
    let ido = claim_sale();
    let mut user = buyer(1_000);
    let account = ata(&key(50), &key(9));
    let events = claim(&ido, &mut user, key(50), account, 10, 3, 150).unwrap();
    // tranche 0: 25% of 2000 fully vested; tranche 1: half of 1000; tranche 2 not open
    assert_eq!(
        events,
        vec![
            ClaimEvent { index: 3, address: key(50), claim: 500, timestamp: 150 },
            ClaimEvent { index: 3, address: key(50), claim: 500, timestamp: 150 },
        ]
    );
    assert_eq!(user.get_amount_claim_release_round(0), Ok(500));
    assert_eq!(user.get_amount_claim_release_round(1), Ok(500));
    // claiming again at the same time pays nothing
    let again = claim(&ido, &mut user, key(50), account, 10, 3, 150).unwrap();
    assert!(again.is_empty());
    // later the rest of tranche 1 vests
    let later = claim(&ido, &mut user, key(50), account, 10, 2, 200).unwrap();
    assert_eq!(later, vec![ClaimEvent { index: 2, address: key(50), claim: 500, timestamp: 200 }]);
    assert_eq!(user.get_total_claim(), Ok(1_500));
}

#[test]
fn claim_with_empty_pool_pays_nothing() {
    let ido = claim_sale();
    let mut user = buyer(1_000);
    let account = ata(&key(50), &key(9));
    assert_eq!(claim(&ido, &mut user, key(50), account, 0, 3, 150), Ok(vec![]));
    // once the pool is funded, the same claim at the same time pays
    let funded = claim(&ido, &mut user, key(50), account, 10, 3, 150).unwrap();
    assert_eq!(funded.len(), 2);
}

#[test]
fn second_claim_pays_nothing_whatever_the_pool_holds() {
    let ido = claim_sale();
    let mut user = buyer(1_000);
    let account = ata(&key(50), &key(9));
    assert_eq!(claim(&ido, &mut user, key(50), account, 10, 3, 150).unwrap().len(), 2);
    let before = claims_of(&user);
    assert_eq!(claim(&ido, &mut user, key(50), account, 1_000_000, 3, 150), Ok(vec![]));
    assert_eq!(claims_of(&user), before);
}

#[test]
fn claims_over_time_never_exceed_tranche_totals() {
    let ido = claim_sale();
    let mut user = buyer(1_000);
    let account = ata(&key(50), &key(9));
    let totals = [500u64, 1_000, 500];
    let mut paid = 0u64;
    for (now, index) in [(50i64, 3u8), (150, 3), (180, 3), (200, 2), (600, 3), (900, 3)] {
        let events = claim(&ido, &mut user, key(50), account, 10, index, now).unwrap();
        paid += events.iter().map(|e| e.claim).sum::<u64>();
        for (j, total) in totals.iter().enumerate() {
            assert!(user.get_amount_claim_release_round(j as u8).unwrap() <= *total);
        }
        assert_eq!(claims_of(&user).iter().map(|c| c.1).sum::<u64>(), paid);
    }
    for (j, total) in totals.iter().enumerate() {
        assert_eq!(user.get_amount_claim_release_round(j as u8), Ok(*total));
    }
    assert_eq!(paid, 2_000);
    assert_eq!(user.get_total_claim(), Ok(2_000));
}

#[test]
fn checked_allocation_agrees_and_detects_overflow() {
    let ido = with_release(sale(), 5_000, 100, 200);
    let user = buyer(1_000);
    assert_eq!(
        try_allocation_of(&ido, Some(1_000), &user.claims, 10, 0, 150),
        Some(_get_allocation(&ido, &user, 10, 0, 150))
    );
    assert_eq!(try_allocation_of(&ido, Some(u64::MAX), &vec![], 10, 0, 150), None);
    assert_eq!(try_allocation_of(&ido, None, &vec![], 10, 0, 150), None);
    assert_eq!(try_allocation_of(&ido, None, &vec![], 10, 4, 150), Some((0, 0, 0, 0, 0, 0, 0, 0)));
    let mut far = with_release(sale(), 5_000, 0, 0);
    far._release_token_decimals = 30;
    assert_eq!(try_allocation_of(&far, Some(1), &vec![], 10, 0, 150), None);
}

#[test]
fn claim_completes_flags_overflowing_claims() {
    let ido = claim_sale();
    let account = ata(&key(50), &key(9));
    assert!(claim_completes(&ido, &buyer(1_000), key(50), account, 10, 3, 150));
    let mut whale = buyer(u64::MAX);
    assert!(whale.total_participate_fits());
    whale.participate.push(ParticipateItem { round: 1, amount: 1 });
    assert!(!whale.total_participate_fits());
    assert!(!claim_completes(&ido, &whale, key(50), account, 10, 3, 150));
    // a claim that is refused up front can always be made
    assert!(claim_completes(&ido, &whale, key(50), account, 10, 0, 150));
}

#[test]
fn checked_claim_runs_the_claim_where_it_can() {
    let ido = claim_sale();
    let account = ata(&key(50), &key(9));
    let mut user = buyer(1_000);
    let mut same = buyer(1_000);
    assert_eq!(
        claim_checked(&ido, &mut user, key(50), account, 10, 3, 150),
        Some(claim(&ido, &mut same, key(50), account, 10, 3, 150))
    );
    assert_eq!(claims_of(&user), claims_of(&same));
    assert_eq!(
        claim_checked(&ido, &mut user, key(50), key(3), 10, 3, 150),
        Some(Err(IDOProgramErrors::ReleaseTokenAccountNotMatch))
    );
    let mut whale = buyer(u64::MAX);
    whale.participate.push(ParticipateItem { round: 1, amount: 1 });
    assert_eq!(claim_checked(&ido, &mut whale, key(50), account, 10, 3, 150), None);
    assert!(whale.claims.is_empty());
}
