use crowdfunding::errors::IDOProgramErrors;
use crowdfunding::ido::{IdoAccount, TierItem};
use crowdfunding::onepad::OnePad;
use crowdfunding::pubkey::Pubkey;
use crowdfunding::releases::ReleaseItem;
use crowdfunding::roles::{AdminAccount, AuthRole, AuthorityRole};
use crowdfunding::rounds::{RoundClass, RoundItem};
use crowdfunding::users::{ClaimItem, ParticipateItem, PdaUserStats};

fn key(n: u128) -> Pubkey {
    Pubkey { lo: n, hi: 0 }
}

fn blank_ido() -> IdoAccount {
    IdoAccount {
        _closed: false,
        _release_token_decimals: 0,
        _raise_token_decimals: 0,
        bump: 0,
        _rate: 0,
        ido_id: 0,
        _open_timestamp: 0,
        _participated_count: 0,
        _participated: 0,
        _cap: 0,
        _release_token: Pubkey::default(),
        _raise_token: Pubkey::default(),
        authority: Pubkey::default(),
        _tiers: vec![],
        _rounds: vec![],
        _releases: vec![],
    }
}

fn blank_user() -> PdaUserStats {
    PdaUserStats { allocated: false, bump: 0, tier_index: 0, participate: vec![], claims: vec![], address: key(0) }
}

fn created_ido() -> IdoAccount {
    let mut ido = blank_ido();
    ido.create_ido(&key(7), &key(8), &6, &1_500_000, &1_000, &3_600, &1_800, &10_000, &42, &254).unwrap();
    ido
}

#[test]
fn error_codes_follow_declaration_order() {
    assert_eq!(IDOProgramErrors::PdaNotMatched.code(), 0);
    assert_eq!(IDOProgramErrors::InvalidReleaseIndex.code(), 5);
    assert_eq!(IDOProgramErrors::OnlyAdminAllowed.code(), 16);
    assert_eq!(IDOProgramErrors::AddressZero.code(), 24);
}

#[test]
fn default_pubkey_is_zero() {
    assert_eq!(Pubkey::default(), Pubkey { lo: 0, hi: 0 });
}

#[test]
fn create_ido_sets_up_three_tiers_and_three_rounds() {
    let ido = created_ido();
    assert_eq!(ido.authority, key(7));
    assert_eq!(ido._raise_token, key(8));
    assert_eq!(ido._raise_token_decimals, 6);
    assert_eq!(ido._rate, 1_500_000);
    assert_eq!(ido._open_timestamp, 1_000);
    assert_eq!(ido._cap, 10_000);
    assert_eq!(ido.ido_id, 42);
    assert_eq!(ido.bump(), 254);
    assert!(!ido._closed);
    assert_eq!(ido._release_token, Pubkey::default());
    let names: Vec<&str> = ido._tiers.iter().map(|t| t.name.as_str()).collect();
    assert_eq!(names, vec!["Lottery Winners", "Top 100", "Top 200"]);
    assert!(ido._tiers.iter().all(|t| t.allocated_count == 0));
    let rounds: Vec<(&str, u32, RoundClass)> =
        ido._rounds.iter().map(|r| (r.name.as_str(), r.duration_seconds, r.class)).collect();
    assert_eq!(
        rounds,
        vec![
            ("Allocation", 3_600, RoundClass::Allocation),
            ("FCFS - Prepare", 900, RoundClass::FcfsPrepare),
            ("FCFS", 1_800, RoundClass::Fcfs),
        ]
    );
}

#[test]
fn close_and_fcfs_timestamps() {
    let ido = created_ido();
    assert_eq!(ido.close_timestamp(), 1_000 + 3_600 + 900 + 1_800);
    assert_eq!(ido.fcfs_timestamp(), 1_000 + 3_600);
}

#[test]
fn fcfs_timestamp_when_every_round_is_an_allocation_round() {
    let mut ido = blank_ido();
    ido._open_timestamp = 10;
    ido.modify_rounds(
        &vec!["a".to_string(), "b".to_string()],
        &vec![5, 7],
        &vec![RoundClass::Allocation, RoundClass::Allocation],
    )
    .unwrap();
    assert_eq!(ido.fcfs_timestamp(), 22);
    assert_eq!(ido.close_timestamp(), 22);
}

#[test]
fn is_close_by_time_flag_and_cap() {
    let mut ido = created_ido();
    let close = ido.close_timestamp();
    assert!(!ido._is_close(close - 1));
    assert!(ido._is_close(close));
    ido.set_closed(&true).unwrap();
    assert!(ido._is_close(0));
    ido.set_closed(&false).unwrap();
    ido._participated = 10_000;
    assert!(ido._is_close(0));
}

#[test]
fn setters_change_one_field() {
    let mut ido = created_ido();
    ido.set_cap(&5).unwrap();
    ido.set_rate(&9).unwrap();
    ido.set_open_timestamp(&-3).unwrap();
    ido.set_release_token(&key(99), &9).unwrap();
    assert_eq!((ido._cap, ido._rate, ido._open_timestamp), (5, 9, -3));
    assert_eq!((ido._release_token, ido._release_token_decimals), (key(99), 9));
    assert_eq!(ido.authority, key(7));
}

#[test]
fn set_releases_zips_the_three_lists() {
    let mut ido = created_ido();
    ido.set_releases(&vec![1, 2], &vec![10, 20], &vec![5_000, 5_000]).unwrap();
    assert_eq!(ido._releases.len(), 2);
    assert_eq!(
        (ido._releases[1].from_timestamp, ido._releases[1].to_timestamp, ido._releases[1].percent),
        (2, 20, 5_000)
    );
}

#[test]
fn modify_round_keeps_allocations_and_rejects_bad_index() {
    let mut ido = created_ido();
    ido._rounds[1].set_tier_allocation(vec![1, 2, 3]).unwrap();
    ido.modify_round(1, "Prep".to_string(), 60, RoundClass::Fcfs).unwrap();
    assert_eq!(ido._rounds[1].name, "Prep");
    assert_eq!(ido._rounds[1].duration_seconds, 60);
    assert_eq!(ido._rounds[1].class, RoundClass::Fcfs);
    assert_eq!(ido._rounds[1].tier_allocations, vec![1, 2, 3]);
    assert_eq!(ido.modify_round(-1, "x".to_string(), 1, RoundClass::Fcfs), Err(IDOProgramErrors::InvalidRounds));
    assert_eq!(ido.modify_round(3, "x".to_string(), 1, RoundClass::Fcfs), Err(IDOProgramErrors::InvalidRounds));
}

#[test]
fn update_allocate_count_counts_and_saturates() {
    let mut ido = created_ido();
    ido.update_allocate_count(&0, &false).unwrap();
    ido.update_allocate_count(&0, &false).unwrap();
    assert_eq!(ido._tiers[0].allocated_count, 2);
    ido.update_allocate_count(&0, &true).unwrap();
    assert_eq!(ido._tiers[0].allocated_count, 1);
    ido.update_allocate_count(&1, &true).unwrap();
    assert_eq!(ido._tiers[1].allocated_count, 0);
    assert_eq!(ido.update_allocate_count(&3, &false), Err(IDOProgramErrors::InvalidRounds));
}

#[test]
fn counting_in_then_out_restores_the_tier() {
    let mut ido = created_ido();
    ido._tiers[2] = TierItem { name: "Top 200".to_string(), allocated_count: 4 };
    ido.update_allocate_count(&2, &false).unwrap();
    ido.update_allocate_count(&2, &true).unwrap();
    assert_eq!(ido._tiers[2].allocated_count, 4);
}

#[test]
fn tier_allocation_lookup() {
    let r = RoundItem { duration_seconds: 1, name: "r".to_string(), class: RoundClass::Allocation, tier_allocations: vec![5, 6] };
    assert_eq!(r.get_tier_allocation(1), 6);
    assert_eq!(r.get_tier_allocation(2), 0);
}

#[test]
fn participation_is_recorded_by_position() {
    let mut u = blank_user();
    u.user_participate(1, 100).unwrap();
    u.user_participate(1, 50).unwrap();
    u.user_participate(2, 7).unwrap();
    assert_eq!(u.get_amount_participate_round(0), Ok(150));
    assert_eq!(u.get_amount_participate_round(1), Ok(7));
    assert_eq!(u.get_amount_participate_round(5), Ok(0));
    assert_eq!(u.get_total_participate(), Ok(157));
}

#[test]
fn participation_into_a_far_round_is_appended() {
    let mut u = blank_user();
    u.user_participate(3, 10).unwrap();
    assert_eq!(u.participate.len(), 1);
    assert_eq!(u.get_amount_participate_round(2), Ok(10));
    assert_eq!(u.get_total_participate(), Ok(10));
}

#[test]
fn claims_are_written_by_position_and_read_by_tranche() {
    let mut u = blank_user();
    u.user_claim(0, 5).unwrap();
    u.user_claim(0, 6).unwrap();
    assert_eq!(u.get_amount_claim_release_round(0), Ok(11));
    // an entry at position 0 that belongs to tranche 1 takes a claim for tranche 0
    let mut v = blank_user();
    v.claims = vec![ClaimItem { release: 1, amount: 5 }];
    v.user_claim(0, 3).unwrap();
    assert_eq!(v.get_amount_claim_release_round(0), Ok(0));
    assert_eq!(v.get_amount_claim_release_round(1), Ok(8));
    assert_eq!(v.get_total_claim(), Ok(8));
}

#[test]
fn claimed_total_grows_by_each_claim() {
    let mut u = blank_user();
    u.claims = vec![ClaimItem { release: 2, amount: 1 }];
    u.user_claim(4, 10).unwrap();
    u.user_claim(0, 3).unwrap();
    let mut w = blank_user();
    w.claims = u.claims.clone();
    assert_eq!(w.get_total_claim(), Ok(14));
}

#[test]
fn user_record_setup_and_size() {
    let mut u = blank_user();
    u.init_user_pda(&2, &key(3), &true, &250).unwrap();
    assert_eq!((u.tier_index, u.address, u.allocated, u.bump), (2, key(3), true, 250));
    u.update_allocate(&1, &false);
    assert_eq!((u.tier_index, u.allocated), (1, false));
    assert_eq!(u.get_size(), 83);
    u.user_claim(0, 1).unwrap();
    assert_eq!(u.get_size(), 92);
    u.participate = vec![ParticipateItem { round: 0, amount: 2 }];
    assert_eq!(u.get_total_participate(), Ok(2));
}

fn blank_pad() -> OnePad {
    OnePad { bump: 0, pause: true, operator_wallet: key(0), admin_role: vec![], operator_role: vec![] }
}

#[test]
fn registry_initialize() {
    let mut pad = blank_pad();
    pad.initialize(&key(1), &key(2), 9).unwrap();
    assert_eq!(pad.admin_role, vec![key(1)]);
    assert_eq!(pad.operator_wallet, key(2));
    assert_eq!(pad.bump, 9);
    assert!(!pad.pause);
    assert!(pad.has_admin(key(1)));
    pad.set_pause(true);
    assert!(pad.pause);
    pad.change_operator_wallet(key(5)).unwrap();
    assert_eq!(pad.operator_wallet, key(5));
}

#[test]
fn admin_list_rules() {
    let mut pad = blank_pad();
    pad.initialize(&key(1), &key(2), 9).unwrap();
    assert_eq!(pad.set_admin(key(1)), Err(IDOProgramErrors::AdminAlreadyExist));
    pad.set_admin(key(3)).unwrap();
    pad.set_admin(key(4)).unwrap();
    assert_eq!(pad.set_admin(key(5)), Err(IDOProgramErrors::AdminLimitReached));
    assert_eq!(pad.set_admin(key(4)), Err(IDOProgramErrors::AdminAlreadyExist));
    pad.remove_admin(key(3)).unwrap();
    assert_eq!(pad.admin_role, vec![key(1), key(4)]);
    pad.remove_admin(key(1)).unwrap();
    assert_eq!(pad.remove_admin(key(4)), Err(IDOProgramErrors::AdminLimitReached));
    assert!(pad.has_admin(key(4)));
}

#[test]
fn operator_list_rules() {
    let mut pad = blank_pad();
    assert_eq!(pad.remove_operator(key(1)), Ok(()));
    pad.set_operator(key(1)).unwrap();
    assert_eq!(pad.remove_operator(key(1)), Err(IDOProgramErrors::OperatorLimitReached));
    assert_eq!(pad.set_operator(key(1)), Err(IDOProgramErrors::OperatorAlreadyExist));
    pad.set_operator(key(2)).unwrap();
    pad.set_operator(key(3)).unwrap();
    assert_eq!(pad.set_operator(key(4)), Err(IDOProgramErrors::OperatorLimitReached));
    assert!(pad.has_operator(key(3)));
    pad.remove_operator(key(9)).unwrap();
    assert_eq!(pad.operator_role, vec![key(1), key(2), key(3)]);
}

#[test]
fn adding_then_removing_an_operator_restores_the_list() {
    let mut pad = blank_pad();
    pad.set_operator(key(1)).unwrap();
    pad.set_operator(key(2)).unwrap();
    let before = pad.operator_role.clone();
    pad.set_operator(key(3)).unwrap();
    pad.remove_operator(key(3)).unwrap();
    assert_eq!(pad.operator_role, before);
}

#[test]
fn removal_takes_out_every_copy() {
    let mut pad = blank_pad();
    pad.admin_role = vec![key(1), key(2), key(1)];
    pad.remove_admin(key(1)).unwrap();
    assert_eq!(pad.admin_role, vec![key(2)]);
}

#[test]
fn role_accounts() {
    let mut role = AuthorityRole { authority: key(0), role: AuthRole::Admin, status: false, bump: 0 };
    role.initialize(&key(5), 3, AuthRole::Operator).unwrap();
    assert!(role.status);
    assert_eq!(role.bump, 3);
    assert!(role.has_authority(key(5), AuthRole::Operator));
    assert!(!role.has_authority(key(5), AuthRole::Admin));
    assert!(!role.has_authority(key(6), AuthRole::Operator));
    let mut admin = AdminAccount { authority: key(0), bump: 0, owner: key(0) };
    admin._init_admin_ido(&key(1), &key(2), &7).unwrap();
    assert!(admin._is_admin(&key(1)));
    admin._set_admin(&key(3)).unwrap();
    assert!(!admin._is_admin(&key(1)));
    assert_eq!((admin.owner, admin.bump), (key(2), 7));
}

#[test]
fn release_item_fields() {
    let r = ReleaseItem { percent: 1, from_timestamp: 2, to_timestamp: 3 };
    let c = r;
    assert_eq!((c.percent, c.from_timestamp, c.to_timestamp), (1, 2, 3));
}
