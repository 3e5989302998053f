use elemental_vault::instructions::{
    authority_withdraw, close_vault, init_global, init_or_deposit_user, init_or_update_vault,
    update_authority, user_withdraw,
};
use elemental_vault::{ErrorCode, Global, Identity, InitOrUpdateVaultParam, User, Vault};

const T: u64 = 1_700_000_000;

fn id(b: u8) -> Identity {
    Identity::new([b; 32])
}

fn full_params() -> InitOrUpdateVaultParam {
    InitOrUpdateVaultParam {
        authority: None,
        yield_bps: Some(500),
        vault_capacity: Some(1000),
        min_amount: Some(100),
        start_date: Some(T + 10),
        end_date: Some(T + 20),
        withdraw_timeframe: Some(5),
    }
}

fn blank_vault() -> Vault {
    Vault {
        vault_count: 0,
        creator: id(0),
        authority: id(0),
        base_mint: id(0),
        yield_bps: 0,
        vault_capacity: 0,
        min_amount: 0,
        start_date: 0,
        end_date: 0,
        withdraw_timeframe: 0,
        amount_collected: 0,
        amount_withdrawn: 0,
        amount_redeemed: 0,
    }
}

/// A registry with one vault made by `id(1)` at time `T`, with `full_params`.
fn created() -> (Global, Vault) {
    let mut g = Global { vault_counter: 0 };
    let mut v = blank_vault();
    let r = init_or_update_vault(&mut g, &mut v, 0, id(1), id(9), T, &full_params());
    assert_eq!(r, Ok(()));
    (g, v)
}

#[test]
fn scenario_capacity_and_close() {
    let (_, mut v) = created();
    let mut pos: Option<User> = None;
    assert_eq!(init_or_deposit_user(&mut v, &mut pos, 0, id(2), 300, T + 1), Ok(()));
    assert_eq!(v.amount_collected, 300);
    assert_eq!(
        init_or_deposit_user(&mut v, &mut pos, 0, id(2), 800, T + 2),
        Err(ErrorCode::AmountExceedsCapacity)
    );
    assert_eq!(v.amount_collected, 300);
    assert_eq!(close_vault(&v, id(1), T + 21), Err(ErrorCode::VaultNotReady));
    assert_eq!(close_vault(&v, id(1), T + 26), Ok(()));
}

#[test]
fn create_round_trip() {
    let (g, v) = created();
    assert_eq!(g.vault_counter, 1);
    assert_eq!(v.vault_count, 0);
    assert_eq!(v.creator, id(1));
    assert_eq!(v.authority, id(1));
    assert_eq!(v.base_mint, id(9));
    assert_eq!(v.yield_bps, 500);
    assert_eq!(v.vault_capacity, 1000);
    assert_eq!(v.min_amount, 100);
    assert_eq!(v.start_date, T + 10);
    assert_eq!(v.end_date, T + 20);
    assert_eq!(v.withdraw_timeframe, 5);
    assert_eq!((v.amount_collected, v.amount_withdrawn, v.amount_redeemed), (0, 0, 0));
}

#[test]
fn create_with_named_authority() {
    let mut g = Global { vault_counter: 3 };
    let mut v = blank_vault();
    let mut p = full_params();
    p.authority = Some(id(4));
    assert_eq!(init_or_update_vault(&mut g, &mut v, 3, id(1), id(9), T, &p), Ok(()));
    assert_eq!(v.authority, id(4));
    assert_eq!(v.creator, id(1));
    assert_eq!(v.vault_count, 3);
    assert_eq!(g.vault_counter, 4);
}

#[test]
fn create_missing_any_field() {
    for field in 0..6 {
        let mut p = full_params();
        match field {
            0 => p.yield_bps = None,
            1 => p.vault_capacity = None,
            2 => p.min_amount = None,
            3 => p.start_date = None,
            4 => p.end_date = None,
            _ => p.withdraw_timeframe = None,
        }
        let mut g = Global { vault_counter: 0 };
        let mut v = blank_vault();
        assert_eq!(
            init_or_update_vault(&mut g, &mut v, 0, id(1), id(9), T, &p),
            Err(ErrorCode::MissingParams)
        );
        assert_eq!(g.vault_counter, 0);
    }
}

#[test]
fn create_rejects_past_or_inverted_dates() {
    let mut g = Global { vault_counter: 0 };
    let mut v = blank_vault();
    let mut p = full_params();
    p.start_date = Some(T);
    assert_eq!(
        init_or_update_vault(&mut g, &mut v, 0, id(1), id(9), T, &p),
        Err(ErrorCode::InvalidTimeInput)
    );
    let mut p = full_params();
    p.end_date = Some(T - 1);
    assert_eq!(
        init_or_update_vault(&mut g, &mut v, 0, id(1), id(9), T, &p),
        Err(ErrorCode::InvalidTimeInput)
    );
    let mut p = full_params();
    p.start_date = Some(T + 30);
    assert_eq!(
        init_or_update_vault(&mut g, &mut v, 0, id(1), id(9), T, &p),
        Err(ErrorCode::InvalidEndTimeInput)
    );
    assert_eq!(g.vault_counter, 0);
}

#[test]
fn create_counter_overflow() {
    let mut g = Global { vault_counter: u64::MAX };
    let mut v = blank_vault();
    assert_eq!(
        init_or_update_vault(&mut g, &mut v, u64::MAX, id(1), id(9), T, &full_params()),
        Err(ErrorCode::Overflow)
    );
    assert_eq!(g.vault_counter, u64::MAX);
}

#[test]
fn registry_counts_one_per_creation() {
    let mut g = Global { vault_counter: 7 };
    init_global(&mut g);
    assert_eq!(g.vault_counter, 0);
    for n in 0..5u64 {
        let mut v = blank_vault();
        assert_eq!(init_or_update_vault(&mut g, &mut v, n, id(1), id(9), T, &full_params()), Ok(()));
        assert_eq!(g.vault_counter, n + 1);
        // updating the vault leaves the counter alone
        let mut p = full_params();
        p.yield_bps = Some(10);
        assert_eq!(init_or_update_vault(&mut g, &mut v, n, id(1), id(9), T, &p), Ok(()));
        assert_eq!(g.vault_counter, n + 1);
    }
    let mut slot = Global { vault_counter: 41 };
    assert_eq!(slot.create_vault_slot(), Ok(41));
    assert_eq!(slot.vault_counter, 42);
}

#[test]
fn update_applies_only_given_fields() {
    let (mut g, mut v) = created();
    let p = InitOrUpdateVaultParam {
        authority: Some(id(5)),
        yield_bps: None,
        vault_capacity: Some(2000),
        min_amount: None,
        start_date: None,
        end_date: Some(T + 40),
        withdraw_timeframe: None,
    };
    assert_eq!(init_or_update_vault(&mut g, &mut v, 0, id(1), id(9), T + 1, &p), Ok(()));
    assert_eq!(v.vault_capacity, 2000);
    assert_eq!(v.end_date, T + 40);
    assert_eq!(v.yield_bps, 500);
    assert_eq!(v.min_amount, 100);
    assert_eq!(v.start_date, T + 10);
    assert_eq!(v.withdraw_timeframe, 5);
    assert_eq!(v.authority, id(1));
}

#[test]
fn update_errors() {
    let (mut g, mut v) = created();
    let p = full_params();
    assert_eq!(
        init_or_update_vault(&mut g, &mut v, 0, id(3), id(9), T, &p),
        Err(ErrorCode::Unauthorized)
    );
    assert_eq!(
        init_or_update_vault(&mut g, &mut v, 5, id(1), id(9), T, &p),
        Err(ErrorCode::IncorrectCount)
    );
    assert_eq!(
        init_or_update_vault(&mut g, &mut v, 0, id(1), id(9), T + 10, &p),
        Err(ErrorCode::InvalidStartTimeInput)
    );
    let mut late = full_params();
    late.end_date = Some(T + 10);
    assert_eq!(
        init_or_update_vault(&mut g, &mut v, 0, id(1), id(9), T, &late),
        Err(ErrorCode::InvalidEndTimeInput)
    );
}

#[test]
fn update_frozen_after_deposit() {
    let (mut g, mut v) = created();
    let mut pos = None;
    assert_eq!(init_or_deposit_user(&mut v, &mut pos, 0, id(2), 100, T + 1), Ok(()));
    let before = v;
    assert_eq!(
        init_or_update_vault(&mut g, &mut v, 0, id(1), id(9), T + 1, &full_params()),
        Err(ErrorCode::NotUpdatable)
    );
    assert_eq!(v, before);
    // a stranger is refused too
    assert!(init_or_update_vault(&mut g, &mut v, 0, id(3), id(9), T + 1, &full_params()).is_err());
}

#[test]
fn deposit_window_closes_at_start() {
    let (_, mut v) = created();
    let mut pos = None;
    assert_eq!(init_or_deposit_user(&mut v, &mut pos, 0, id(2), 100, T + 9), Ok(()));
    assert_eq!(
        init_or_deposit_user(&mut v, &mut pos, 0, id(2), 100, T + 10),
        Err(ErrorCode::VaultClosed)
    );
    assert_eq!(
        init_or_deposit_user(&mut v, &mut pos, 0, id(2), 100, T + 11),
        Err(ErrorCode::VaultClosed)
    );
}

#[test]
fn deposit_must_be_multiple() {
    let (_, mut v) = created();
    let mut pos = None;
    for amount in [1u64, 50, 99, 101, 150, 250] {
        assert_eq!(
            init_or_deposit_user(&mut v, &mut pos, 0, id(2), amount, T + 1),
            Err(ErrorCode::InvalidMultiple)
        );
    }
    assert_eq!(pos, None);
    let mut zero = v;
    zero.min_amount = 0;
    assert_eq!(
        init_or_deposit_user(&mut zero, &mut pos, 0, id(2), 100, T + 1),
        Err(ErrorCode::InvalidMultiple)
    );
}

#[test]
fn deposits_accumulate() {
    let (_, mut v) = created();
    let mut pos = None;
    assert_eq!(init_or_deposit_user(&mut v, &mut pos, 0, id(2), 200, T + 1), Ok(()));
    assert_eq!(init_or_deposit_user(&mut v, &mut pos, 0, id(2), 300, T + 2), Ok(()));
    assert_eq!(pos, Some(User { vault_count: 0, owner: id(2), amount: 500 }));
    assert_eq!(v.amount_collected, 500);
    // fill to capacity exactly, then nothing more fits
    assert_eq!(init_or_deposit_user(&mut v, &mut pos, 0, id(2), 500, T + 3), Ok(()));
    assert_eq!(v.amount_collected, 1000);
    assert_eq!(
        init_or_deposit_user(&mut v, &mut pos, 0, id(2), 100, T + 3),
        Err(ErrorCode::AmountExceedsCapacity)
    );
    assert!(v.amount_collected <= v.vault_capacity);
}

#[test]
fn deposit_position_overflow() {
    let (_, mut v) = created();
    v.min_amount = 1;
    v.vault_capacity = u64::MAX;
    let mut pos = Some(User { vault_count: 0, owner: id(2), amount: u64::MAX });
    assert_eq!(
        init_or_deposit_user(&mut v, &mut pos, 0, id(2), 1, T + 1),
        Err(ErrorCode::Overflow)
    );
    assert_eq!(v.amount_collected, 0);
}

#[test]
fn user_withdraw_after_maturity_once() {
    let (_, mut v) = created();
    let mut pos = None;
    assert_eq!(init_or_deposit_user(&mut v, &mut pos, 0, id(2), 300, T + 1), Ok(()));
    assert_eq!(user_withdraw(&mut v, &mut pos, T + 15), Err(ErrorCode::VaultNotReady));
    assert_eq!(user_withdraw(&mut v, &mut pos, T + 20), Err(ErrorCode::VaultNotReady));
    assert!(pos.is_some());
    assert_eq!(user_withdraw(&mut v, &mut pos, T + 21), Ok(0));
    assert_eq!(pos, None);
    assert_eq!(v.amount_redeemed, 0);
    assert_eq!(user_withdraw(&mut v, &mut pos, T + 22), Err(ErrorCode::PositionNotFound));
}

#[test]
fn payout_formula() {
    let (_, v) = created();
    // 500 / 31_536_000 is zero in whole numbers, so no yield accrues
    assert_eq!(Vault::calculate_payout(&300, &v), 0);
    let mut rich = v;
    rich.yield_bps = u16::MAX;
    rich.end_date = u64::MAX;
    rich.start_date = 0;
    assert_eq!(Vault::calculate_payout(&u64::MAX, &rich), 0);
}

#[test]
fn authority_withdraw_rules() {
    let (_, mut v) = created();
    assert_eq!(authority_withdraw(&mut v, id(2), id(9), 10), Err(ErrorCode::Unauthorized));
    assert_eq!(authority_withdraw(&mut v, id(1), id(8), 10), Err(ErrorCode::InvalidMint));
    assert_eq!(authority_withdraw(&mut v, id(1), id(9), 10), Ok(()));
    assert_eq!(authority_withdraw(&mut v, id(1), id(9), 5), Ok(()));
    assert_eq!(v.amount_withdrawn, 15);
    assert_eq!(authority_withdraw(&mut v, id(1), id(9), u64::MAX), Err(ErrorCode::Overflow));
    assert_eq!(v.amount_withdrawn, 15);
}

#[test]
fn authority_reassignment() {
    let (_, mut v) = created();
    assert_eq!(update_authority(&mut v, id(2), id(2)), Err(ErrorCode::Unauthorized));
    assert_eq!(update_authority(&mut v, id(1), id(3)), Ok(()));
    assert_eq!(v.authority, id(3));
    assert_eq!(v.creator, id(1));
    // the old authority has lost its rights
    assert_eq!(close_vault(&v, id(1), T + 30), Err(ErrorCode::Unauthorized));
    assert_eq!(close_vault(&v, id(3), T + 30), Ok(()));
    assert_eq!(update_authority(&mut v, id(1), id(1)), Err(ErrorCode::Unauthorized));
}

#[test]
fn close_at_grace_boundary() {
    let (_, mut v) = created();
    assert_eq!(close_vault(&v, id(1), T + 24), Err(ErrorCode::VaultNotReady));
    assert_eq!(close_vault(&v, id(1), T + 25), Ok(()));
    v.withdraw_timeframe = u64::MAX;
    assert_eq!(close_vault(&v, id(1), u64::MAX), Err(ErrorCode::VaultNotReady));
}

#[test]
fn unix_time_reading() {
    assert_eq!(InitOrUpdateVaultParam::to_unix_time(None), None);
    assert_eq!(InitOrUpdateVaultParam::to_unix_time(Some(1_700_000_000)), Some(1_700_000_000));
    assert_eq!(
        InitOrUpdateVaultParam::to_unix_time(Some(1_700_000_000_123)),
        Some(1_700_000_000)
    );
    assert_eq!(
        InitOrUpdateVaultParam::to_unix_time(Some(1_000_000_000_000)),
        Some(1_000_000_000_000)
    );
}

#[test]
fn record_seeds_and_identities() {
    assert_eq!(Global::seed(), b"global");
    assert_eq!(Vault::seed(), b"vault");
    assert_eq!(User::seed(), b"user");
    assert_ne!(id(1), id(2));
    let mut a = [7u8; 32];
    a[31] = 8;
    assert_ne!(Identity::new(a), id(7));
}
