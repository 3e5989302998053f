use vstd::prelude::*;

use crate::error::ErrorCode;
use crate::identity::Identity;
use crate::laws::registry_step;
use crate::params::InitOrUpdateVaultParam;
use crate::state::{payout_of, Global, User, Vault};

verus! {

/// The value given, or `default` where none is.
pub open spec fn given_or<T>(o: Option<T>, default: T) -> T {
    match o {
        Some(x) => x,
        None => default,
    }
}

/// What creating a vault in the registry's next slot gives: the registry
/// advanced by one and the new vault, or the first error met.
pub open spec fn create_outcome(
    g: Global,
    caller: Identity,
    base_mint: Identity,
    now: u64,
    p: InitOrUpdateVaultParam,
) -> Result<(Global, Vault), ErrorCode> {
    if !p.is_complete() {
        Err(ErrorCode::MissingParams)
    } else if p.start_date.unwrap() <= now || p.end_date.unwrap() <= now {
        Err(ErrorCode::InvalidTimeInput)
    } else if p.start_date.unwrap() >= p.end_date.unwrap() {
        Err(ErrorCode::InvalidEndTimeInput)
    } else if g.vault_counter == u64::MAX {
        Err(ErrorCode::Overflow)
    } else {
        Ok(
            (
                Global { vault_counter: (g.vault_counter + 1) as u64 },
                Vault {
                    vault_count: g.vault_counter,
                    creator: caller,
                    authority: given_or(p.authority, caller),
                    base_mint,
                    yield_bps: p.yield_bps.unwrap(),
                    vault_capacity: p.vault_capacity.unwrap(),
                    min_amount: p.min_amount.unwrap(),
                    start_date: p.start_date.unwrap(),
                    end_date: p.end_date.unwrap(),
                    withdraw_timeframe: p.withdraw_timeframe.unwrap(),
                    amount_collected: 0,
                    amount_withdrawn: 0,
                    amount_redeemed: 0,
                },
            ),
        )
    }
}

/// What reconfiguring the existing vault `v` (number `vault_count`) gives:
/// the vault with each given term replaced, or the first error met.
pub open spec fn update_outcome(
    g: Global,
    v: Vault,
    vault_count: u64,
    caller: Identity,
    now: u64,
    p: InitOrUpdateVaultParam,
) -> Result<Vault, ErrorCode> {
    let start = given_or(p.start_date, v.start_date);
    let end = given_or(p.end_date, v.end_date);
    if vault_count > g.vault_counter || v.vault_count != vault_count {
        Err(ErrorCode::IncorrectCount)
    } else if caller != v.authority && caller != v.creator {
        Err(ErrorCode::Unauthorized)
    } else if v.amount_collected != 0 {
        Err(ErrorCode::NotUpdatable)
    } else if start <= now {
        Err(ErrorCode::InvalidStartTimeInput)
    } else if start >= end {
        Err(ErrorCode::InvalidEndTimeInput)
    } else {
        Ok(
            Vault {
                yield_bps: given_or(p.yield_bps, v.yield_bps),
                vault_capacity: given_or(p.vault_capacity, v.vault_capacity),
                min_amount: given_or(p.min_amount, v.min_amount),
                start_date: start,
                end_date: end,
                withdraw_timeframe: given_or(p.withdraw_timeframe, v.withdraw_timeframe),
                ..v
            },
        )
    }
}

/// Creates a vault, where `vault_count` is the registry's next number, or
/// else reconfigures the existing vault `vault_count`, on behalf of `caller`
/// at time `now`. A refused call changes nothing.
pub fn init_or_update_vault(
    global: &mut Global,
    vault: &mut Vault,
    vault_count: u64,
    caller: Identity,
    base_mint: Identity,
    now: u64,
    params: &InitOrUpdateVaultParam,
) -> (r: Result<(), ErrorCode>)
    ensures
        vault_count == old(global).vault_counter ==> match create_outcome(
            *old(global),
            caller,
            base_mint,
            now,
            *params,
        ) {
            Ok((g, v)) => r is Ok && *final(global) == g && *final(vault) == v,
            Err(e) => {
                &&& r == Err::<(), ErrorCode>(e)
                &&& *final(global) == *old(global)
                &&& *final(vault) == *old(vault)
            },
        },
        vault_count != old(global).vault_counter ==> match update_outcome(
            *old(global),
            *old(vault),
            vault_count,
            caller,
            now,
            *params,
        ) {
            Ok(v) => r is Ok && *final(global) == *old(global) && *final(vault) == v,
            Err(e) => {
                &&& r == Err::<(), ErrorCode>(e)
                &&& *final(global) == *old(global)
                &&& *final(vault) == *old(vault)
            },
        },
        *final(global) == registry_step(*old(global), (vault_count, caller, base_mint, now, *params)),
        // the registry moves by exactly one on each creation, and otherwise stays
        final(global).vault_counter == if r is Ok && vault_count == old(global).vault_counter {
            old(global).vault_counter + 1
        } else {
            old(global).vault_counter as int
        },
        // a created vault holds exactly the terms it was given
        r is Ok && vault_count == old(global).vault_counter ==> {
            &&& final(vault).vault_count == vault_count
            &&& final(vault).creator == caller
            &&& final(vault).authority == given_or(params.authority, caller)
            &&& final(vault).base_mint == base_mint
            &&& Some(final(vault).yield_bps) == params.yield_bps
            &&& Some(final(vault).vault_capacity) == params.vault_capacity
            &&& Some(final(vault).min_amount) == params.min_amount
            &&& Some(final(vault).start_date) == params.start_date
            &&& Some(final(vault).end_date) == params.end_date
            &&& Some(final(vault).withdraw_timeframe) == params.withdraw_timeframe
        },
        vault_count == old(global).vault_counter && !params.is_complete()
            ==> r == Err::<(), ErrorCode>(ErrorCode::MissingParams),
        // once funds are collected, no caller can change the configuration
        vault_count != old(global).vault_counter && old(vault).amount_collected > 0 ==> r is Err,
        r is Ok ==> final(vault).wf(),
{
    if vault_count == global.vault_counter {
        let (yield_bps, vault_capacity, min_amount, start_date, end_date, withdraw_timeframe) =
            match (
            params.yield_bps,
            params.vault_capacity,
            params.min_amount,
            params.start_date,
            params.end_date,
            params.withdraw_timeframe,
        ) {
            (Some(a), Some(b), Some(c), Some(d), Some(e), Some(f)) => (a, b, c, d, e, f),
            _ => {
                return Err(ErrorCode::MissingParams);
            },
        };
        if start_date <= now || end_date <= now {
            return Err(ErrorCode::InvalidTimeInput);
        }
        if start_date >= end_date {
            return Err(ErrorCode::InvalidEndTimeInput);
        }
        let slot = match global.create_vault_slot() {
            Ok(slot) => slot,
            Err(e) => {
                return Err(e);
            },
        };
        let authority = match params.authority {
            Some(a) => a,
            None => caller,
        };
        *vault =
        Vault {
            vault_count: slot,
            creator: caller,
            authority,
            base_mint,
            yield_bps,
            vault_capacity,
            min_amount,
            start_date,
            end_date,
            withdraw_timeframe,
            amount_collected: 0,
            amount_withdrawn: 0,
            amount_redeemed: 0,
        };
        return Ok(());
    }
    if vault_count > global.vault_counter || vault.vault_count != vault_count {
        return Err(ErrorCode::IncorrectCount);
    }
    if vault.authority != caller && vault.creator != caller {
        return Err(ErrorCode::Unauthorized);
    }
    // funds collected freeze the configuration
    if vault.amount_collected != 0 {
        return Err(ErrorCode::NotUpdatable);
    }
    let start_date = match params.start_date {
        Some(s) => s,
        None => vault.start_date,
    };
    let end_date = match params.end_date {
        Some(e) => e,
        None => vault.end_date,
    };
    // a vault that has started cannot be moved
    if start_date <= now {
        return Err(ErrorCode::InvalidStartTimeInput);
    }
    if start_date >= end_date {
        return Err(ErrorCode::InvalidEndTimeInput);
    }
    if let Some(x) = params.yield_bps {
        vault.yield_bps = x;
    }
    if let Some(x) = params.vault_capacity {
        vault.vault_capacity = x;
    }
    if let Some(x) = params.min_amount {
        vault.min_amount = x;
    }
    vault.start_date = start_date;
    vault.end_date = end_date;
    if let Some(x) = params.withdraw_timeframe {
        vault.withdraw_timeframe = x;
    }
    Ok(())
}

/// Sets up the registry: no vault numbers handed out yet.
pub fn init_global(global: &mut Global)
    ensures
        final(global).vault_counter == 0,
{
    global.vault_counter = 0;
}

/// Hands authority over `vault` to `new_authority`; only the current
/// authority may.
pub fn update_authority(
    vault: &mut Vault,
    caller: Identity,
    new_authority: Identity,
) -> (r: Result<(), ErrorCode>)
    ensures
        caller == old(vault).authority ==> r is Ok && *final(vault) == (Vault {
            authority: new_authority,
            ..*old(vault)
        }),
        caller != old(vault).authority ==> r == Err::<(), ErrorCode>(ErrorCode::Unauthorized)
            && *final(vault) == *old(vault),
{
    if vault.authority != caller {
        return Err(ErrorCode::Unauthorized);
    }
    vault.authority = new_authority;
    Ok(())
}

/// `amount` is a whole multiple of `unit` (only zero is a multiple of zero).
pub open spec fn is_multiple_of(amount: u64, unit: u64) -> bool {
    if unit == 0 {
        amount == 0
    } else {
        amount % unit == 0
    }
}

/// What a position holds so far: nothing where there is none yet.
pub open spec fn held(position: Option<User>) -> int {
    match position {
        Some(u) => u.amount as int,
        None => 0,
    }
}

/// What a deposit of `amount` by `owner` into `v` at time `now` gives: the
/// vault and the owner's position after it, or the first error met.
pub open spec fn deposit_outcome(
    v: Vault,
    position: Option<User>,
    vault_count: u64,
    owner: Identity,
    amount: u64,
    now: u64,
) -> Result<(Vault, User), ErrorCode> {
    if now >= v.start_date {
        Err(ErrorCode::VaultClosed)
    } else if !is_multiple_of(amount, v.min_amount) {
        Err(ErrorCode::InvalidMultiple)
    } else if amount + v.amount_collected > v.vault_capacity {
        Err(ErrorCode::AmountExceedsCapacity)
    } else if held(position) + amount > u64::MAX {
        Err(ErrorCode::Overflow)
    } else {
        Ok(
            (
                Vault { amount_collected: (v.amount_collected + amount) as u64, ..v },
                User { vault_count, owner, amount: (held(position) + amount) as u64 },
            ),
        )
    }
}

/// Takes a deposit of `amount` from `owner` into vault `vault_count` at time
/// `now`, opening the owner's position on a first deposit and adding to it
/// after. The host moves the tokens, and keeps the new records only once they
/// have moved. A refused call changes nothing.
pub fn init_or_deposit_user(
    vault: &mut Vault,
    position: &mut Option<User>,
    vault_count: u64,
    owner: Identity,
    amount: u64,
    now: u64,
) -> (r: Result<(), ErrorCode>)
    ensures
        match deposit_outcome(*old(vault), *old(position), vault_count, owner, amount, now) {
            Ok((v, u)) => r is Ok && *final(vault) == v && *final(position) == Some(u),
            Err(e) => {
                &&& r == Err::<(), ErrorCode>(e)
                &&& *final(vault) == *old(vault)
                &&& *final(position) == *old(position)
            },
        },
        // the funding window closes at the start
        now >= old(vault).start_date ==> r == Err::<(), ErrorCode>(ErrorCode::VaultClosed),
        now < old(vault).start_date && is_multiple_of(amount, old(vault).min_amount) && amount
            + old(vault).amount_collected <= old(vault).vault_capacity && held(*old(position))
            + amount <= u64::MAX ==> r is Ok,
        now < old(vault).start_date && !is_multiple_of(amount, old(vault).min_amount)
            ==> r == Err::<(), ErrorCode>(ErrorCode::InvalidMultiple),
        // a deposit never takes the vault past its capacity
        r is Ok ==> final(vault).amount_collected <= final(vault).vault_capacity,
        old(vault).wf() ==> final(vault).wf(),
{
    if now >= vault.start_date {
        return Err(ErrorCode::VaultClosed);
    }
    let is_multiple = if vault.min_amount == 0 {
        amount == 0
    } else {
        amount % vault.min_amount == 0
    };
    if !is_multiple {
        return Err(ErrorCode::InvalidMultiple);
    }
    let collected = match amount.checked_add(vault.amount_collected) {
        Some(total) => total,
        None => {
            return Err(ErrorCode::AmountExceedsCapacity);
        },
    };
    if collected > vault.vault_capacity {
        return Err(ErrorCode::AmountExceedsCapacity);
    }
    let before: u64 = match position {
        Some(u) => u.amount,
        None => 0,
    };
    let after = match before.checked_add(amount) {
        Some(total) => total,
        None => {
            return Err(ErrorCode::Overflow);
        },
    };
    vault.amount_collected = collected;
    *position = Some(User { vault_count, owner, amount: after });
    Ok(())
}

/// What the authority's withdrawal of `amount` from `v` gives: the vault with
/// the withdrawal counted, or the first error met.
pub open spec fn authority_withdraw_outcome(
    v: Vault,
    caller: Identity,
    base_mint: Identity,
    amount: u64,
) -> Result<Vault, ErrorCode> {
    if caller != v.authority {
        Err(ErrorCode::Unauthorized)
    } else if base_mint != v.base_mint {
        Err(ErrorCode::InvalidMint)
    } else if v.amount_withdrawn + amount > u64::MAX {
        Err(ErrorCode::Overflow)
    } else {
        Ok(Vault { amount_withdrawn: (v.amount_withdrawn + amount) as u64, ..v })
    }
}

/// Counts the authority's withdrawal of `amount` of `base_mint` from the
/// vault; allowed at any time, up to what the vault holds (which the host's
/// transfer enforces). A refused call changes nothing.
pub fn authority_withdraw(
    vault: &mut Vault,
    caller: Identity,
    base_mint: Identity,
    amount: u64,
) -> (r: Result<(), ErrorCode>)
    ensures
        match authority_withdraw_outcome(*old(vault), caller, base_mint, amount) {
            Ok(v) => r is Ok && *final(vault) == v,
            Err(e) => r == Err::<(), ErrorCode>(e) && *final(vault) == *old(vault),
        },
        old(vault).wf() ==> final(vault).wf(),
{
    if vault.authority != caller {
        return Err(ErrorCode::Unauthorized);
    }
    if vault.base_mint != base_mint {
        return Err(ErrorCode::InvalidMint);
    }
    match vault.amount_withdrawn.checked_add(amount) {
        Some(total) => vault.amount_withdrawn = total,
        None => {
            return Err(ErrorCode::Overflow);
        },
    }
    Ok(())
}

/// What settling `position` in `v` at time `now` gives: the vault with the
/// payout counted and the payout, or the first error met.
pub open spec fn user_withdraw_outcome(v: Vault, position: Option<User>, now: u64) -> Result<
    (Vault, u64),
    ErrorCode,
> {
    if now <= v.end_date {
        Err(ErrorCode::VaultNotReady)
    } else {
        match position {
            None => Err(ErrorCode::PositionNotFound),
            Some(u) => {
                let payout = payout_of(u.amount, v);
                if v.amount_redeemed + payout > u64::MAX {
                    Err(ErrorCode::Overflow)
                } else {
                    let after = Vault { amount_redeemed: (v.amount_redeemed + payout) as u64, ..v };
                    Ok((after, payout as u64))
                }
            },
        }
    }
}

/// Settles a depositor's position once the vault has matured: returns the
/// payout for the host to transfer, counts it, and closes the position, so
/// that it is paid once. A refused call changes nothing.
pub fn user_withdraw(
    vault: &mut Vault,
    position: &mut Option<User>,
    now: u64,
) -> (r: Result<u64, ErrorCode>)
    requires
        old(vault).start_date <= old(vault).end_date,
    ensures
        match user_withdraw_outcome(*old(vault), *old(position), now) {
            Ok((v, payout)) => {
                &&& r == Ok::<u64, ErrorCode>(payout)
                &&& *final(vault) == v
                &&& *final(position) is None
            },
            Err(e) => {
                &&& r == Err::<u64, ErrorCode>(e)
                &&& *final(vault) == *old(vault)
                &&& *final(position) == *old(position)
            },
        },
        // nothing is paid out before maturity
        now <= old(vault).end_date ==> r == Err::<u64, ErrorCode>(ErrorCode::VaultNotReady),
        old(vault).wf() ==> final(vault).wf(),
{
    if now <= vault.end_date {
        return Err(ErrorCode::VaultNotReady);
    }
    let principal = match position {
        Some(u) => u.amount,
        None => {
            return Err(ErrorCode::PositionNotFound);
        },
    };
    let payout = Vault::calculate_payout(&principal, vault);
    match vault.amount_redeemed.checked_add(payout) {
        Some(total) => vault.amount_redeemed = total,
        None => {
            return Err(ErrorCode::Overflow);
        },
    }
    *position = None;
    Ok(payout)
}

/// The vault may close: the authority asks, and the depositors' grace period
/// after maturity has run out.
pub open spec fn close_outcome(v: Vault, caller: Identity, now: u64) -> Result<(), ErrorCode> {
    if caller != v.authority {
        Err(ErrorCode::Unauthorized)
    } else if (now as int) < v.end_date + v.withdraw_timeframe {
        Err(ErrorCode::VaultNotReady)
    } else {
        Ok(())
    }
}

/// Decides whether `caller` may close the vault at time `now`. Where it may,
/// the host sweeps what the vault holds to the authority and releases the
/// vault's records; a closed vault is gone for good.
pub fn close_vault(vault: &Vault, caller: Identity, now: u64) -> (r: Result<(), ErrorCode>)
    ensures
        r == close_outcome(*vault, caller, now),
{
    if vault.authority != caller {
        return Err(ErrorCode::Unauthorized);
    }
    let ready = match vault.end_date.checked_add(vault.withdraw_timeframe) {
        Some(closes) => now >= closes,
        None => false,
    };
    if !ready {
        return Err(ErrorCode::VaultNotReady);
    }
    Ok(())
}

} // verus!
