use vstd::prelude::*;

use crate::error::ErrorCode;
use crate::identity::Identity;
use crate::instructions::{create_outcome, deposit_outcome, update_outcome, user_withdraw_outcome};
use crate::params::InitOrUpdateVaultParam;
use crate::state::{Global, User, Vault};

verus! {

/// One call of `init_or_deposit_user`: the position handed in, the owner, the
/// amount and the time of the call.
pub type DepositCall = (Option<User>, Identity, u64, u64);

/// The vault after a run of deposit calls in order; a refused call leaves it
/// as it was.
pub open spec fn after_deposits(v: Vault, calls: Seq<DepositCall>) -> Vault
    decreases calls.len(),
{
    if calls.len() == 0 {
        v
    } else {
        let before = after_deposits(v, calls.drop_last());
        let c = calls.last();
        match deposit_outcome(before, c.0, before.vault_count, c.1, c.2, c.3) {
            Ok((next, _)) => next,
            Err(_) => before,
        }
    }
}

/// However many deposits are made, accepted or refused, a vault never holds
/// more than its capacity.
pub proof fn lemma_deposits_never_exceed_capacity(v: Vault, calls: Seq<DepositCall>)
    requires
        v.amount_collected <= v.vault_capacity,
    ensures
        after_deposits(v, calls).amount_collected <= after_deposits(v, calls).vault_capacity,
    decreases calls.len(),
{
    if calls.len() > 0 {
        lemma_deposits_never_exceed_capacity(v, calls.drop_last());
    }
}

/// Once a vault has collected funds its configuration is frozen: every
/// update is refused, whoever asks, and one from its authority or creator is
/// refused as `NotUpdatable`.
pub proof fn lemma_collected_funds_freeze_configuration(
    g: Global,
    v: Vault,
    vault_count: u64,
    caller: Identity,
    now: u64,
    p: InitOrUpdateVaultParam,
)
    requires
        v.amount_collected > 0,
    ensures
        update_outcome(g, v, vault_count, caller, now, p) is Err,
        vault_count <= g.vault_counter && v.vault_count == vault_count && (caller == v.authority
            || caller == v.creator) ==> update_outcome(g, v, vault_count, caller, now, p)
            == Err::<Vault, ErrorCode>(ErrorCode::NotUpdatable),
{
}

/// A position is paid out at most once: after a settlement the position is
/// gone, and settling again, at any time, is refused.
pub proof fn lemma_user_withdraw_pays_once(v: Vault, position: Option<User>, now: u64, later: u64)
    requires
        user_withdraw_outcome(v, position, now) is Ok,
    ensures
        user_withdraw_outcome(user_withdraw_outcome(v, position, now)->Ok_0.0, None, later) is Err,
{
}

/// One call of `init_or_update_vault`, without the vault record: the vault
/// number, the caller, the base asset, the time and the configuration.
pub type ConfigureCall = (u64, Identity, Identity, u64, InitOrUpdateVaultParam);

/// The call creates a vault: it names the registry's next number and the
/// creation is accepted.
pub open spec fn creates(g: Global, c: ConfigureCall) -> bool {
    c.0 == g.vault_counter && create_outcome(g, c.1, c.2, c.3, c.4) is Ok
}

/// The registry after one call of `init_or_update_vault`: only a creation
/// changes it.
pub open spec fn registry_step(g: Global, c: ConfigureCall) -> Global {
    if creates(g, c) {
        create_outcome(g, c.1, c.2, c.3, c.4)->Ok_0.0
    } else {
        g
    }
}

/// The registry after a run of calls in order, and how many of them created
/// a vault.
pub open spec fn registry_after(g: Global, calls: Seq<ConfigureCall>) -> (Global, nat)
    decreases calls.len(),
{
    if calls.len() == 0 {
        (g, 0)
    } else {
        let (before, made) = registry_after(g, calls.drop_last());
        let c = calls.last();
        (registry_step(before, c), if creates(before, c) { made + 1 } else { made })
    }
}

/// Over any run of calls the registry's counter grows by exactly the number
/// of vaults created, so it never goes down.
pub proof fn lemma_registry_counts_creations(g: Global, calls: Seq<ConfigureCall>)
    ensures
        registry_after(g, calls).0.vault_counter == g.vault_counter + registry_after(g, calls).1,
        registry_after(g, calls).0.vault_counter >= g.vault_counter,
    decreases calls.len(),
{
    if calls.len() > 0 {
        lemma_registry_counts_creations(g, calls.drop_last());
    }
}

} // verus!
