use vstd::prelude::*;

use crate::error::ErrorCode;
use crate::identity::Identity;

verus! {

/// Seconds in a (non-leap) year, the period that `yield_bps` is quoted for.
pub const SECONDS_PER_YEAR: u64 = 31_536_000;

/// One hundred percent, in basis points.
pub const BPS_DENOMINATOR: u64 = 10_000;

/// The registry: hands out vault numbers in sequence.
#[derive(Clone, Copy, Debug, PartialEq, Eq, Structural)]
pub struct Global {
    /// The number the next vault will get; every existing vault has a lower one.
    pub vault_counter: u64,
}

/// One vault: its terms, its running totals and its lifecycle clock.
///
/// Dates and the withdraw timeframe are in one unit of time throughout, the
/// one the host's clock is handed in.
#[derive(Clone, Copy, Debug, PartialEq, Eq)]
pub struct Vault {
    /// The vault's number, given by the registry at creation.
    pub vault_count: u64,
    /// Who created the vault.
    pub creator: Identity,
    /// Who may withdraw collected funds, reconfigure and close the vault.
    pub authority: Identity,
    /// The asset that deposits and payouts are made in.
    pub base_mint: Identity,
    /// Yearly yield, in basis points.
    pub yield_bps: u16,
    /// The most the vault may collect in all.
    pub vault_capacity: u64,
    /// Every deposit is a whole multiple of this.
    pub min_amount: u64,
    /// Deposits are accepted strictly before this moment.
    pub start_date: u64,
    /// Depositors are paid out strictly after this moment.
    pub end_date: u64,
    /// How long after `end_date` depositors have before the vault may close.
    pub withdraw_timeframe: u64,
    /// Total deposited.
    pub amount_collected: u64,
    /// Total withdrawn by the authority.
    pub amount_withdrawn: u64,
    /// Total paid out to depositors.
    pub amount_redeemed: u64,
}

/// One depositor's position in one vault.
#[derive(Clone, Copy, Debug, PartialEq, Eq)]
pub struct User {
    /// The vault the position is in.
    pub vault_count: u64,
    /// The depositor.
    pub owner: Identity,
    /// Everything this depositor has put into this vault.
    pub amount: u64,
}

impl Global {
    /// The key prefix of the registry's record: `global` in ASCII.
    pub fn seed() -> (r: &'static [u8])
        ensures
            r@ == seq![103u8, 108u8, 111u8, 98u8, 97u8, 108u8],
    {
        let r: &'static [u8] = &[103u8, 108u8, 111u8, 98u8, 97u8, 108u8];
        r
    }

    /// Hands out the current counter as a new vault's number and advances the
    /// counter; refused with `Overflow` where the counter cannot advance.
    pub fn create_vault_slot(&mut self) -> (r: Result<u64, ErrorCode>)
        ensures
            old(self).vault_counter == u64::MAX ==> r == Err::<u64, ErrorCode>(ErrorCode::Overflow)
                && *final(self) == *old(self),
            old(self).vault_counter < u64::MAX
                ==> r == Ok::<u64, ErrorCode>(old(self).vault_counter)
                && final(self).vault_counter == old(self).vault_counter + 1,
    {
        match self.vault_counter.checked_add(1) {
            Some(next) => {
                let slot = self.vault_counter;
                self.vault_counter = next;
                Ok(slot)
            },
            None => Err(ErrorCode::Overflow),
        }
    }
}

/// What a depositor who put in `principal` is paid at maturity: the yield per
/// second is the yearly rate divided by the seconds of a year, in whole
/// numbers, then scaled by the vault's duration.
pub open spec fn payout_of(principal: u64, v: Vault) -> int {
    principal * ((v.yield_bps as int) / (SECONDS_PER_YEAR as int)) * (v.end_date - v.start_date)
        / (BPS_DENOMINATOR as int)
}

impl Vault {
    /// The key prefix of a vault's record: `vault` in ASCII.
    pub fn seed() -> (r: &'static [u8])
        ensures
            r@ == seq![118u8, 97u8, 117u8, 108u8, 116u8],
    {
        let r: &'static [u8] = &[118u8, 97u8, 117u8, 108u8, 116u8];
        r
    }

    /// The vault's standing invariant: it ends after it starts, and has never
    /// collected more than its capacity.
    pub open spec fn wf(&self) -> bool {
        &&& self.start_date < self.end_date
        &&& self.amount_collected <= self.vault_capacity
    }

    /// The payout owed on `base_amount` deposited in `vault`.
    pub fn calculate_payout(base_amount: &u64, vault: &Vault) -> (r: u64)
        requires
            vault.start_date <= vault.end_date,
        ensures
            r == payout_of(*base_amount, *vault),
    {
        let duration_seconds = vault.end_date - vault.start_date;
        let yield_per_second = vault.yield_bps as u64 / SECONDS_PER_YEAR;
        assert(yield_per_second == 0);
        assert(*base_amount * yield_per_second == 0) by (nonlinear_arith)
            requires yield_per_second == 0;
        assert(0 * duration_seconds == 0);
        (*base_amount * yield_per_second * duration_seconds) / BPS_DENOMINATOR
    }
}

/// A yearly rate below the seconds of a year (every `u16` rate) truncates to
/// a yield of zero per second, so the payout is zero on every principal and
/// every vault.
pub proof fn lemma_payout_truncates_to_zero(principal: u64, v: Vault)
    ensures
        payout_of(principal, v) == 0,
{
    assert((v.yield_bps as int) / (SECONDS_PER_YEAR as int) == 0);
    let d: int = v.end_date - v.start_date;
    assert(principal * 0int * d == 0) by (nonlinear_arith);
}

impl User {
    /// The key prefix of a position's record: `user` in ASCII.
    pub fn seed() -> (r: &'static [u8])
        ensures
            r@ == seq![117u8, 115u8, 101u8, 114u8],
    {
        let r: &'static [u8] = &[117u8, 115u8, 101u8, 114u8];
        r
    }
}

} // verus!
