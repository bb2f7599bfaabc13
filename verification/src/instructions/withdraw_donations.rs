use vstd::prelude::*;
use crate::address::{address_and_bump, Address};
use crate::common::errors::CustomError;
use crate::common::events::{WithdrawCharitySolEvent, WithdrawCharitySolEventView};
use crate::instructions::withdraw::{check_withdrawal, withdrawal_gate};
use crate::seeds::{find_vault_address, is_vault_of, names};
use crate::state::charity::{Charity, CharityView};
use crate::state::donation::TokenType;

verus! {

/// The accounts of a withdrawal of lamports, as the handler reads them. The
/// vault and the recipient are two accounts, each with its own balance.
#[derive(Clone, Debug, PartialEq, Eq)]
pub struct WithdrawDonations {
    /// The signer.
    pub authority: Address,
    /// The address of the registry entry.
    pub charity_key: Address,
    /// The registry entry.
    pub charity: Charity,
    /// The account named as the charity's vault.
    pub vault: Address,
    /// What the vault holds.
    pub vault_lamports: u64,
    /// What the recipient holds.
    pub recipient_lamports: u64,
}

pub struct WithdrawDonationsView {
    pub authority: Seq<u8>,
    pub charity_key: Seq<u8>,
    pub charity: CharityView,
    pub vault: Seq<u8>,
    pub vault_lamports: nat,
    pub recipient_lamports: nat,
}

impl View for WithdrawDonations {
    type V = WithdrawDonationsView;

    open spec fn view(&self) -> WithdrawDonationsView {
        WithdrawDonationsView {
            authority: self.authority@,
            charity_key: self.charity_key@,
            charity: self.charity@,
            vault: self.vault@,
            vault_lamports: self.vault_lamports as nat,
            recipient_lamports: self.recipient_lamports as nat,
        }
    }
}

impl WithdrawDonationsView {
    /// Why a withdrawal of `amount` lamports is turned away before any
    /// funds move, if it is.
    pub open spec fn gate(self, vault_is_own: bool, amount: nat) -> Option<CustomError> {
        withdrawal_gate(self.authority, self.charity, vault_is_own, self.vault_lamports, amount)
    }

    /// Why a withdrawal of `amount` lamports is refused, if it is: the first
    /// of these that applies. `min_rent` is the rent-exemption floor, under
    /// which the vault may not fall.
    pub open spec fn refusal(self, vault_is_own: bool, amount: nat, min_rent: nat) -> Option<CustomError> {
        if self.gate(vault_is_own, amount) is Some {
            self.gate(vault_is_own, amount)
        } else if self.vault_lamports - amount < min_rent {
            Some(CustomError::InsufficientFundsForRent)
        } else if self.recipient_lamports + amount > u64::MAX {
            Some(CustomError::Overflow)
        } else if self.charity.sol_donations_in_lamports < amount {
            Some(CustomError::Overflow)
        } else {
            None
        }
    }

    /// The accounts after a withdrawal of `amount` lamports at the time `at`.
    pub open spec fn withdrawn(self, amount: nat, at: int) -> WithdrawDonationsView
        recommends
            amount <= self.vault_lamports,
            amount <= self.charity.sol_donations_in_lamports,
    {
        WithdrawDonationsView {
            charity: self.charity.withdrawn(TokenType::Sol, amount, at),
            vault_lamports: (self.vault_lamports - amount) as nat,
            recipient_lamports: self.recipient_lamports + amount,
            ..self
        }
    }

    /// The event that announces a withdrawal of `amount` lamports at the time `at`.
    pub open spec fn event(self, amount: nat, at: int) -> WithdrawCharitySolEventView
        recommends
            amount <= self.charity.sol_donations_in_lamports,
    {
        WithdrawCharitySolEventView {
            charity_key: self.charity_key,
            charity_name: self.charity.name,
            donations_in_lamports: (self.charity.sol_donations_in_lamports - amount) as nat,
            donation_count: self.charity.donation_count,
            withdrawn_at: at,
        }
    }
}

/// A withdrawal of `amount` lamports, given what the derivation of the
/// charity's vault has yielded. Moves the amount from the vault to the
/// recipient, takes it off the running total and notes the time. Between
/// the two accounts nothing is made or lost. The vault is left with at least
/// `min_rent`, the rent-exemption floor: a withdrawal that would take it
/// lower is refused with `InsufficientFundsForRent`. A refused withdrawal
/// changes nothing.
pub fn withdraw_donations_with_vault(
    ctx: &mut WithdrawDonations,
    derived: &Option<(Address, u8)>,
    amount: u64,
    current_time: i64,
    min_rent: u64,
) -> (withdrawn: Result<WithdrawCharitySolEvent, CustomError>)
    ensures
        match withdrawn {
            Ok(event) => {
                &&& old(ctx)@.refusal(
                    names(address_and_bump(*derived), old(ctx)@.vault),
                    amount as nat,
                    min_rent as nat,
                ) is None
                &&& final(ctx)@ == old(ctx)@.withdrawn(amount as nat, current_time as int)
                &&& event@ == old(ctx)@.event(amount as nat, current_time as int)
                &&& final(ctx).vault_lamports == old(ctx).vault_lamports - amount
                &&& final(ctx).vault_lamports >= min_rent
                &&& final(ctx).vault_lamports + final(ctx).recipient_lamports == old(ctx).vault_lamports
                    + old(ctx).recipient_lamports
            },
            Err(error) => {
                &&& old(ctx)@.refusal(
                    names(address_and_bump(*derived), old(ctx)@.vault),
                    amount as nat,
                    min_rent as nat,
                ) == Some(error)
                &&& *final(ctx) == *old(ctx)
            },
        },
        old(ctx)@.gate(names(address_and_bump(*derived), old(ctx)@.vault), amount as nat) is None && old(
            ctx,
        ).vault_lamports - amount < min_rent ==> withdrawn matches Err(CustomError::InsufficientFundsForRent),
        old(ctx)@.charity.wf() ==> final(ctx)@.charity.wf(),
{
    match check_withdrawal(&ctx.authority, &ctx.charity, &ctx.vault, derived, ctx.vault_lamports, amount) {
        Ok(()) => {},
        Err(error) => {
            return Err(error);
        },
    }
    let vault_left = ctx.vault_lamports - amount;
    if vault_left < min_rent {
        return Err(CustomError::InsufficientFundsForRent);
    }
    let recipient_total = match ctx.recipient_lamports.checked_add(amount) {
        Some(total) => total,
        None => {
            return Err(CustomError::Overflow);
        },
    };
    match ctx.charity.record_withdrawal(TokenType::Sol, amount, current_time) {
        Ok(()) => {},
        Err(error) => {
            return Err(error);
        },
    }
    ctx.vault_lamports = vault_left;
    ctx.recipient_lamports = recipient_total;
    Ok(
        WithdrawCharitySolEvent {
            charity_key: ctx.charity_key,
            charity_name: ctx.charity.name.clone(),
            donations_in_lamports: ctx.charity.sol_donations_in_lamports,
            donation_count: ctx.charity.donation_count,
            withdrawn_at: current_time,
        },
    )
}

/// Withdraws `amount` lamports from the vault of a charity to the recipient:
/// derives the vault's address from the charity's, and goes on as
/// `withdraw_donations_with_vault` does. Only the authority may withdraw,
/// only from the charity's own vault, only more than nothing and no more
/// than the vault holds, and never so much that the vault falls under
/// `min_rent`. A refused withdrawal changes nothing.
pub fn withdraw_donations(
    ctx: &mut WithdrawDonations,
    program_id: &Address,
    amount: u64,
    current_time: i64,
    min_rent: u64,
) -> (withdrawn: Result<WithdrawCharitySolEvent, CustomError>)
    ensures
        match withdrawn {
            Ok(event) => {
                &&& old(ctx)@.refusal(
                    is_vault_of(old(ctx)@.vault, old(ctx)@.charity_key, program_id@),
                    amount as nat,
                    min_rent as nat,
                ) is None
                &&& final(ctx)@ == old(ctx)@.withdrawn(amount as nat, current_time as int)
                &&& event@ == old(ctx)@.event(amount as nat, current_time as int)
                &&& final(ctx).vault_lamports == old(ctx).vault_lamports - amount
                &&& final(ctx).vault_lamports >= min_rent
                &&& final(ctx).vault_lamports + final(ctx).recipient_lamports == old(ctx).vault_lamports
                    + old(ctx).recipient_lamports
            },
            Err(error) => {
                &&& old(ctx)@.refusal(
                    is_vault_of(old(ctx)@.vault, old(ctx)@.charity_key, program_id@),
                    amount as nat,
                    min_rent as nat,
                ) == Some(error)
                &&& *final(ctx) == *old(ctx)
            },
        },
        old(ctx)@.gate(is_vault_of(old(ctx)@.vault, old(ctx)@.charity_key, program_id@), amount as nat) is None
            && old(ctx).vault_lamports - amount < min_rent ==> withdrawn matches Err(
            CustomError::InsufficientFundsForRent,
        ),
        old(ctx)@.charity.wf() ==> final(ctx)@.charity.wf(),
{
    let derived = find_vault_address(&ctx.charity_key, program_id);
    withdraw_donations_with_vault(ctx, &derived, amount, current_time, min_rent)
}

} // verus!
