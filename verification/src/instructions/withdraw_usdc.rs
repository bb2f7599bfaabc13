use vstd::prelude::*;
use crate::address::{address_and_bump, Address};
use crate::common::errors::CustomError;
use crate::common::events::{WithdrawCharityUsdcEvent, WithdrawCharityUsdcEventView};
use crate::instructions::withdraw::{check_withdrawal, withdrawal_gate};
use crate::seeds::{find_vault_address, is_vault_of, names};
use crate::state::charity::{Charity, CharityView};
use crate::state::donation::TokenType;
use crate::transfer::{TransferRequest, TransferRequestView};

verus! {

/// The accounts of a withdrawal of stablecoin, as the handler reads them.
#[derive(Clone, Debug, PartialEq, Eq)]
pub struct WithdrawUsdc {
    /// The signer.
    pub authority: Address,
    /// The address of the registry entry.
    pub charity_key: Address,
    /// The registry entry.
    pub charity: Charity,
    /// The token account named as the charity's vault.
    pub vault: Address,
    /// What the vault holds before the transfer, in units of the stablecoin.
    pub vault_amount: u64,
    /// The token account that receives.
    pub recipient: Address,
}

pub struct WithdrawUsdcView {
    pub authority: Seq<u8>,
    pub charity_key: Seq<u8>,
    pub charity: CharityView,
    pub vault: Seq<u8>,
    pub vault_amount: nat,
    pub recipient: Seq<u8>,
}

impl View for WithdrawUsdc {
    type V = WithdrawUsdcView;

    open spec fn view(&self) -> WithdrawUsdcView {
        WithdrawUsdcView {
            authority: self.authority@,
            charity_key: self.charity_key@,
            charity: self.charity@,
            vault: self.vault@,
            vault_amount: self.vault_amount as nat,
            recipient: self.recipient@,
        }
    }
}

impl WithdrawUsdcView {
    /// Why a withdrawal of `amount` units is turned away before any funds
    /// move, if it is.
    pub open spec fn gate(self, vault_is_own: bool, amount: nat) -> Option<CustomError> {
        withdrawal_gate(self.authority, self.charity, vault_is_own, self.vault_amount, amount)
    }

    /// Why a withdrawal of `amount` units is refused, if it is: the first of
    /// these that applies.
    pub open spec fn refusal(self, vault_is_own: bool, amount: nat) -> Option<CustomError> {
        if self.gate(vault_is_own, amount) is Some {
            self.gate(vault_is_own, amount)
        } else if self.charity.usdc_donations < amount {
            Some(CustomError::Overflow)
        } else {
            None
        }
    }

    /// The transfer that a withdrawal of `amount` units asks of the host:
    /// from the vault to the recipient, in the authority's name.
    pub open spec fn transfer(self, amount: nat) -> TransferRequestView {
        TransferRequestView { from: self.vault, to: self.recipient, authority: self.authority, amount }
    }

    /// The accounts after a withdrawal of `amount` units at the time `at`.
    pub open spec fn withdrawn(self, amount: nat, at: int) -> WithdrawUsdcView
        recommends
            amount <= self.charity.usdc_donations,
    {
        WithdrawUsdcView { charity: self.charity.withdrawn(TokenType::Usdc, amount, at), ..self }
    }

    /// The event that announces a withdrawal of `amount` units at the time `at`.
    pub open spec fn event(self, amount: nat, at: int) -> WithdrawCharityUsdcEventView
        recommends
            amount <= self.charity.usdc_donations,
    {
        WithdrawCharityUsdcEventView {
            charity_key: self.charity_key,
            charity_name: self.charity.name,
            usdc_donations: (self.charity.usdc_donations - amount) as nat,
            donation_count: self.charity.donation_count,
            withdrawn_at: at,
        }
    }
}

/// The first step of a withdrawal of stablecoin: decides whether the caller
/// may take `amount` out of the vault, and if so names the transfer from the
/// vault to the recipient that the host is to make, in the authority's name.
/// Nothing is changed here; a refusal asks for no transfer.
pub fn withdraw_usdc_transfer(ctx: &WithdrawUsdc, program_id: &Address, amount: u64) -> (request: Result<
    TransferRequest,
    CustomError,
>)
    ensures
        match request {
            Ok(transfer) => {
                &&& ctx@.gate(is_vault_of(ctx@.vault, ctx@.charity_key, program_id@), amount as nat) is None
                &&& transfer@ == ctx@.transfer(amount as nat)
                &&& 0 < amount <= ctx.vault_amount
            },
            Err(error) => ctx@.gate(is_vault_of(ctx@.vault, ctx@.charity_key, program_id@), amount as nat)
                == Some(error),
        },
{
    let derived = find_vault_address(&ctx.charity_key, program_id);
    match check_withdrawal(&ctx.authority, &ctx.charity, &ctx.vault, &derived, ctx.vault_amount, amount) {
        Ok(()) => {},
        Err(error) => {
            return Err(error);
        },
    }
    Ok(TransferRequest { from: ctx.vault, to: ctx.recipient, authority: ctx.authority, amount })
}

/// A withdrawal of `amount` units of stablecoin that the host has moved from
/// the vault to the recipient, given what the derivation of the charity's
/// vault has yielded: takes the amount off the running total and notes the
/// time. A refused withdrawal changes nothing.
pub fn withdraw_usdc_with_vault(
    ctx: &mut WithdrawUsdc,
    derived: &Option<(Address, u8)>,
    amount: u64,
    current_time: i64,
) -> (withdrawn: Result<WithdrawCharityUsdcEvent, CustomError>)
    ensures
        match withdrawn {
            Ok(event) => {
                &&& old(ctx)@.refusal(names(address_and_bump(*derived), old(ctx)@.vault), amount as nat) is None
                &&& final(ctx)@ == old(ctx)@.withdrawn(amount as nat, current_time as int)
                &&& event@ == old(ctx)@.event(amount as nat, current_time as int)
            },
            Err(error) => {
                &&& old(ctx)@.refusal(names(address_and_bump(*derived), old(ctx)@.vault), amount as nat)
                    == Some(error)
                &&& *final(ctx) == *old(ctx)
            },
        },
        old(ctx)@.charity.wf() ==> final(ctx)@.charity.wf(),
{
    match check_withdrawal(&ctx.authority, &ctx.charity, &ctx.vault, derived, ctx.vault_amount, amount) {
        Ok(()) => {},
        Err(error) => {
            return Err(error);
        },
    }
    match ctx.charity.record_withdrawal(TokenType::Usdc, amount, current_time) {
        Ok(()) => {},
        Err(error) => {
            return Err(error);
        },
    }
    Ok(
        WithdrawCharityUsdcEvent {
            charity_key: ctx.charity_key,
            charity_name: ctx.charity.name.clone(),
            usdc_donations: ctx.charity.usdc_donations,
            donation_count: ctx.charity.donation_count,
            withdrawn_at: current_time,
        },
    )
}

/// The withdrawal of `amount` units of stablecoin, once the host has moved
/// them from the vault to the recipient: derives the vault's address from
/// the charity's, and goes on as `withdraw_usdc_with_vault` does. A refused
/// withdrawal changes nothing.
pub fn handler(ctx: &mut WithdrawUsdc, program_id: &Address, amount: u64, current_time: i64) -> (withdrawn:
    Result<WithdrawCharityUsdcEvent, CustomError>)
    ensures
        match withdrawn {
            Ok(event) => {
                &&& old(ctx)@.refusal(
                    is_vault_of(old(ctx)@.vault, old(ctx)@.charity_key, program_id@),
                    amount as nat,
                ) is None
                &&& final(ctx)@ == old(ctx)@.withdrawn(amount as nat, current_time as int)
                &&& event@ == old(ctx)@.event(amount as nat, current_time as int)
            },
            Err(error) => {
                &&& old(ctx)@.refusal(
                    is_vault_of(old(ctx)@.vault, old(ctx)@.charity_key, program_id@),
                    amount as nat,
                ) == Some(error)
                &&& *final(ctx) == *old(ctx)
            },
        },
        old(ctx)@.charity.wf() ==> final(ctx)@.charity.wf(),
{
    let derived = find_vault_address(&ctx.charity_key, program_id);
    withdraw_usdc_with_vault(ctx, &derived, amount, current_time)
}

} // verus!
