use vstd::prelude::*;
use crate::address::Address;
use crate::common::errors::CustomError;
use crate::common::events::MakeDonationEvent;
use crate::instructions::donate::{
    check_donation,
    donate_with_vault,
    donation_event_of,
    donation_gate,
    donation_refusal,
    receipt_of,
};
use crate::seeds::{donation_seeds, donation_seeds_of, find_vault_address, is_vault_of};
use crate::state::charity::{Charity, CharityView};
use crate::state::donation::{Donation, TokenType};
use crate::transfer::{TransferRequest, TransferRequestView};

verus! {

/// The accounts of a donation of stablecoin, as the handler reads them.
#[derive(Clone, Debug, PartialEq, Eq)]
pub struct DonateUsdc {
    /// The signer, who gives.
    pub donor: Address,
    /// The address of the registry entry.
    pub charity_key: Address,
    /// The registry entry.
    pub charity: Charity,
    /// The account named as the charity's vault.
    pub vault: Address,
    /// The donor's token account, which pays.
    pub donor_token_account: Address,
}

pub struct DonateUsdcView {
    pub donor: Seq<u8>,
    pub charity_key: Seq<u8>,
    pub charity: CharityView,
    pub vault: Seq<u8>,
    pub donor_token_account: Seq<u8>,
}

impl View for DonateUsdc {
    type V = DonateUsdcView;

    open spec fn view(&self) -> DonateUsdcView {
        DonateUsdcView {
            donor: self.donor@,
            charity_key: self.charity_key@,
            charity: self.charity@,
            vault: self.vault@,
            donor_token_account: self.donor_token_account@,
        }
    }
}

impl DonateUsdc {
    /// The seeds of the address of the receipt that the next donation
    /// writes: it is keyed by what the charity has counted so far.
    pub fn receipt_seeds(&self) -> (seeds: Vec<Vec<u8>>)
        ensures
            seeds.deep_view() == donation_seeds(self@.donor, self@.charity_key, self.charity.donation_count),
    {
        donation_seeds_of(&self.donor, &self.charity_key, self.charity.donation_count)
    }
}

/// The first step of a donation of stablecoin: decides whether the charity
/// may be given to, and if so names the transfer from the donor's token
/// account to the vault that the host is to make, in the donor's name.
/// Nothing is changed here; a refusal asks for no transfer.
pub fn donate_usdc_transfer(ctx: &DonateUsdc, program_id: &Address, amount: u64) -> (request: Result<
    TransferRequest,
    CustomError,
>)
    ensures
        match request {
            Ok(transfer) => {
                &&& donation_gate(ctx@.charity, is_vault_of(ctx@.vault, ctx@.charity_key, program_id@)) is None
                &&& transfer@ == (TransferRequestView {
                    from: ctx@.donor_token_account,
                    to: ctx@.vault,
                    authority: ctx@.donor,
                    amount: amount as nat,
                })
            },
            Err(error) => donation_gate(ctx@.charity, is_vault_of(ctx@.vault, ctx@.charity_key, program_id@)) == Some(
                error,
            ),
        },
        ctx.charity.paused ==> request matches Err(CustomError::DonationsPaused),
{
    let derived = find_vault_address(&ctx.charity_key, program_id);
    match check_donation(&ctx.charity, &ctx.vault, &derived) {
        Ok(()) => {},
        Err(error) => {
            return Err(error);
        },
    }
    Ok(TransferRequest { from: ctx.donor_token_account, to: ctx.vault, authority: ctx.donor, amount })
}

/// The donation of `amount` units of stablecoin, once the host has moved
/// them to the vault: counts it, raises the total of stablecoin, and writes
/// the receipt and the event. A paused charity, a vault that is not the
/// charity's own, and a counter or total that would overflow are refused, in
/// this order, and a refused donation changes nothing.
pub fn donate_usdc(ctx: &mut DonateUsdc, program_id: &Address, amount: u64, current_time: i64) -> (made: Result<
    (Donation, MakeDonationEvent),
    CustomError,
>)
    ensures
        match made {
            Ok((receipt, event)) => {
                &&& donation_refusal(
                    old(ctx)@.charity,
                    is_vault_of(old(ctx)@.vault, old(ctx)@.charity_key, program_id@),
                    TokenType::Usdc,
                    amount as nat,
                ) is None
                &&& final(ctx)@ == (DonateUsdcView {
                    charity: old(ctx)@.charity.donated(TokenType::Usdc, amount as nat),
                    ..old(ctx)@
                })
                &&& receipt@ == receipt_of(
                    old(ctx)@.charity,
                    old(ctx)@.charity_key,
                    old(ctx)@.donor,
                    TokenType::Usdc,
                    amount as nat,
                    current_time as int,
                )
                &&& event@ == donation_event_of(
                    old(ctx)@.charity,
                    old(ctx)@.charity_key,
                    old(ctx)@.donor,
                    amount as nat,
                    current_time as int,
                )
            },
            Err(error) => {
                &&& donation_refusal(
                    old(ctx)@.charity,
                    is_vault_of(old(ctx)@.vault, old(ctx)@.charity_key, program_id@),
                    TokenType::Usdc,
                    amount as nat,
                ) == Some(error)
                &&& *final(ctx) == *old(ctx)
            },
        },
        old(ctx).charity.paused ==> made matches Err(CustomError::DonationsPaused),
        donation_gate(
            old(ctx)@.charity,
            is_vault_of(old(ctx)@.vault, old(ctx)@.charity_key, program_id@),
        ) is None
            && old(ctx)@.charity.total(TokenType::Usdc) + amount > u64::MAX ==> made matches Err(
            CustomError::Overflow,
        ),
        made is Ok ==> final(ctx).charity.donation_count == old(ctx).charity.donation_count + 1,
        old(ctx)@.charity.wf() ==> final(ctx)@.charity.wf(),
{
    let derived = find_vault_address(&ctx.charity_key, program_id);
    donate_with_vault(
        &mut ctx.charity,
        &ctx.charity_key,
        &ctx.donor,
        &ctx.vault,
        &derived,
        TokenType::Usdc,
        amount,
        current_time,
    )
}

} // verus!
