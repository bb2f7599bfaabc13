use vstd::prelude::*;
use crate::address::Address;
use crate::common::errors::CustomError;
use crate::common::events::{PauseDonationsEvent, PauseDonationsEventView};
use crate::state::charity::{Charity, CharityView};

verus! {

/// The accounts of a pause or a resumption, as the handler reads them.
#[derive(Clone, Debug, PartialEq, Eq)]
pub struct PauseDonations {
    /// The signer.
    pub authority: Address,
    /// The address of the registry entry.
    pub charity_key: Address,
    /// The registry entry.
    pub charity: Charity,
}

pub struct PauseDonationsView {
    pub authority: Seq<u8>,
    pub charity_key: Seq<u8>,
    pub charity: CharityView,
}

impl View for PauseDonations {
    type V = PauseDonationsView;

    open spec fn view(&self) -> PauseDonationsView {
        PauseDonationsView {
            authority: self.authority@,
            charity_key: self.charity_key@,
            charity: self.charity@,
        }
    }
}

/// Pauses or resumes the donations to a charity and notes the time. No funds
/// move. Anyone but the authority is refused with `Unauthorized`, and then
/// nothing changes.
pub fn pause_donations(ctx: &mut PauseDonations, paused: bool, current_time: i64) -> (set: Result<
    PauseDonationsEvent,
    CustomError,
>)
    ensures
        match set {
            Ok(event) => {
                &&& old(ctx)@.authority == old(ctx)@.charity.authority
                &&& final(ctx)@ == (PauseDonationsView {
                    charity: old(ctx)@.charity.gated(paused, current_time as int),
                    ..old(ctx)@
                })
                &&& event@ == (PauseDonationsEventView {
                    charity_key: old(ctx)@.charity_key,
                    charity_name: old(ctx)@.charity.name,
                    paused,
                    updated_at: current_time as int,
                })
            },
            Err(error) => {
                &&& error == CustomError::Unauthorized
                &&& old(ctx)@.authority != old(ctx)@.charity.authority
                &&& *final(ctx) == *old(ctx)
            },
        },
        old(ctx)@.charity.wf() ==> final(ctx)@.charity.wf(),
{
    match ctx.charity.check_authority(&ctx.authority) {
        Ok(()) => {},
        Err(error) => {
            return Err(error);
        },
    }
    ctx.charity.paused = paused;
    ctx.charity.updated_at = current_time;
    Ok(
        PauseDonationsEvent {
            charity_key: ctx.charity_key,
            charity_name: ctx.charity.name.clone(),
            paused,
            updated_at: current_time,
        },
    )
}

} // verus!
