use vstd::prelude::*;
use crate::address::Address;
use crate::common::constants::{byte_len, utf8_len, CHARITY_DESCRIPTION_MAX_LEN};
use crate::common::errors::CustomError;
use crate::common::events::{UpdateCharityEvent, UpdateCharityEventView};
use crate::state::charity::{Charity, CharityView};

verus! {

/// The accounts of an update of the description, as the handler reads them.
#[derive(Clone, Debug, PartialEq, Eq)]
pub struct UpdateCharity {
    /// The signer.
    pub authority: Address,
    /// The address of the registry entry.
    pub charity_key: Address,
    /// The registry entry.
    pub charity: Charity,
}

pub struct UpdateCharityView {
    pub authority: Seq<u8>,
    pub charity_key: Seq<u8>,
    pub charity: CharityView,
}

impl View for UpdateCharity {
    type V = UpdateCharityView;

    open spec fn view(&self) -> UpdateCharityView {
        UpdateCharityView {
            authority: self.authority@,
            charity_key: self.charity_key@,
            charity: self.charity@,
        }
    }
}

/// Why an update is refused, if it is: the first of these that applies.
pub open spec fn update_charity_refusal(ctx: UpdateCharityView, description: Seq<char>) -> Option<CustomError> {
    if ctx.authority != ctx.charity.authority {
        Some(CustomError::Unauthorized)
    } else if description == ctx.charity.description {
        Some(CustomError::InvalidDescription)
    } else if utf8_len(description) > CHARITY_DESCRIPTION_MAX_LEN {
        Some(CustomError::InvalidDescriptionLength)
    } else {
        None
    }
}

/// Replaces the description of a charity and notes the time. Only the
/// authority may do so; the description it already has is refused, and so is
/// one that is too long. A refused update changes nothing.
pub fn update_charity(ctx: &mut UpdateCharity, description: String, current_time: i64) -> (updated: Result<
    UpdateCharityEvent,
    CustomError,
>)
    ensures
        match updated {
            Ok(event) => {
                &&& update_charity_refusal(old(ctx)@, description@) is None
                &&& final(ctx)@ == (UpdateCharityView {
                    charity: old(ctx)@.charity.described(description@, current_time as int),
                    ..old(ctx)@
                })
                &&& event@ == (UpdateCharityEventView {
                    charity_key: old(ctx)@.charity_key,
                    charity_name: old(ctx)@.charity.name,
                    description: description@,
                    updated_at: current_time as int,
                })
            },
            Err(error) => {
                &&& update_charity_refusal(old(ctx)@, description@) == Some(error)
                &&& *final(ctx) == *old(ctx)
            },
        },
        old(ctx)@.authority == old(ctx)@.charity.authority && description@ == old(ctx)@.charity.description
            ==> updated matches Err(CustomError::InvalidDescription),
        old(ctx)@.charity.wf() ==> final(ctx)@.charity.wf(),
{
    match ctx.charity.check_authority(&ctx.authority) {
        Ok(()) => {},
        Err(error) => {
            return Err(error);
        },
    }
    if description == ctx.charity.description {
        return Err(CustomError::InvalidDescription);
    }
    if byte_len(&description) > CHARITY_DESCRIPTION_MAX_LEN {
        return Err(CustomError::InvalidDescriptionLength);
    }
    let event = UpdateCharityEvent {
        charity_key: ctx.charity_key,
        charity_name: ctx.charity.name.clone(),
        description: description.clone(),
        updated_at: current_time,
    };
    ctx.charity.description = description;
    ctx.charity.updated_at = current_time;
    Ok(event)
}

} // verus!
