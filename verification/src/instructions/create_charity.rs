use vstd::prelude::*;
use crate::address::Address;
use crate::common::constants::{byte_len, utf8_len, CHARITY_DESCRIPTION_MAX_LEN, CHARITY_NAME_MAX_LEN};
use crate::common::errors::CustomError;
use crate::common::events::{CreateCharityEvent, CreateCharityEventView};
use crate::state::charity::{Charity, CharityView};

verus! {

/// The accounts of a creation, as the handler reads them.
#[derive(Clone, Copy, Debug, PartialEq, Eq)]
pub struct CreateCharity {
    /// The signer, who becomes the charity's authority.
    pub authority: Address,
    /// The address of the new registry entry.
    pub charity_key: Address,
    /// The program that owns the new vault.
    pub vault_owner: Address,
    /// The bump of the vault's address.
    pub vault_bump: u8,
    /// The mint of the stablecoin that the charity takes.
    pub usdc_mint: Address,
}

/// Why a creation is refused, if it is: the first of these that applies.
pub open spec fn create_charity_refusal(
    vault_owner: Seq<u8>,
    program_id: Seq<u8>,
    name: Seq<char>,
    description: Seq<char>,
) -> Option<CustomError> {
    if utf8_len(name) > CHARITY_NAME_MAX_LEN {
        Some(CustomError::InvalidNameLength)
    } else if utf8_len(description) > CHARITY_DESCRIPTION_MAX_LEN {
        Some(CustomError::InvalidDescriptionLength)
    } else if vault_owner != program_id {
        Some(CustomError::Unauthorized)
    } else {
        None
    }
}

/// Creates the registry entry of a charity called `name`, and the event that
/// announces it. Name and description are stored as given, never cut; one
/// that is too long is refused. The vault must belong to this program.
pub fn create_charity(
    ctx: &CreateCharity,
    program_id: &Address,
    name: String,
    description: String,
    current_time: i64,
) -> (created: Result<(Charity, CreateCharityEvent), CustomError>)
    ensures
        match created {
            Ok((charity, event)) => {
                &&& create_charity_refusal(ctx.vault_owner@, program_id@, name@, description@) is None
                &&& charity@ == CharityView::created(
                    ctx.authority@,
                    name@,
                    description@,
                    current_time as int,
                    ctx.vault_bump,
                    ctx.usdc_mint@,
                )
                &&& charity.name@ == name@ && charity.description@ == description@
                &&& charity.sol_donations_in_lamports == 0 && charity.usdc_donations == 0
                &&& charity.donation_count == 0 && !charity.paused
                &&& charity@.wf()
                &&& event@ == (CreateCharityEventView {
                    charity_key: ctx.charity_key@,
                    charity_name: name@,
                    description: description@,
                    created_at: current_time as int,
                })
            },
            Err(error) => create_charity_refusal(ctx.vault_owner@, program_id@, name@, description@)
                == Some(error),
        },
        utf8_len(name@) > CHARITY_NAME_MAX_LEN ==> created matches Err(CustomError::InvalidNameLength),
        utf8_len(name@) <= CHARITY_NAME_MAX_LEN && utf8_len(description@) > CHARITY_DESCRIPTION_MAX_LEN
            ==> created matches Err(CustomError::InvalidDescriptionLength),
{
    if byte_len(&name) > CHARITY_NAME_MAX_LEN {
        return Err(CustomError::InvalidNameLength);
    }
    if byte_len(&description) > CHARITY_DESCRIPTION_MAX_LEN {
        return Err(CustomError::InvalidDescriptionLength);
    }
    if ctx.vault_owner != *program_id {
        return Err(CustomError::Unauthorized);
    }
    let event = CreateCharityEvent {
        charity_key: ctx.charity_key,
        charity_name: name.clone(),
        description: description.clone(),
        created_at: current_time,
    };
    let charity = Charity {
        authority: ctx.authority,
        name,
        description,
        sol_donations_in_lamports: 0,
        usdc_donations: 0,
        donation_count: 0,
        paused: false,
        created_at: current_time,
        updated_at: current_time,
        deleted_at: None,
        withdrawn_at: None,
        vault_bump: ctx.vault_bump,
        usdc_mint: ctx.usdc_mint,
    };
    Ok((charity, event))
}

} // verus!
