use vstd::prelude::*;
use crate::address::{address_and_bump, Address};
use crate::common::errors::CustomError;
use crate::common::events::{DeleteCharityEvent, DeleteCharityEventView};
use crate::seeds::{find_vault_address, is_derived, is_vault_of, names};
use crate::state::charity::{Charity, CharityView};

verus! {

/// The accounts of a deletion, as the handler reads them. The authority,
/// the vault and the recipient are three accounts, each with its own balance.
#[derive(Clone, Debug, PartialEq, Eq)]
pub struct DeleteCharity {
    /// The signer.
    pub authority: Address,
    /// What the authority holds.
    pub authority_lamports: u64,
    /// The address of the registry entry.
    pub charity_key: Address,
    /// The registry entry.
    pub charity: Charity,
    /// The account named as the charity's vault.
    pub vault: Address,
    /// What the vault holds.
    pub vault_lamports: u64,
    /// What the recipient holds.
    pub recipient_lamports: u64,
}

pub struct DeleteCharityView {
    pub authority: Seq<u8>,
    pub authority_lamports: nat,
    pub charity_key: Seq<u8>,
    pub charity: CharityView,
    pub vault: Seq<u8>,
    pub vault_lamports: nat,
    pub recipient_lamports: nat,
}

impl View for DeleteCharity {
    type V = DeleteCharityView;

    open spec fn view(&self) -> DeleteCharityView {
        DeleteCharityView {
            authority: self.authority@,
            authority_lamports: self.authority_lamports as nat,
            charity_key: self.charity_key@,
            charity: self.charity@,
            vault: self.vault@,
            vault_lamports: self.vault_lamports as nat,
            recipient_lamports: self.recipient_lamports as nat,
        }
    }
}

impl DeleteCharityView {
    /// Whether the vault's funds go to the recipient: there are funds, and
    /// the recipient holds some already.
    pub open spec fn pays_recipient(self) -> bool {
        self.vault_lamports > 0 && self.recipient_lamports > 0
    }

    /// Whether the vault's funds fall back to the authority: there are
    /// funds, and the recipient holds none.
    pub open spec fn pays_authority(self) -> bool {
        self.vault_lamports > 0 && self.recipient_lamports == 0
    }

    /// Why a deletion is refused, if it is: the first of these that applies.
    pub open spec fn refusal(self, vault_is_own: bool) -> Option<CustomError> {
        if self.authority != self.charity.authority {
            Some(CustomError::Unauthorized)
        } else if !vault_is_own {
            Some(CustomError::InvalidVaultAccount)
        } else if self.pays_recipient() && self.recipient_lamports + self.vault_lamports > u64::MAX {
            Some(CustomError::Overflow)
        } else if self.pays_authority() && self.authority_lamports + self.vault_lamports > u64::MAX {
            Some(CustomError::Overflow)
        } else {
            None
        }
    }

    /// The accounts after the vault is drained.
    pub open spec fn drained(self) -> DeleteCharityView {
        if self.pays_recipient() {
            DeleteCharityView {
                vault_lamports: 0,
                recipient_lamports: self.recipient_lamports + self.vault_lamports,
                ..self
            }
        } else if self.pays_authority() {
            DeleteCharityView {
                vault_lamports: 0,
                authority_lamports: self.authority_lamports + self.vault_lamports,
                ..self
            }
        } else {
            self
        }
    }

    /// The event that announces the deletion at the time `at`.
    pub open spec fn event(self, at: int) -> DeleteCharityEventView {
        DeleteCharityEventView {
            charity_key: self.charity_key,
            charity_name: self.charity.name,
            deleted_at: at,
            withdrawn_to_recipient: self.pays_recipient(),
        }
    }
}

/// The deletion of a charity, given what the derivation of the charity's
/// vault has yielded. Drains the vault and writes the event that says where
/// the funds went: to the recipient if the recipient holds funds already,
/// else back to the authority. An empty vault moves nothing. Among the three
/// accounts nothing is made or lost. The registry entry itself is left as it
/// is. A refused deletion changes nothing.
pub fn delete_charity_with_vault(
    ctx: &mut DeleteCharity,
    derived: &Option<(Address, u8)>,
    current_time: i64,
) -> (deleted: Result<DeleteCharityEvent, CustomError>)
    ensures
        match deleted {
            Ok(event) => {
                &&& old(ctx)@.refusal(names(address_and_bump(*derived), old(ctx)@.vault)) is None
                &&& final(ctx)@ == old(ctx)@.drained()
                &&& event@ == old(ctx)@.event(current_time as int)
                &&& final(ctx).vault_lamports == 0
                &&& final(ctx).authority_lamports + final(ctx).vault_lamports + final(ctx).recipient_lamports
                    == old(ctx).authority_lamports + old(ctx).vault_lamports + old(ctx).recipient_lamports
            },
            Err(error) => {
                &&& old(ctx)@.refusal(names(address_and_bump(*derived), old(ctx)@.vault)) == Some(error)
                &&& *final(ctx) == *old(ctx)
            },
        },
{
    match ctx.charity.check_authority(&ctx.authority) {
        Ok(()) => {},
        Err(error) => {
            return Err(error);
        },
    }
    if !is_derived(derived, &ctx.vault) {
        return Err(CustomError::InvalidVaultAccount);
    }
    let vault_balance = ctx.vault_lamports;
    let mut withdrawn_to_recipient = false;
    if vault_balance > 0 {
        if ctx.recipient_lamports > 0 {
            match ctx.recipient_lamports.checked_add(vault_balance) {
                Some(total) => {
                    ctx.recipient_lamports = total;
                },
                None => {
                    return Err(CustomError::Overflow);
                },
            }
            withdrawn_to_recipient = true;
        } else {
            match ctx.authority_lamports.checked_add(vault_balance) {
                Some(total) => {
                    ctx.authority_lamports = total;
                },
                None => {
                    return Err(CustomError::Overflow);
                },
            }
        }
        ctx.vault_lamports = 0;
    }
    Ok(
        DeleteCharityEvent {
            charity_key: ctx.charity_key,
            charity_name: ctx.charity.name.clone(),
            deleted_at: current_time,
            withdrawn_to_recipient,
        },
    )
}

/// Deletes a charity: derives the vault's address from the charity's, and
/// goes on as `delete_charity_with_vault` does. Only the authority may
/// delete, and only with the charity's own vault. A refused deletion changes
/// nothing.
pub fn delete_charity(ctx: &mut DeleteCharity, program_id: &Address, current_time: i64) -> (deleted: Result<
    DeleteCharityEvent,
    CustomError,
>)
    ensures
        match deleted {
            Ok(event) => {
                &&& old(ctx)@.refusal(is_vault_of(old(ctx)@.vault, old(ctx)@.charity_key, program_id@)) is None
                &&& final(ctx)@ == old(ctx)@.drained()
                &&& event@ == old(ctx)@.event(current_time as int)
                &&& final(ctx).vault_lamports == 0
                &&& final(ctx).authority_lamports + final(ctx).vault_lamports + final(ctx).recipient_lamports
                    == old(ctx).authority_lamports + old(ctx).vault_lamports + old(ctx).recipient_lamports
            },
            Err(error) => {
                &&& old(ctx)@.refusal(is_vault_of(old(ctx)@.vault, old(ctx)@.charity_key, program_id@))
                    == Some(error)
                &&& *final(ctx) == *old(ctx)
            },
        },
{
    let derived = find_vault_address(&ctx.charity_key, program_id);
    delete_charity_with_vault(ctx, &derived, current_time)
}

} // verus!
