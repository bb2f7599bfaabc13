use vstd::prelude::*;
use crate::address::{address_and_bump, Address};
use crate::common::errors::CustomError;
use crate::seeds::{is_derived, names};
use crate::state::charity::{Charity, CharityView};

verus! {

/// Why a withdrawal of `amount` from a vault that holds `vault_balance` is
/// turned away before any funds move, if it is: only the authority may
/// withdraw, the vault must be the charity's own, and the amount must be
/// more than nothing and no more than the vault holds.
pub open spec fn withdrawal_gate(
    caller: Seq<u8>,
    charity: CharityView,
    vault_is_own: bool,
    vault_balance: nat,
    amount: nat,
) -> Option<CustomError> {
    if caller != charity.authority {
        Some(CustomError::Unauthorized)
    } else if !vault_is_own {
        Some(CustomError::InvalidVaultAccount)
    } else if amount == 0 || vault_balance < amount {
        Some(CustomError::InsufficientFunds)
    } else {
        None
    }
}

/// Decides whether `caller` may take `amount` out of the vault at all.
/// `derived` is what the derivation of the charity's vault has yielded.
pub fn check_withdrawal(
    caller: &Address,
    charity: &Charity,
    vault: &Address,
    derived: &Option<(Address, u8)>,
    vault_balance: u64,
    amount: u64,
) -> (checked: Result<(), CustomError>)
    ensures
        match checked {
            Ok(()) => withdrawal_gate(
                caller@,
                charity@,
                names(address_and_bump(*derived), vault@),
                vault_balance as nat,
                amount as nat,
            ) is None,
            Err(error) => withdrawal_gate(
                caller@,
                charity@,
                names(address_and_bump(*derived), vault@),
                vault_balance as nat,
                amount as nat,
            ) == Some(error),
        },
{
    match charity.check_authority(caller) {
        Ok(()) => {},
        Err(error) => {
            return Err(error);
        },
    }
    if !is_derived(derived, vault) {
        return Err(CustomError::InvalidVaultAccount);
    }
    if amount == 0 || vault_balance < amount {
        return Err(CustomError::InsufficientFunds);
    }
    Ok(())
}

} // verus!
