use vstd::prelude::*;
use crate::address::{address_and_bump, Address};
use crate::common::errors::CustomError;
use crate::common::events::{MakeDonationEvent, MakeDonationEventView};
use crate::seeds::{is_derived, names};
use crate::state::charity::{Charity, CharityView};
use crate::state::donation::{Donation, DonationView, TokenType};

verus! {

/// Why a donation is turned away before any funds move, if it is: a paused
/// charity takes none, and the vault must be the charity's own.
pub open spec fn donation_gate(charity: CharityView, vault_is_own: bool) -> Option<CustomError> {
    if charity.paused {
        Some(CustomError::DonationsPaused)
    } else if !vault_is_own {
        Some(CustomError::InvalidVaultAccount)
    } else {
        None
    }
}

/// Why a donation of `amount` is refused, if it is: the first of these that applies.
pub open spec fn donation_refusal(charity: CharityView, vault_is_own: bool, kind: TokenType, amount: nat) -> Option<
    CustomError,
> {
    if donation_gate(charity, vault_is_own) is Some {
        donation_gate(charity, vault_is_own)
    } else if !charity.can_count(kind, amount) {
        Some(CustomError::Overflow)
    } else {
        None
    }
}

/// The receipt of a donation of `amount` that `donor` made to `charity`.
pub open spec fn receipt_of(
    charity: CharityView,
    charity_key: Seq<u8>,
    donor: Seq<u8>,
    kind: TokenType,
    amount: nat,
    at: int,
) -> DonationView {
    DonationView {
        donor_key: donor,
        charity_key,
        charity_name: charity.name,
        amount,
        token_type: kind,
        created_at: at,
    }
}

/// The event that announces a donation of `amount` that `donor` made to `charity`.
pub open spec fn donation_event_of(
    charity: CharityView,
    charity_key: Seq<u8>,
    donor: Seq<u8>,
    amount: nat,
    at: int,
) -> MakeDonationEventView {
    MakeDonationEventView {
        donor_key: donor,
        charity_key,
        charity_name: charity.name,
        amount,
        created_at: at,
    }
}

/// Decides whether the charity may be given to at all: it must not be
/// paused, and `vault` must be the address in `derived`, which is what the
/// derivation of the charity's vault has yielded.
pub fn check_donation(charity: &Charity, vault: &Address, derived: &Option<(Address, u8)>) -> (checked: Result<
    (),
    CustomError,
>)
    ensures
        match checked {
            Ok(()) => donation_gate(charity@, names(address_and_bump(*derived), vault@)) is None,
            Err(error) => donation_gate(charity@, names(address_and_bump(*derived), vault@)) == Some(error),
        },
{
    if charity.paused {
        return Err(CustomError::DonationsPaused);
    }
    if !is_derived(derived, vault) {
        return Err(CustomError::InvalidVaultAccount);
    }
    Ok(())
}

/// Counts a donation that has reached the vault and writes its receipt and
/// its event. Refused with `Overflow`, and nothing changed, where the counter
/// or the total would overflow.
pub fn receive_donation(
    charity: &mut Charity,
    charity_key: &Address,
    donor: &Address,
    kind: TokenType,
    amount: u64,
    current_time: i64,
) -> (received: Result<(Donation, MakeDonationEvent), CustomError>)
    ensures
        match received {
            Ok((receipt, event)) => {
                &&& old(charity)@.can_count(kind, amount as nat)
                &&& final(charity)@ == old(charity)@.donated(kind, amount as nat)
                &&& receipt@ == receipt_of(
                    old(charity)@,
                    charity_key@,
                    donor@,
                    kind,
                    amount as nat,
                    current_time as int,
                )
                &&& event@ == donation_event_of(
                    old(charity)@,
                    charity_key@,
                    donor@,
                    amount as nat,
                    current_time as int,
                )
            },
            Err(error) => {
                &&& error == CustomError::Overflow
                &&& !old(charity)@.can_count(kind, amount as nat)
                &&& *final(charity) == *old(charity)
            },
        },
        old(charity)@.wf() ==> final(charity)@.wf(),
{
    match charity.record_donation(kind, amount) {
        Ok(()) => {},
        Err(error) => {
            return Err(error);
        },
    }
    let receipt = Donation {
        donor_key: *donor,
        charity_key: *charity_key,
        charity_name: charity.name.clone(),
        amount,
        token_type: kind,
        created_at: current_time,
    };
    let event = MakeDonationEvent {
        donor_key: *donor,
        charity_key: *charity_key,
        charity_name: charity.name.clone(),
        amount,
        created_at: current_time,
    };
    Ok((receipt, event))
}

/// A donation of `amount` in the currency `kind`, given what the derivation
/// of the charity's vault has yielded: the charity must not be paused, the
/// vault must be the derived one, and counter and total must not overflow.
/// The donation is then counted and its receipt and event written. A refused
/// donation changes nothing.
pub fn donate_with_vault(
    charity: &mut Charity,
    charity_key: &Address,
    donor: &Address,
    vault: &Address,
    derived: &Option<(Address, u8)>,
    kind: TokenType,
    amount: u64,
    current_time: i64,
) -> (made: Result<(Donation, MakeDonationEvent), CustomError>)
    ensures
        match made {
            Ok((receipt, event)) => {
                &&& donation_refusal(
                    old(charity)@,
                    names(address_and_bump(*derived), vault@),
                    kind,
                    amount as nat,
                ) is None
                &&& final(charity)@ == old(charity)@.donated(kind, amount as nat)
                &&& receipt@ == receipt_of(
                    old(charity)@,
                    charity_key@,
                    donor@,
                    kind,
                    amount as nat,
                    current_time as int,
                )
                &&& event@ == donation_event_of(
                    old(charity)@,
                    charity_key@,
                    donor@,
                    amount as nat,
                    current_time as int,
                )
            },
            Err(error) => {
                &&& donation_refusal(
                    old(charity)@,
                    names(address_and_bump(*derived), vault@),
                    kind,
                    amount as nat,
                ) == Some(error)
                &&& *final(charity) == *old(charity)
            },
        },
        old(charity).paused ==> made matches Err(CustomError::DonationsPaused),
        donation_gate(old(charity)@, names(address_and_bump(*derived), vault@)) is None && old(
            charity,
        )@.total(kind) + amount > u64::MAX ==> made matches Err(CustomError::Overflow),
        made is Ok ==> final(charity).donation_count == old(charity).donation_count + 1,
        old(charity)@.wf() ==> final(charity)@.wf(),
{
    match check_donation(charity, vault, derived) {
        Ok(()) => {},
        Err(error) => {
            return Err(error);
        },
    }
    receive_donation(charity, charity_key, donor, kind, amount, current_time)
}

/// A charity after a run of donations, each with its currency and amount.
pub open spec fn after_donations(charity: CharityView, gifts: Seq<(TokenType, nat)>) -> CharityView
    decreases gifts.len(),
{
    if gifts.len() == 0 {
        charity
    } else {
        after_donations(charity, gifts.drop_last()).donated(gifts.last().0, gifts.last().1)
    }
}

/// The number by which the receipt of the donation at `index` of a run is
/// keyed: what the charity had counted when that donation came.
pub open spec fn receipt_number(charity: CharityView, gifts: Seq<(TokenType, nat)>, index: int) -> nat
    recommends
        0 <= index < gifts.len(),
{
    after_donations(charity, gifts.take(index)).donation_count
}

/// After a run of donations the counter has advanced by their number.
pub proof fn lemma_donations_are_counted(charity: CharityView, gifts: Seq<(TokenType, nat)>)
    ensures
        after_donations(charity, gifts).donation_count == charity.donation_count + gifts.len(),
    decreases gifts.len(),
{
    if gifts.len() > 0 {
        lemma_donations_are_counted(charity, gifts.drop_last());
    }
}

/// The receipts of a run of donations are keyed by the numbers from the
/// charity's count before the run upwards: each number is used once, and a
/// later donation has the greater number.
pub proof fn lemma_receipt_numbers_rise(charity: CharityView, gifts: Seq<(TokenType, nat)>)
    ensures
        forall|i: int|
            0 <= i < gifts.len() ==> #[trigger] receipt_number(charity, gifts, i) == charity.donation_count
                + i,
        forall|i: int, j: int|
            0 <= i < j < gifts.len() ==> #[trigger] receipt_number(charity, gifts, i)
                < #[trigger] receipt_number(charity, gifts, j),
{
    assert forall|i: int| 0 <= i < gifts.len() implies #[trigger] receipt_number(charity, gifts, i)
        == charity.donation_count + i by {
        lemma_donations_are_counted(charity, gifts.take(i));
    }
}

} // verus!
