use vstd::prelude::*;
use crate::address::Address;
use crate::common::constants::{utf8_len, CHARITY_DESCRIPTION_MAX_LEN, CHARITY_NAME_MAX_LEN};
use crate::common::errors::CustomError;
use crate::state::donation::TokenType;

verus! {

/// The registry entry of one charity: who controls it, what it is called,
/// and the running totals of what it holds.
#[derive(Clone, Debug, PartialEq, Eq)]
pub struct Charity {
    /// The wallet that controls the charity. Set at creation.
    pub authority: Address,
    /// The name. Set at creation; part of the entry's address.
    pub name: String,
    /// The description. The authority may replace it.
    pub description: String,
    /// Lamports donated and not yet withdrawn.
    pub sol_donations_in_lamports: u64,
    /// Stablecoin units donated and not yet withdrawn.
    pub usdc_donations: u64,
    /// Donations received so far. The next receipt is keyed by this number.
    pub donation_count: u64,
    /// While set, donations are refused.
    pub paused: bool,
    /// When the entry was created.
    pub created_at: i64,
    /// When the description or the pause flag last changed.
    pub updated_at: i64,
    /// When the entry was deleted, if it was.
    pub deleted_at: Option<i64>,
    /// When funds were last withdrawn, if ever.
    pub withdrawn_at: Option<i64>,
    /// The bump of the vault's address.
    pub vault_bump: u8,
    /// The mint of the stablecoin.
    pub usdc_mint: Address,
}

/// A registry entry as a mathematical value: totals and times are unbounded
/// integers, texts are sequences of characters, addresses sequences of bytes.
pub struct CharityView {
    pub authority: Seq<u8>,
    pub name: Seq<char>,
    pub description: Seq<char>,
    pub sol_donations_in_lamports: nat,
    pub usdc_donations: nat,
    pub donation_count: nat,
    pub paused: bool,
    pub created_at: int,
    pub updated_at: int,
    pub deleted_at: Option<int>,
    pub withdrawn_at: Option<int>,
    pub vault_bump: u8,
    pub usdc_mint: Seq<u8>,
}

/// An optional time as an optional integer.
pub open spec fn time_view(time: Option<i64>) -> Option<int> {
    match time {
        Some(at) => Some(at as int),
        None => None,
    }
}

impl View for Charity {
    type V = CharityView;

    open spec fn view(&self) -> CharityView {
        CharityView {
            authority: self.authority@,
            name: self.name@,
            description: self.description@,
            sol_donations_in_lamports: self.sol_donations_in_lamports as nat,
            usdc_donations: self.usdc_donations as nat,
            donation_count: self.donation_count as nat,
            paused: self.paused,
            created_at: self.created_at as int,
            updated_at: self.updated_at as int,
            deleted_at: time_view(self.deleted_at),
            withdrawn_at: time_view(self.withdrawn_at),
            vault_bump: self.vault_bump,
            usdc_mint: self.usdc_mint@,
        }
    }
}

impl CharityView {
    /// The entry that creation writes: nothing donated, nothing counted,
    /// donations open, both times the time of creation.
    pub open spec fn created(
        authority: Seq<u8>,
        name: Seq<char>,
        description: Seq<char>,
        at: int,
        vault_bump: u8,
        usdc_mint: Seq<u8>,
    ) -> CharityView {
        CharityView {
            authority,
            name,
            description,
            sol_donations_in_lamports: 0,
            usdc_donations: 0,
            donation_count: 0,
            paused: false,
            created_at: at,
            updated_at: at,
            deleted_at: None,
            withdrawn_at: None,
            vault_bump,
            usdc_mint,
        }
    }

    /// Name and description are within their bounds.
    pub open spec fn wf(self) -> bool {
        &&& utf8_len(self.name) <= CHARITY_NAME_MAX_LEN
        &&& utf8_len(self.description) <= CHARITY_DESCRIPTION_MAX_LEN
    }

    /// The running total in one currency.
    pub open spec fn total(self, kind: TokenType) -> nat {
        match kind {
            TokenType::Sol => self.sol_donations_in_lamports,
            TokenType::Usdc => self.usdc_donations,
        }
    }

    /// The entry with the running total of one currency replaced.
    pub open spec fn with_total(self, kind: TokenType, total: nat) -> CharityView {
        match kind {
            TokenType::Sol => CharityView { sol_donations_in_lamports: total, ..self },
            TokenType::Usdc => CharityView { usdc_donations: total, ..self },
        }
    }

    /// Counter and total both stay within 64 unsigned bits when `amount` is donated.
    pub open spec fn can_count(self, kind: TokenType, amount: nat) -> bool {
        &&& self.donation_count + 1 <= u64::MAX
        &&& self.total(kind) + amount <= u64::MAX
    }

    /// The entry after one donation: one more counted, the total raised.
    pub open spec fn donated(self, kind: TokenType, amount: nat) -> CharityView {
        CharityView {
            donation_count: self.donation_count + 1,
            ..self.with_total(kind, self.total(kind) + amount)
        }
    }

    /// The entry after a withdrawal of `amount`, which the total must cover.
    pub open spec fn withdrawn(self, kind: TokenType, amount: nat, at: int) -> CharityView
        recommends
            amount <= self.total(kind),
    {
        CharityView {
            withdrawn_at: Some(at),
            ..self.with_total(kind, (self.total(kind) - amount) as nat)
        }
    }

    /// The entry with a new description.
    pub open spec fn described(self, description: Seq<char>, at: int) -> CharityView {
        CharityView { description, updated_at: at, ..self }
    }

    /// The entry with donations paused or resumed.
    pub open spec fn gated(self, paused: bool, at: int) -> CharityView {
        CharityView { paused, updated_at: at, ..self }
    }

    /// Whether this entry may follow `before` in the life of one charity:
    /// authority, name, time of creation, vault and mint are the same, and
    /// the counter has not gone back.
    pub open spec fn continues(self, before: CharityView) -> bool {
        &&& self.authority == before.authority
        &&& self.name == before.name
        &&& self.created_at == before.created_at
        &&& self.vault_bump == before.vault_bump
        &&& self.usdc_mint == before.usdc_mint
        &&& self.donation_count >= before.donation_count
    }
}

/// No change that an instruction makes to an entry touches its authority,
/// its name, its time of creation, its vault or its mint, and none takes the
/// counter back.
pub proof fn lemma_changes_continue(
    charity: CharityView,
    kind: TokenType,
    amount: nat,
    description: Seq<char>,
    paused: bool,
    at: int,
)
    ensures
        charity.donated(kind, amount).continues(charity),
        charity.withdrawn(kind, amount, at).continues(charity),
        charity.described(description, at).continues(charity),
        charity.gated(paused, at).continues(charity),
{
}

/// A pause can be taken back: after a pause and a resumption the entry is
/// open for donations, and but for the time of the change it is as it was
/// before the pause.
pub proof fn lemma_pause_is_reversible(charity: CharityView, paused_at: int, resumed_at: int)
    requires
        !charity.paused,
    ensures
        charity.gated(true, paused_at).gated(false, resumed_at) == (CharityView {
            updated_at: resumed_at,
            ..charity
        }),
{
}

impl Charity {
    /// Accepts `caller` only if it is the charity's authority; anyone else is
    /// refused with `Unauthorized`.
    pub fn check_authority(&self, caller: &Address) -> (checked: Result<(), CustomError>)
        ensures
            checked is Ok <==> caller@ == self@.authority,
            checked is Err ==> checked == Err::<(), CustomError>(CustomError::Unauthorized),
    {
        if self.authority == *caller {
            Ok(())
        } else {
            Err(CustomError::Unauthorized)
        }
    }

    /// Counts one donation of `amount`. Refused with `Overflow`, and nothing
    /// changed, where the counter or the total would overflow.
    pub fn record_donation(&mut self, kind: TokenType, amount: u64) -> (done: Result<(), CustomError>)
        ensures
            match done {
                Ok(()) => {
                    &&& old(self)@.can_count(kind, amount as nat)
                    &&& final(self)@ == old(self)@.donated(kind, amount as nat)
                },
                Err(error) => {
                    &&& error == CustomError::Overflow
                    &&& !old(self)@.can_count(kind, amount as nat)
                    &&& *final(self) == *old(self)
                },
            },
            old(self)@.wf() ==> final(self)@.wf(),
    {
        let count = match self.donation_count.checked_add(1) {
            Some(count) => count,
            None => {
                return Err(CustomError::Overflow);
            },
        };
        match kind {
            TokenType::Sol => {
                match self.sol_donations_in_lamports.checked_add(amount) {
                    Some(total) => {
                        self.sol_donations_in_lamports = total;
                    },
                    None => {
                        return Err(CustomError::Overflow);
                    },
                }
            },
            TokenType::Usdc => {
                match self.usdc_donations.checked_add(amount) {
                    Some(total) => {
                        self.usdc_donations = total;
                    },
                    None => {
                        return Err(CustomError::Overflow);
                    },
                }
            },
        }
        self.donation_count = count;
        Ok(())
    }

    /// Takes `amount` off the running total and notes the time. Refused with
    /// `Overflow`, and nothing changed, where the total is smaller.
    pub fn record_withdrawal(&mut self, kind: TokenType, amount: u64, at: i64) -> (done: Result<(), CustomError>)
        ensures
            match done {
                Ok(()) => {
                    &&& amount <= old(self)@.total(kind)
                    &&& final(self)@ == old(self)@.withdrawn(kind, amount as nat, at as int)
                },
                Err(error) => {
                    &&& error == CustomError::Overflow
                    &&& amount > old(self)@.total(kind)
                    &&& *final(self) == *old(self)
                },
            },
            old(self)@.wf() ==> final(self)@.wf(),
    {
        match kind {
            TokenType::Sol => {
                match self.sol_donations_in_lamports.checked_sub(amount) {
                    Some(total) => {
                        self.sol_donations_in_lamports = total;
                    },
                    None => {
                        return Err(CustomError::Overflow);
                    },
                }
            },
            TokenType::Usdc => {
                match self.usdc_donations.checked_sub(amount) {
                    Some(total) => {
                        self.usdc_donations = total;
                    },
                    None => {
                        return Err(CustomError::Overflow);
                    },
                }
            },
        }
        self.withdrawn_at = Some(at);
        Ok(())
    }
}

} // verus!
