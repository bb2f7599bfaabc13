use vstd::prelude::*;
use crate::address::Address;

verus! {

/// Announces that a charity was created.
#[derive(Clone, Debug, PartialEq, Eq)]
pub struct CreateCharityEvent {
    pub charity_key: Address,
    pub charity_name: String,
    pub description: String,
    pub created_at: i64,
}

pub struct CreateCharityEventView {
    pub charity_key: Seq<u8>,
    pub charity_name: Seq<char>,
    pub description: Seq<char>,
    pub created_at: int,
}

impl View for CreateCharityEvent {
    type V = CreateCharityEventView;

    open spec fn view(&self) -> CreateCharityEventView {
        CreateCharityEventView {
            charity_key: self.charity_key@,
            charity_name: self.charity_name@,
            description: self.description@,
            created_at: self.created_at as int,
        }
    }
}

/// Announces that a charity has a new description.
#[derive(Clone, Debug, PartialEq, Eq)]
pub struct UpdateCharityEvent {
    pub charity_key: Address,
    pub charity_name: String,
    pub description: String,
    pub updated_at: i64,
}

pub struct UpdateCharityEventView {
    pub charity_key: Seq<u8>,
    pub charity_name: Seq<char>,
    pub description: Seq<char>,
    pub updated_at: int,
}

impl View for UpdateCharityEvent {
    type V = UpdateCharityEventView;

    open spec fn view(&self) -> UpdateCharityEventView {
        UpdateCharityEventView {
            charity_key: self.charity_key@,
            charity_name: self.charity_name@,
            description: self.description@,
            updated_at: self.updated_at as int,
        }
    }
}

/// Announces that a charity was deleted, and says where the vault's funds went.
#[derive(Clone, Debug, PartialEq, Eq)]
pub struct DeleteCharityEvent {
    pub charity_key: Address,
    pub charity_name: String,
    pub deleted_at: i64,
    /// Whether the funds went to the recipient rather than back to the authority.
    pub withdrawn_to_recipient: bool,
}

pub struct DeleteCharityEventView {
    pub charity_key: Seq<u8>,
    pub charity_name: Seq<char>,
    pub deleted_at: int,
    pub withdrawn_to_recipient: bool,
}

impl View for DeleteCharityEvent {
    type V = DeleteCharityEventView;

    open spec fn view(&self) -> DeleteCharityEventView {
        DeleteCharityEventView {
            charity_key: self.charity_key@,
            charity_name: self.charity_name@,
            deleted_at: self.deleted_at as int,
            withdrawn_to_recipient: self.withdrawn_to_recipient,
        }
    }
}

/// Announces a withdrawal of lamports, with the total that is left.
#[derive(Clone, Debug, PartialEq, Eq)]
pub struct WithdrawCharitySolEvent {
    pub charity_key: Address,
    pub charity_name: String,
    pub donations_in_lamports: u64,
    pub donation_count: u64,
    pub withdrawn_at: i64,
}

pub struct WithdrawCharitySolEventView {
    pub charity_key: Seq<u8>,
    pub charity_name: Seq<char>,
    pub donations_in_lamports: nat,
    pub donation_count: nat,
    pub withdrawn_at: int,
}

impl View for WithdrawCharitySolEvent {
    type V = WithdrawCharitySolEventView;

    open spec fn view(&self) -> WithdrawCharitySolEventView {
        WithdrawCharitySolEventView {
            charity_key: self.charity_key@,
            charity_name: self.charity_name@,
            donations_in_lamports: self.donations_in_lamports as nat,
            donation_count: self.donation_count as nat,
            withdrawn_at: self.withdrawn_at as int,
        }
    }
}

/// Announces a withdrawal of stablecoin, with the total that is left.
#[derive(Clone, Debug, PartialEq, Eq)]
pub struct WithdrawCharityUsdcEvent {
    pub charity_key: Address,
    pub charity_name: String,
    pub usdc_donations: u64,
    pub donation_count: u64,
    pub withdrawn_at: i64,
}

pub struct WithdrawCharityUsdcEventView {
    pub charity_key: Seq<u8>,
    pub charity_name: Seq<char>,
    pub usdc_donations: nat,
    pub donation_count: nat,
    pub withdrawn_at: int,
}

impl View for WithdrawCharityUsdcEvent {
    type V = WithdrawCharityUsdcEventView;

    open spec fn view(&self) -> WithdrawCharityUsdcEventView {
        WithdrawCharityUsdcEventView {
            charity_key: self.charity_key@,
            charity_name: self.charity_name@,
            usdc_donations: self.usdc_donations as nat,
            donation_count: self.donation_count as nat,
            withdrawn_at: self.withdrawn_at as int,
        }
    }
}

/// Announces that donations were paused or resumed.
#[derive(Clone, Debug, PartialEq, Eq)]
pub struct PauseDonationsEvent {
    pub charity_key: Address,
    pub charity_name: String,
    pub paused: bool,
    pub updated_at: i64,
}

pub struct PauseDonationsEventView {
    pub charity_key: Seq<u8>,
    pub charity_name: Seq<char>,
    pub paused: bool,
    pub updated_at: int,
}

impl View for PauseDonationsEvent {
    type V = PauseDonationsEventView;

    open spec fn view(&self) -> PauseDonationsEventView {
        PauseDonationsEventView {
            charity_key: self.charity_key@,
            charity_name: self.charity_name@,
            paused: self.paused,
            updated_at: self.updated_at as int,
        }
    }
}

/// Announces a donation.
#[derive(Clone, Debug, PartialEq, Eq)]
pub struct MakeDonationEvent {
    pub donor_key: Address,
    pub charity_key: Address,
    pub charity_name: String,
    pub amount: u64,
    pub created_at: i64,
}

pub struct MakeDonationEventView {
    pub donor_key: Seq<u8>,
    pub charity_key: Seq<u8>,
    pub charity_name: Seq<char>,
    pub amount: nat,
    pub created_at: int,
}

impl View for MakeDonationEvent {
    type V = MakeDonationEventView;

    open spec fn view(&self) -> MakeDonationEventView {
        MakeDonationEventView {
            donor_key: self.donor_key@,
            charity_key: self.charity_key@,
            charity_name: self.charity_name@,
            amount: self.amount as nat,
            created_at: self.created_at as int,
        }
    }
}

} // verus!
