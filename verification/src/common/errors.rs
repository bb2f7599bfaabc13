use vstd::prelude::*;

verus! {

/// Why an instruction was refused. A refused instruction changes nothing.
#[derive(Clone, Copy, Debug, PartialEq, Eq, Structural)]
pub enum CustomError {
    /// The caller is not the charity's authority, or the vault is not the program's.
    Unauthorized,
    /// A total or a counter would leave the range of 64 unsigned bits.
    Overflow,
    /// The amount is zero or more than the vault holds.
    InsufficientFunds,
    /// The withdrawal would leave the vault under the rent-exemption floor.
    InsufficientFundsForRent,
    /// The new description is the one the charity already has.
    InvalidDescription,
    /// The description is longer than `CHARITY_DESCRIPTION_MAX_LEN`.
    InvalidDescriptionLength,
    /// The name is longer than `CHARITY_NAME_MAX_LEN`.
    InvalidNameLength,
    /// The vault is not the one derived from the charity's address.
    InvalidVaultAccount,
    /// The charity takes no donations for now.
    DonationsPaused,
}

impl CustomError {
    /// The text shown to the caller for each error.
    pub open spec fn message_text(self) -> Seq<char> {
        match self {
            CustomError::Unauthorized => "Unauthorized access"@,
            CustomError::Overflow => "Math overflow occurred"@,
            CustomError::InsufficientFunds => "Insufficient funds for withdrawal"@,
            CustomError::InsufficientFundsForRent => "Cannot withdraw below rent-exemption threshold"@,
            CustomError::InvalidDescription => "Invalid description"@,
            CustomError::InvalidDescriptionLength => "Invalid description length"@,
            CustomError::InvalidNameLength => "Invalid name length"@,
            CustomError::InvalidVaultAccount => "Invalid vault account"@,
            CustomError::DonationsPaused => "Donations for this charity are paused"@,
        }
    }

    pub fn message(&self) -> (text: &'static str)
        ensures
            text@ == self.message_text(),
    {
        match self {
            CustomError::Unauthorized => "Unauthorized access",
            CustomError::Overflow => "Math overflow occurred",
            CustomError::InsufficientFunds => "Insufficient funds for withdrawal",
            CustomError::InsufficientFundsForRent => "Cannot withdraw below rent-exemption threshold",
            CustomError::InvalidDescription => "Invalid description",
            CustomError::InvalidDescriptionLength => "Invalid description length",
            CustomError::InvalidNameLength => "Invalid name length",
            CustomError::InvalidVaultAccount => "Invalid vault account",
            CustomError::DonationsPaused => "Donations for this charity are paused",
        }
    }
}

} // verus!
