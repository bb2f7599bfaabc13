use vstd::prelude::*;
use crate::address::Address;
use crate::common::constants::CHARITY_NAME_MAX_LEN;

verus! {

/// The two currencies a charity takes.
#[derive(Clone, Copy, Debug, PartialEq, Eq, Structural)]
pub enum TokenType {
    /// The native token, counted in lamports.
    Sol,
    /// The stablecoin token of the charity's mint.
    Usdc,
}

/// The receipt of one donation. It is written once, when the donation is
/// made, and never changed.
#[derive(Clone, Debug, PartialEq, Eq)]
pub struct Donation {
    /// Who gave.
    pub donor_key: Address,
    /// The charity that received.
    pub charity_key: Address,
    /// The charity's name at the time.
    pub charity_name: String,
    /// How much was given.
    pub amount: u64,
    /// In which currency.
    pub token_type: TokenType,
    /// When.
    pub created_at: i64,
}

/// A receipt as a mathematical value.
pub struct DonationView {
    pub donor_key: Seq<u8>,
    pub charity_key: Seq<u8>,
    pub charity_name: Seq<char>,
    pub amount: nat,
    pub token_type: TokenType,
    pub created_at: int,
}

impl View for Donation {
    type V = DonationView;

    open spec fn view(&self) -> DonationView {
        DonationView {
            donor_key: self.donor_key@,
            charity_key: self.charity_key@,
            charity_name: self.charity_name@,
            amount: self.amount as nat,
            token_type: self.token_type,
            created_at: self.created_at as int,
        }
    }
}

impl Donation {
    /// Bytes reserved for a stored receipt: two addresses, the name, the
    /// amount, the currency and the time.
    pub const INIT_SPACE: usize = 32 + 32 + CHARITY_NAME_MAX_LEN + 8 + 1 + 8;
}

} // verus!
