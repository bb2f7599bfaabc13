use vstd::prelude::*;
use crate::address::Address;

verus! {

/// A movement of funds that a handler asks the host to make. The handler
/// decides that it is due and how much; the host moves the funds.
#[derive(Clone, Copy, Debug, PartialEq, Eq)]
pub struct TransferRequest {
    /// The account that pays.
    pub from: Address,
    /// The account that receives.
    pub to: Address,
    /// The signer in whose name the funds leave `from`.
    pub authority: Address,
    /// How much moves.
    pub amount: u64,
}

pub struct TransferRequestView {
    pub from: Seq<u8>,
    pub to: Seq<u8>,
    pub authority: Seq<u8>,
    pub amount: nat,
}

impl View for TransferRequest {
    type V = TransferRequestView;

    open spec fn view(&self) -> TransferRequestView {
        TransferRequestView {
            from: self.from@,
            to: self.to@,
            authority: self.authority@,
            amount: self.amount as nat,
        }
    }
}

} // verus!
