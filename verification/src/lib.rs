//! The rules of a charity-donation program: a registry entry per charity, a
//! vault that holds its funds, a receipt per donation, and the handlers that
//! create, update, pause, give to, withdraw from and delete a charity.
//!
//! The handlers work on plain values. Reading the accounts, moving funds that
//! only the host can move, and emitting the events is left to the caller.

pub mod address;
pub mod common;
pub mod instructions;
pub mod seeds;
pub mod state;
pub mod transfer;
