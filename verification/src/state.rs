pub mod charity;
pub mod donation;
