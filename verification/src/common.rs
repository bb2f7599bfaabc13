pub mod constants;
pub mod errors;
pub mod events;
