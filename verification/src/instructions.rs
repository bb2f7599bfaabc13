pub mod create_charity;
pub mod delete_charity;
pub mod donate;
pub mod donate_sol;
pub mod donate_usdc;
pub mod pause_donations;
pub mod update_charity;
pub mod withdraw;
pub mod withdraw_donations;
pub mod withdraw_usdc;
