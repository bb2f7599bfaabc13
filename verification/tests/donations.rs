use charity::address::Address;
use charity::common::errors::CustomError;
use charity::common::events::MakeDonationEvent;
use charity::instructions::donate::{check_donation, donate_with_vault, receive_donation};
use charity::instructions::donate_sol::{donate_sol, donate_sol_transfer, DonateSol};
use charity::instructions::donate_usdc::{donate_usdc, donate_usdc_transfer, DonateUsdc};
use charity::seeds::{donation_seeds_of, find_vault_address};
use charity::state::charity::Charity;
use charity::state::donation::{Donation, TokenType};
use charity::transfer::TransferRequest;

fn key(fill: u8) -> Address {
    Address::new([fill; 32])
}

fn program() -> Address {
    key(9)
}

fn vault() -> Address {
    find_vault_address(&key(2), &program()).unwrap().0
}

fn food_bank() -> Charity {
    Charity {
        authority: key(1),
        name: String::from("Food Bank"),
        description: String::from("Feeds families"),
        sol_donations_in_lamports: 0,
        usdc_donations: 0,
        donation_count: 0,
        paused: false,
        created_at: 100,
        updated_at: 100,
        deleted_at: None,
        withdrawn_at: None,
        vault_bump: 254,
        usdc_mint: key(4),
    }
}

fn sol_gift(charity: Charity) -> DonateSol {
    DonateSol { donor: key(5), charity_key: key(2), charity, vault: vault() }
}

fn usdc_gift(charity: Charity) -> DonateUsdc {
    DonateUsdc {
        donor: key(5),
        charity_key: key(2),
        charity,
        vault: vault(),
        donor_token_account: key(6),
    }
}

#[test]
fn donate_sol_counts_and_adds_to_the_lamports() {
    let mut ctx = sol_gift(food_bank());
    let (receipt, event) = donate_sol(&mut ctx, &program(), 1_000_000, 200).unwrap();
    let mut expected = food_bank();
    expected.donation_count = 1;
    expected.sol_donations_in_lamports = 1_000_000;
    assert_eq!(ctx.charity, expected);
    assert_eq!(ctx.donor, key(5));
    assert_eq!(ctx.charity_key, key(2));
    assert_eq!(ctx.vault, vault());
    assert_eq!(
        receipt,
        Donation {
            donor_key: key(5),
            charity_key: key(2),
            charity_name: String::from("Food Bank"),
            amount: 1_000_000,
            token_type: TokenType::Sol,
            created_at: 200,
        }
    );
    assert_eq!(
        event,
        MakeDonationEvent {
            donor_key: key(5),
            charity_key: key(2),
            charity_name: String::from("Food Bank"),
            amount: 1_000_000,
            created_at: 200,
        }
    );
}

#[test]
fn donate_usdc_counts_and_adds_to_the_stablecoin() {
    let mut ctx = usdc_gift(food_bank());
    let (receipt, event) = donate_usdc(&mut ctx, &program(), 250, 300).unwrap();
    let mut expected = food_bank();
    expected.donation_count = 1;
    expected.usdc_donations = 250;
    assert_eq!(ctx.charity, expected);
    assert_eq!(receipt.token_type, TokenType::Usdc);
    assert_eq!(receipt.amount, 250);
    assert_eq!(receipt.donor_key, key(5));
    assert_eq!(receipt.charity_key, key(2));
    assert_eq!(receipt.charity_name, "Food Bank");
    assert_eq!(receipt.created_at, 300);
    assert_eq!(event.amount, 250);
    assert_eq!(event.created_at, 300);
}

#[test]
fn the_two_totals_are_kept_apart() {
    let mut sol = sol_gift(food_bank());
    donate_sol(&mut sol, &program(), 700, 1).unwrap();
    let mut usdc = usdc_gift(sol.charity);
    donate_usdc(&mut usdc, &program(), 30, 2).unwrap();
    assert_eq!(usdc.charity.sol_donations_in_lamports, 700);
    assert_eq!(usdc.charity.usdc_donations, 30);
    assert_eq!(usdc.charity.donation_count, 2);
}

#[test]
fn a_donation_of_nothing_is_counted() {
    let mut ctx = sol_gift(food_bank());
    donate_sol(&mut ctx, &program(), 0, 1).unwrap();
    assert_eq!(ctx.charity.donation_count, 1);
    assert_eq!(ctx.charity.sol_donations_in_lamports, 0);
}

#[test]
fn donations_in_a_row_advance_the_counter_one_by_one() {
    let mut ctx = sol_gift(food_bank());
    ctx.charity.donation_count = 40;
    let mut numbers = Vec::new();
    let mut seeds = Vec::new();
    for i in 0..25u64 {
        numbers.push(ctx.charity.donation_count);
        seeds.push(ctx.receipt_seeds());
        donate_sol(&mut ctx, &program(), 10 + i, 1).unwrap();
    }
    assert_eq!(ctx.charity.donation_count, 40 + 25);
    assert_eq!(numbers, (40..65).collect::<Vec<u64>>());
    for i in 0..seeds.len() {
        assert_eq!(seeds[i], donation_seeds_of(&key(5), &key(2), 40 + i as u64));
        for j in 0..i {
            assert_ne!(seeds[i], seeds[j]);
        }
    }
    assert_eq!(ctx.charity.sol_donations_in_lamports, 25 * 10 + (0..25).sum::<u64>());
}

#[test]
fn receipt_seeds_follow_the_counter_in_both_currencies() {
    let mut charity = food_bank();
    charity.donation_count = 3;
    assert_eq!(sol_gift(charity.clone()).receipt_seeds(), donation_seeds_of(&key(5), &key(2), 3));
    assert_eq!(usdc_gift(charity).receipt_seeds(), donation_seeds_of(&key(5), &key(2), 3));
}

#[test]
fn donate_sol_to_a_paused_charity_is_refused_and_changes_nothing() {
    let mut charity = food_bank();
    charity.paused = true;
    charity.sol_donations_in_lamports = 77;
    charity.donation_count = 3;
    let mut ctx = sol_gift(charity.clone());
    assert_eq!(donate_sol(&mut ctx, &program(), 5, 1), Err(CustomError::DonationsPaused));
    assert_eq!(ctx, sol_gift(charity.clone()));
    assert_eq!(donate_sol(&mut ctx, &program(), 0, 1), Err(CustomError::DonationsPaused));
    assert_eq!(donate_sol(&mut ctx, &program(), u64::MAX, 1), Err(CustomError::DonationsPaused));
    assert_eq!(ctx, sol_gift(charity));
}

#[test]
fn donate_usdc_to_a_paused_charity_is_refused_and_changes_nothing() {
    let mut charity = food_bank();
    charity.paused = true;
    let mut ctx = usdc_gift(charity.clone());
    assert_eq!(donate_usdc(&mut ctx, &program(), 5, 1), Err(CustomError::DonationsPaused));
    assert_eq!(ctx, usdc_gift(charity));
}

#[test]
fn a_paused_charity_asks_for_no_transfer() {
    let mut charity = food_bank();
    charity.paused = true;
    assert_eq!(
        donate_sol_transfer(&sol_gift(charity.clone()), &program(), 5),
        Err(CustomError::DonationsPaused)
    );
    assert_eq!(
        donate_usdc_transfer(&usdc_gift(charity), &program(), 5),
        Err(CustomError::DonationsPaused)
    );
}

#[test]
fn paused_is_reported_before_the_vault() {
    let mut charity = food_bank();
    charity.paused = true;
    let mut ctx = sol_gift(charity);
    ctx.vault = key(8);
    assert_eq!(donate_sol(&mut ctx, &program(), 5, 1), Err(CustomError::DonationsPaused));
    assert_eq!(donate_sol_transfer(&ctx, &program(), 5), Err(CustomError::DonationsPaused));
}

#[test]
fn donate_sol_refuses_a_foreign_vault() {
    let mut ctx = sol_gift(food_bank());
    ctx.vault = key(8);
    assert_eq!(donate_sol(&mut ctx, &program(), 5, 1), Err(CustomError::InvalidVaultAccount));
    assert_eq!(ctx.charity, food_bank());
    assert_eq!(donate_sol_transfer(&ctx, &program(), 5), Err(CustomError::InvalidVaultAccount));
}

#[test]
fn donate_sol_refuses_the_vault_of_another_charity() {
    let mut ctx = sol_gift(food_bank());
    ctx.vault = find_vault_address(&key(3), &program()).unwrap().0;
    assert_eq!(donate_sol(&mut ctx, &program(), 5, 1), Err(CustomError::InvalidVaultAccount));
}

#[test]
fn donate_usdc_refuses_a_foreign_vault() {
    let mut ctx = usdc_gift(food_bank());
    ctx.vault = key(8);
    assert_eq!(donate_usdc(&mut ctx, &program(), 5, 1), Err(CustomError::InvalidVaultAccount));
    assert_eq!(ctx.charity, food_bank());
    assert_eq!(donate_usdc_transfer(&ctx, &program(), 5), Err(CustomError::InvalidVaultAccount));
}

#[test]
fn donate_sol_names_the_transfer_from_donor_to_vault() {
    let request = donate_sol_transfer(&sol_gift(food_bank()), &program(), 1_000_000).unwrap();
    assert_eq!(
        request,
        TransferRequest { from: key(5), to: vault(), authority: key(5), amount: 1_000_000 }
    );
}

#[test]
fn donate_usdc_names_the_transfer_from_the_donors_token_account() {
    let request = donate_usdc_transfer(&usdc_gift(food_bank()), &program(), 42).unwrap();
    assert_eq!(request, TransferRequest { from: key(6), to: vault(), authority: key(5), amount: 42 });
}

#[test]
fn a_total_that_would_overflow_is_refused_and_kept() {
    let mut charity = food_bank();
    charity.sol_donations_in_lamports = u64::MAX - 10;
    charity.donation_count = 4;
    let mut ctx = sol_gift(charity.clone());
    assert_eq!(donate_sol(&mut ctx, &program(), 11, 1), Err(CustomError::Overflow));
    assert_eq!(ctx.charity, charity);
    assert_eq!(ctx.charity.sol_donations_in_lamports, u64::MAX - 10);
    assert_eq!(ctx.charity.donation_count, 4);
}

#[test]
fn a_total_may_reach_the_maximum() {
    let mut charity = food_bank();
    charity.sol_donations_in_lamports = u64::MAX - 10;
    let mut ctx = sol_gift(charity);
    donate_sol(&mut ctx, &program(), 10, 1).unwrap();
    assert_eq!(ctx.charity.sol_donations_in_lamports, u64::MAX);
    assert_eq!(donate_sol(&mut ctx, &program(), 1, 1), Err(CustomError::Overflow));
    assert_eq!(ctx.charity.sol_donations_in_lamports, u64::MAX);
}

#[test]
fn a_stablecoin_total_that_would_overflow_is_refused_and_kept() {
    let mut charity = food_bank();
    charity.usdc_donations = u64::MAX;
    let mut ctx = usdc_gift(charity.clone());
    assert_eq!(donate_usdc(&mut ctx, &program(), 1, 1), Err(CustomError::Overflow));
    assert_eq!(ctx.charity, charity);
}

#[test]
fn a_full_total_of_one_currency_does_not_block_the_other() {
    let mut charity = food_bank();
    charity.usdc_donations = u64::MAX;
    let mut ctx = sol_gift(charity);
    assert!(donate_sol(&mut ctx, &program(), 1, 1).is_ok());
}

#[test]
fn a_counter_that_would_overflow_is_refused_and_kept() {
    let mut charity = food_bank();
    charity.donation_count = u64::MAX;
    let mut ctx = sol_gift(charity.clone());
    assert_eq!(donate_sol(&mut ctx, &program(), 1, 1), Err(CustomError::Overflow));
    assert_eq!(ctx.charity, charity);
    let mut ctx = usdc_gift(charity.clone());
    assert_eq!(donate_usdc(&mut ctx, &program(), 0, 1), Err(CustomError::Overflow));
    assert_eq!(ctx.charity, charity);
}

#[test]
fn overflow_does_not_stop_the_transfer_step() {
    let mut charity = food_bank();
    charity.sol_donations_in_lamports = u64::MAX;
    assert!(donate_sol_transfer(&sol_gift(charity), &program(), 1).is_ok());
}

#[test]
fn check_donation_is_the_gate_of_both_handlers() {
    let mut charity = food_bank();
    let derived = Some((key(8), 255));
    assert_eq!(check_donation(&charity, &key(8), &derived), Ok(()));
    assert_eq!(check_donation(&charity, &key(7), &derived), Err(CustomError::InvalidVaultAccount));
    assert_eq!(check_donation(&charity, &key(8), &None), Err(CustomError::InvalidVaultAccount));
    charity.paused = true;
    assert_eq!(check_donation(&charity, &key(8), &derived), Err(CustomError::DonationsPaused));
    assert_eq!(check_donation(&charity, &key(8), &None), Err(CustomError::DonationsPaused));
}

#[test]
fn donate_with_vault_goes_by_the_derived_address() {
    let derived = Some((key(8), 255));
    let mut charity = food_bank();
    let (receipt, event) = donate_with_vault(
        &mut charity,
        &key(2),
        &key(5),
        &key(8),
        &derived,
        TokenType::Usdc,
        12,
        34,
    )
    .unwrap();
    assert_eq!(charity.usdc_donations, 12);
    assert_eq!(charity.sol_donations_in_lamports, 0);
    assert_eq!(charity.donation_count, 1);
    assert_eq!(
        receipt,
        Donation {
            donor_key: key(5),
            charity_key: key(2),
            charity_name: String::from("Food Bank"),
            amount: 12,
            token_type: TokenType::Usdc,
            created_at: 34,
        }
    );
    assert_eq!(event.amount, 12);

    let before = charity.clone();
    let refused = donate_with_vault(
        &mut charity,
        &key(2),
        &key(5),
        &key(7),
        &derived,
        TokenType::Usdc,
        12,
        34,
    );
    assert_eq!(refused, Err(CustomError::InvalidVaultAccount));
    let refused =
        donate_with_vault(&mut charity, &key(2), &key(5), &key(8), &None, TokenType::Sol, 12, 34);
    assert_eq!(refused, Err(CustomError::InvalidVaultAccount));
    assert_eq!(charity, before);
}

#[test]
fn donate_with_vault_refuses_in_the_order_of_the_handlers() {
    let mut charity = food_bank();
    charity.paused = true;
    charity.donation_count = u64::MAX;
    let refused =
        donate_with_vault(&mut charity, &key(2), &key(5), &key(8), &None, TokenType::Sol, 1, 1);
    assert_eq!(refused, Err(CustomError::DonationsPaused));
    charity.paused = false;
    let refused =
        donate_with_vault(&mut charity, &key(2), &key(5), &key(8), &None, TokenType::Sol, 1, 1);
    assert_eq!(refused, Err(CustomError::InvalidVaultAccount));
    let derived = Some((key(8), 0));
    let refused =
        donate_with_vault(&mut charity, &key(2), &key(5), &key(8), &derived, TokenType::Sol, 1, 1);
    assert_eq!(refused, Err(CustomError::Overflow));
}

#[test]
fn receive_donation_writes_receipt_and_event() {
    let mut charity = food_bank();
    let (receipt, event) =
        receive_donation(&mut charity, &key(2), &key(5), TokenType::Usdc, 9, 77).unwrap();
    assert_eq!(charity.usdc_donations, 9);
    assert_eq!(charity.donation_count, 1);
    assert_eq!(receipt.amount, 9);
    assert_eq!(receipt.token_type, TokenType::Usdc);
    assert_eq!(event.donor_key, key(5));
    assert_eq!(event.created_at, 77);
}

#[test]
fn record_donation_and_withdrawal_are_exact() {
    let mut charity = food_bank();
    assert_eq!(charity.record_donation(TokenType::Sol, 500), Ok(()));
    assert_eq!(charity.record_donation(TokenType::Usdc, 20), Ok(()));
    assert_eq!(charity.record_withdrawal(TokenType::Sol, 200, 9), Ok(()));
    assert_eq!(charity.sol_donations_in_lamports, 300);
    assert_eq!(charity.usdc_donations, 20);
    assert_eq!(charity.donation_count, 2);
    assert_eq!(charity.withdrawn_at, Some(9));
    let before = charity.clone();
    assert_eq!(charity.record_withdrawal(TokenType::Usdc, 21, 10), Err(CustomError::Overflow));
    assert_eq!(charity, before);
    assert_eq!(charity.record_withdrawal(TokenType::Usdc, 20, 11), Ok(()));
    assert_eq!(charity.usdc_donations, 0);
    assert_eq!(charity.withdrawn_at, Some(11));
}
