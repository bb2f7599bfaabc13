use charity::address::Address;
use charity::common::errors::CustomError;
use charity::instructions::create_charity::{create_charity, CreateCharity};
use charity::instructions::delete_charity::{delete_charity, DeleteCharity};
use charity::instructions::donate_sol::{donate_sol, donate_sol_transfer, DonateSol};
use charity::instructions::donate_usdc::{donate_usdc, donate_usdc_transfer, DonateUsdc};
use charity::instructions::pause_donations::{pause_donations, PauseDonations};
use charity::instructions::update_charity::{update_charity, UpdateCharity};
use charity::instructions::withdraw_donations::{withdraw_donations, WithdrawDonations};
use charity::instructions::withdraw_usdc::{handler, withdraw_usdc_transfer, WithdrawUsdc};
use charity::seeds::{find_charity_address, find_vault_address};

fn key(fill: u8) -> Address {
    Address::new([fill; 32])
}

#[test]
fn food_bank_from_creation_to_pause() {
    let program = key(9);
    let authority = key(1);
    let donor = key(5);
    let rent_floor = 100_000;
    let name = String::from("Food Bank");
    let (charity_key, _) = find_charity_address(&authority, &name, &program).unwrap();
    let (vault, vault_bump) = find_vault_address(&charity_key, &program).unwrap();

    let creation = CreateCharity {
        authority,
        charity_key,
        vault_owner: program,
        vault_bump,
        usdc_mint: key(4),
    };
    let (charity, created) =
        create_charity(&creation, &program, name, String::from("Feeds families"), 1_000).unwrap();
    assert_eq!(created.charity_name, "Food Bank");
    assert_eq!(charity.name, "Food Bank");
    assert_eq!(charity.description, "Feeds families");
    assert_eq!(charity.donation_count, 0);
    assert_eq!(charity.sol_donations_in_lamports, 0);
    assert!(!charity.paused);

    // the ledger of the host: the vault starts empty
    let mut vault_lamports: u64 = 0;
    let recipient_lamports: u64 = 0;

    let mut gift = DonateSol { donor, charity_key, charity, vault };
    let transfer = donate_sol_transfer(&gift, &program, 1_000_000).unwrap();
    assert_eq!(transfer.to, vault);
    vault_lamports += transfer.amount;
    let (receipt, _) = donate_sol(&mut gift, &program, 1_000_000, 1_001).unwrap();
    assert_eq!(receipt.amount, 1_000_000);
    assert_eq!(gift.charity.donation_count, 1);
    assert_eq!(gift.charity.sol_donations_in_lamports, 1_000_000);
    assert_eq!(vault_lamports, 1_000_000);

    let mut withdrawal = WithdrawDonations {
        authority,
        charity_key,
        charity: gift.charity,
        vault,
        vault_lamports,
        recipient_lamports,
    };
    let event = withdraw_donations(&mut withdrawal, &program, 500_000, 1_002, rent_floor).unwrap();
    assert_eq!(event.donations_in_lamports, 500_000);
    assert_eq!(withdrawal.charity.sol_donations_in_lamports, 500_000);
    assert_eq!(withdrawal.vault_lamports, 500_000);
    assert!(withdrawal.vault_lamports >= rent_floor);
    assert_eq!(withdrawal.recipient_lamports, 500_000);
    assert_eq!(withdrawal.charity.donation_count, 1);
    assert_eq!(withdrawal.charity.withdrawn_at, Some(1_002));
    let vault_lamports = withdrawal.vault_lamports;

    let mut pause = PauseDonations { authority, charity_key, charity: withdrawal.charity };
    pause_donations(&mut pause, true, 1_003).unwrap();
    assert!(pause.charity.paused);

    let mut refused = DonateSol { donor, charity_key, charity: pause.charity, vault };
    let before = refused.clone();
    assert_eq!(donate_sol_transfer(&refused, &program, 1), Err(CustomError::DonationsPaused));
    assert_eq!(donate_sol(&mut refused, &program, 1, 1_004), Err(CustomError::DonationsPaused));
    assert_eq!(refused, before);
    assert_eq!(refused.charity.donation_count, 1);
    assert_eq!(refused.charity.sol_donations_in_lamports, 500_000);
    assert_eq!(vault_lamports, 500_000);
}

#[test]
fn a_charity_through_every_instruction() {
    let program = key(9);
    let authority = key(1);
    let donor = key(5);
    let name = String::from("Shelter");
    let (charity_key, _) = find_charity_address(&authority, &name, &program).unwrap();
    let (vault, vault_bump) = find_vault_address(&charity_key, &program).unwrap();
    let creation =
        CreateCharity { authority, charity_key, vault_owner: program, vault_bump, usdc_mint: key(4) };
    let (charity, _) = create_charity(&creation, &program, name, String::from("Beds"), 10).unwrap();

    let mut update = UpdateCharity { authority, charity_key, charity };
    update_charity(&mut update, String::from("Beds and meals"), 11).unwrap();

    let mut sol = DonateSol { donor, charity_key, charity: update.charity, vault };
    donate_sol(&mut sol, &program, 300, 12).unwrap();
    donate_sol(&mut sol, &program, 200, 13).unwrap();

    let mut usdc =
        DonateUsdc { donor, charity_key, charity: sol.charity, vault, donor_token_account: key(6) };
    assert_eq!(donate_usdc_transfer(&usdc, &program, 40).unwrap().amount, 40);
    donate_usdc(&mut usdc, &program, 40, 14).unwrap();
    assert_eq!(usdc.charity.donation_count, 3);
    assert_eq!(usdc.charity.sol_donations_in_lamports, 500);
    assert_eq!(usdc.charity.usdc_donations, 40);

    let mut tokens = WithdrawUsdc {
        authority,
        charity_key,
        charity: usdc.charity,
        vault,
        vault_amount: 40,
        recipient: key(7),
    };
    assert_eq!(withdraw_usdc_transfer(&tokens, &program, 15).unwrap().amount, 15);
    handler(&mut tokens, &program, 15, 15).unwrap();
    assert_eq!(tokens.charity.usdc_donations, 25);

    let mut lamports = WithdrawDonations {
        authority,
        charity_key,
        charity: tokens.charity,
        vault,
        vault_lamports: 1_500,
        recipient_lamports: 0,
    };
    withdraw_donations(&mut lamports, &program, 500, 16, 1_000).unwrap();
    assert_eq!(lamports.vault_lamports, 1_000);
    assert_eq!(lamports.charity.sol_donations_in_lamports, 0);
    assert_eq!(lamports.charity.withdrawn_at, Some(16));
    assert_eq!(lamports.charity.description, "Beds and meals");
    assert_eq!(lamports.charity.updated_at, 11);
    assert_eq!(lamports.charity.created_at, 10);

    let mut deletion = DeleteCharity {
        authority,
        authority_lamports: 5,
        charity_key,
        charity: lamports.charity,
        vault,
        vault_lamports: lamports.vault_lamports,
        recipient_lamports: lamports.recipient_lamports,
    };
    let event = delete_charity(&mut deletion, &program, 17).unwrap();
    assert!(event.withdrawn_to_recipient);
    assert_eq!(deletion.vault_lamports, 0);
    assert_eq!(deletion.recipient_lamports, 1_500);
    assert_eq!(deletion.authority_lamports, 5);
}
