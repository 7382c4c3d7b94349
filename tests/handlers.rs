use crowdfunding::address::{derive_record_address, text_bytes, Address, Role};
use crowdfunding::campaign::{
    create_campaign, make_campaign_donation, withdraw_campaign_funds, CreateCampaign, MakeCampaignDonation,
    WithdrawCampaignFunds,
};
use crowdfunding::creator::{
    register_creator, reprovision, update_creator_page_settings, update_creator_profile, RegisterCreator,
    UpdateCreator, DEFAULT_PRICE_PER_DONATION,
};
use crowdfunding::error::ErrorCode;
use crowdfunding::ledger::{transfer, Account, Wallet};
use crowdfunding::records::{
    fits, Campaign, Creator, CreatorUsername, SupporterTransfer, SupporterTransferPayment,
    CAMPAIGN_SPACE, CREATOR_SPACE, CREATOR_USERNAME_SPACE, SUPPORTER_DONATION_SPACE,
    SUPPORTER_TRANSFER_PAYMENT_SPACE,
};
use crowdfunding::supporter::{
    claim_supporter_transfer_funds, deposit_supporter_transfer_funds, save_supporter_transfer,
    send_supporter_donation, split_fee, ClaimSupporterTransfer, CreateSupporterTransfer,
    DepositSupporterTransfer, SendSupporterDonation, SUPPORTER_DONATION_FEE_PERCENTAGE,
};

fn pid() -> Address {
    Address { bytes: [7u8; 32] }
}

fn wallet(n: u8, lamports: u64) -> Wallet {
    Wallet { key: Address { bytes: [n; 32] }, lamports }
}

fn slot<T>(role: Role, key: Vec<u8>, counter: u64) -> Account<Option<T>> {
    let d = derive_record_address(role, key, counter, &pid()).unwrap();
    Account { key: d.address, lamports: 0, data_len: 0, data: None }
}

fn registration(signer: &Wallet, username: &str) -> RegisterCreator {
    RegisterCreator {
        signer: *signer,
        creator_account: slot(Role::Creator, signer.key.to_vec(), 0),
        creator_username_account: slot(Role::Username, text_bytes(&username.to_string()), 0),
    }
}

fn loaded<T>(account: Account<Option<T>>) -> Account<T> {
    Account { key: account.key, lamports: account.lamports, data_len: account.data_len, data: account.data.unwrap() }
}

fn registered(owner: &Wallet, username: &str) -> Account<Creator> {
    let mut accounts = registration(owner, username);
    register_creator(
        &mut accounts,
        &pid(),
        username.to_string(),
        "Alice Example".to_string(),
        "Writes songs".to_string(),
    )
    .unwrap();
    let mut creator = loaded(accounts.creator_account);
    creator.lamports = 5_000;
    creator
}

fn campaign_of(owner: &Wallet, creator: Account<Creator>) -> (Account<Creator>, Account<Campaign>) {
    let mut campaign_account: Account<Option<Campaign>> =
        slot(Role::Campaign, creator.key.to_vec(), creator.data.campaigns_count);
    campaign_account.lamports = 1_000;
    let mut accounts = CreateCampaign { signer: *owner, creator_account: creator, campaign_account };
    create_campaign(&mut accounts, &pid(), "Album".to_string(), "A new album".to_string(), 1_000_000, true)
        .unwrap();
    (accounts.creator_account, loaded(accounts.campaign_account))
}

fn donation(
    signer: Wallet,
    creator_account: Account<Creator>,
    receipt_counter: u64,
) -> SendSupporterDonation {
    let supporter_donation_account = slot(Role::SupporterDonation, creator_account.key.to_vec(), receipt_counter);
    SendSupporterDonation {
        signer,
        creator_account,
        supporter_donation_account,
        receiver: wallet(3, 0),
        fee_collector: wallet(4, 0),
    }
}

#[test]
fn register_creator_fills_defaults() {
    let alice = wallet(1, 0);
    let mut accounts = registration(&alice, "alice");
    let r = register_creator(&mut accounts, &pid(), "alice".to_string(), "Alice".to_string(), "bio".to_string());
    assert_eq!(r, Ok(()));
    let c = accounts.creator_account.data.clone().unwrap();
    assert_eq!(c.owner, alice.key);
    assert_eq!(c.username, "alice");
    assert_eq!(c.fullname, "Alice");
    assert_eq!(c.price_per_donation, DEFAULT_PRICE_PER_DONATION);
    assert_eq!(c.price_per_donation, 100_000_000);
    assert_eq!(c.donation_item, "coffee");
    assert_eq!(c.theme_color, "#794BC4");
    assert_eq!(c.image_url, "");
    assert!(c.is_supporters_count_visible);
    assert_eq!(c.supporters_count, 0);
    assert_eq!(c.campaigns_count, 0);
    let expected = derive_record_address(Role::Creator, alice.key.to_vec(), 0, &pid()).unwrap();
    assert_eq!(c.bump, expected.bump);
    assert_eq!(accounts.creator_account.data_len, CREATOR_SPACE);
    let index: CreatorUsername = accounts.creator_username_account.data.unwrap();
    assert_eq!(index.owner, alice.key);
    assert_eq!(index.bump, derive_record_address(Role::Username, b"alice".to_vec(), 0, &pid()).unwrap().bump);
    assert_eq!(accounts.creator_username_account.data_len, CREATOR_USERNAME_SPACE);
}

#[test]
fn registering_a_username_twice_fails() {
    let alice = wallet(1, 0);
    let bob = wallet(2, 0);
    let mut first = registration(&alice, "alice");
    register_creator(&mut first, &pid(), "alice".into(), "A".into(), "B".into()).unwrap();

    let mut second = registration(&bob, "alice");
    second.creator_username_account = first.creator_username_account.clone();
    let r = register_creator(&mut second, &pid(), "alice".into(), "C".into(), "D".into());
    assert_eq!(r, Err(ErrorCode::UsernameAlreadyExists));
    assert_eq!(second.creator_username_account.data.unwrap().owner, alice.key);
    assert!(second.creator_account.data.is_none());

    let r = register_creator(&mut first, &pid(), "alice".into(), "E".into(), "F".into());
    assert_eq!(r, Err(ErrorCode::UsernameAlreadyExists));
    assert_eq!(first.creator_account.data.unwrap().fullname, "A");
    assert_eq!(first.creator_username_account.data.unwrap().owner, alice.key);
}

#[test]
fn register_rejects_long_username_and_wrong_address() {
    let alice = wallet(1, 0);
    let mut accounts = registration(&alice, "alice");
    let r = register_creator(&mut accounts, &pid(), "a".repeat(21), "A".into(), "B".into());
    assert_eq!(r, Err(ErrorCode::CapacityExceeded));

    let mut accounts = registration(&alice, "bob");
    let r = register_creator(&mut accounts, &pid(), "alice".into(), "A".into(), "B".into());
    assert_eq!(r, Err(ErrorCode::ConstraintSeeds));
    assert!(accounts.creator_account.data.is_none());
    assert!(accounts.creator_username_account.data.is_none());
}

#[test]
fn register_over_existing_profile_fails() {
    let alice = wallet(1, 0);
    let mut accounts = registration(&alice, "alice");
    register_creator(&mut accounts, &pid(), "alice".into(), "A".into(), "B".into()).unwrap();
    let mut again = registration(&alice, "alice2");
    again.creator_account = accounts.creator_account.clone();
    let r = register_creator(&mut again, &pid(), "alice2".into(), "A".into(), "B".into());
    assert_eq!(r, Err(ErrorCode::AccountAlreadyInUse));
    assert!(again.creator_username_account.data.is_none());
}

#[test]
fn supporter_donation_scenario() {
    let alice = wallet(1, 1_000_000);
    let creator = registered(&alice, "alice");
    let mut update = UpdateCreator { signer: alice, creator_account: creator };
    let r = update_creator_page_settings(
        &mut update,
        &pid(),
        0,
        true,
        100_000,
        "coffee".to_string(),
        "#794BC4".to_string(),
        "Thanks!".to_string(),
    );
    assert_eq!(r, Ok(()));
    assert_eq!(update.creator_account.data.price_per_donation, 100_000);

    let mut accounts = donation(wallet(2, 1_000_000), update.creator_account, 0);
    let r = send_supporter_donation(&mut accounts, &pid(), "Bob".to_string(), "Great work".to_string(), 3, 1_700_000_000);
    assert_eq!(r, Ok(()));
    let d = accounts.supporter_donation_account.data.clone().unwrap();
    assert_eq!(d.amount, 300_000);
    assert_eq!(d.fees, 3_000);
    assert_eq!(d.amount - d.fees, 297_000);
    assert_eq!(d.item, "coffee");
    assert_eq!(d.quantity, 3);
    assert_eq!(d.supporter, accounts.signer.key);
    assert_eq!(d.creator, accounts.creator_account.key);
    assert_eq!(d.timestamp, 1_700_000_000);
    assert_eq!(accounts.supporter_donation_account.data_len, SUPPORTER_DONATION_SPACE);
    assert_eq!(accounts.fee_collector.lamports, 3_000);
    assert_eq!(accounts.receiver.lamports, 297_000);
    assert_eq!(accounts.signer.lamports, 700_000);
    assert_eq!(accounts.creator_account.data.supporters_count, 1);
    assert_eq!(accounts.creator_account.data.supporter_donations_amount, 300_000);
}

#[test]
fn supporter_donation_errors() {
    let alice = wallet(1, 0);
    let creator = registered(&alice, "alice");
    let mut accounts = donation(wallet(2, 1_000), creator, 0);
    let r = send_supporter_donation(&mut accounts, &pid(), "Bob".into(), "".into(), 0, 0);
    assert_eq!(r, Err(ErrorCode::InvalidAmount));
    let r = send_supporter_donation(&mut accounts, &pid(), "Bob".into(), "".into(), 1, 0);
    assert_eq!(r, Err(ErrorCode::InsufficientFunds));
    accounts.creator_account.data.price_per_donation = u64::MAX;
    let r = send_supporter_donation(&mut accounts, &pid(), "Bob".into(), "".into(), 2, 0);
    assert_eq!(r, Err(ErrorCode::ArithmeticOverflow));
    accounts.creator_account.data.price_per_donation = 10;
    let r = send_supporter_donation(&mut accounts, &pid(), "B".repeat(51), "".into(), 1, 0);
    assert_eq!(r, Err(ErrorCode::CapacityExceeded));

    let mut wrong = donation(wallet(2, 1_000), accounts.creator_account.clone(), 1);
    let r = send_supporter_donation(&mut wrong, &pid(), "Bob".into(), "".into(), 1, 0);
    assert_eq!(r, Err(ErrorCode::ConstraintSeeds));

    assert_eq!(accounts.signer.lamports, 1_000);
    assert_eq!(accounts.creator_account.data.supporters_count, 0);
    assert!(accounts.supporter_donation_account.data.is_none());
    let r = send_supporter_donation(&mut accounts, &pid(), "Bob".into(), "".into(), 5, 0);
    assert_eq!(r, Ok(()));
    assert_eq!(accounts.fee_collector.lamports, 0);
    assert_eq!(accounts.receiver.lamports, 50);
    let r = send_supporter_donation(&mut accounts, &pid(), "Bob".into(), "".into(), 5, 0);
    assert_eq!(r, Err(ErrorCode::AccountAlreadyInUse));
}

#[test]
fn fee_split_is_exact() {
    assert_eq!(SUPPORTER_DONATION_FEE_PERCENTAGE, 1);
    assert_eq!(split_fee(300_000), (3_000, 297_000));
    assert_eq!(split_fee(99), (0, 99));
    assert_eq!(split_fee(12_345), (123, 12_222));
    assert_eq!(split_fee(u64::MAX), (u64::MAX / 100, u64::MAX - u64::MAX / 100));
}

#[test]
fn campaign_scenario() {
    let alice = wallet(1, 0);
    let creator = registered(&alice, "alice");
    let (creator, campaign) = campaign_of(&alice, creator);
    assert_eq!(campaign.data.target_amount, 1_000_000);
    assert_eq!(campaign.data.amount_donated, 0);
    assert_eq!(campaign.data.owner, alice.key);
    assert_eq!(campaign.data_len, CAMPAIGN_SPACE);
    assert_eq!(creator.data.campaigns_count, 1);

    let mut donate = MakeCampaignDonation { signer: wallet(2, 600_000), campaign_account: campaign };
    assert_eq!(make_campaign_donation(&mut donate, 500_000), Ok(()));
    assert_eq!(donate.campaign_account.data.amount_donated, 500_000);
    assert_eq!(donate.campaign_account.lamports, 501_000);
    assert_eq!(donate.signer.lamports, 100_000);

    let mut by_bob = WithdrawCampaignFunds { signer: donate.signer, campaign_account: donate.campaign_account };
    let r = withdraw_campaign_funds(&mut by_bob, 2_000, 500_000);
    assert_eq!(r, Err(ErrorCode::InvalidSigner));
    assert_eq!(by_bob.campaign_account.lamports, 501_000);

    let mut by_alice = WithdrawCampaignFunds { signer: alice, campaign_account: by_bob.campaign_account };
    let r = withdraw_campaign_funds(&mut by_alice, 2_000, 500_000);
    assert_eq!(r, Err(ErrorCode::InsufficientFundsAfterWithdraw));
    assert_eq!(by_alice.campaign_account.lamports, 501_000);
    assert_eq!(by_alice.campaign_account.data.amount_withdrawn, 0);

    let r = withdraw_campaign_funds(&mut by_alice, 2_000, 499_000);
    assert_eq!(r, Ok(()));
    assert_eq!(by_alice.campaign_account.lamports, 2_000);
    assert_eq!(by_alice.signer.lamports, 499_000);
    assert_eq!(by_alice.campaign_account.data.amount_withdrawn, 499_000);
}

#[test]
fn withdraw_below_floor_balance_fails() {
    let alice = wallet(1, 0);
    let creator = registered(&alice, "alice");
    let (_, campaign) = campaign_of(&alice, creator);
    let mut accounts = WithdrawCampaignFunds { signer: alice, campaign_account: campaign };
    let r = withdraw_campaign_funds(&mut accounts, 5_000, 0);
    assert_eq!(r, Err(ErrorCode::InsufficientFundsAfterWithdraw));
    let r = withdraw_campaign_funds(&mut accounts, 1_000, 0);
    assert_eq!(r, Ok(()));
}

#[test]
fn campaign_donation_of_nothing_fails() {
    let alice = wallet(1, 0);
    let creator = registered(&alice, "alice");
    let (_, campaign) = campaign_of(&alice, creator);
    let mut accounts = MakeCampaignDonation { signer: wallet(2, 10), campaign_account: campaign };
    assert_eq!(make_campaign_donation(&mut accounts, 0), Err(ErrorCode::InvalidAmount));
    assert_eq!(make_campaign_donation(&mut accounts, 11), Err(ErrorCode::InsufficientFunds));
    assert_eq!(accounts.campaign_account.data.amount_donated, 0);
    assert_eq!(accounts.signer.lamports, 10);
}

#[test]
fn campaign_counter_numbers_campaigns() {
    let alice = wallet(1, 0);
    let creator = registered(&alice, "alice");
    let (creator, first) = campaign_of(&alice, creator);
    let (creator, second) = campaign_of(&alice, creator);
    assert_eq!(creator.data.campaigns_count, 2);
    assert_ne!(first.key, second.key);
    let reused = slot(Role::Campaign, creator.key.to_vec(), 0);
    let mut accounts = CreateCampaign { signer: alice, creator_account: creator, campaign_account: reused };
    let r = create_campaign(&mut accounts, &pid(), "x".into(), "y".into(), 1, false);
    assert_eq!(r, Err(ErrorCode::ConstraintSeeds));
    assert_eq!(accounts.creator_account.data.campaigns_count, 2);
}

#[test]
fn profile_update_by_owner_and_stranger() {
    let alice = wallet(1, 10_000);
    let creator = registered(&alice, "alice");
    let mut by_mallory = UpdateCreator { signer: wallet(9, 10_000), creator_account: creator };
    let r = update_creator_profile(&mut by_mallory, &pid(), 0, "M".into(), "m".into(), "http://m".into());
    assert_eq!(r, Err(ErrorCode::InvalidSigner));
    assert_eq!(by_mallory.creator_account.data.fullname, "Alice Example");
    let r = update_creator_page_settings(
        &mut by_mallory, &pid(), 0, false, 1, "tea".into(), "#000000".into(), "".into(),
    );
    assert_eq!(r, Err(ErrorCode::InvalidSigner));
    assert_eq!(by_mallory.creator_account.data.price_per_donation, DEFAULT_PRICE_PER_DONATION);

    let mut by_alice = UpdateCreator { signer: alice, creator_account: by_mallory.creator_account };
    let r = update_creator_profile(&mut by_alice, &pid(), 0, "Alice B".into(), "new bio".into(), "https://img".into());
    assert_eq!(r, Ok(()));
    let c = &by_alice.creator_account.data;
    assert_eq!(c.fullname, "Alice B");
    assert_eq!(c.bio, "new bio");
    assert_eq!(c.image_url, "https://img");
    assert_eq!(c.username, "alice");
    assert_eq!(c.owner, alice.key);

    let r = update_creator_page_settings(
        &mut by_alice, &pid(), 0, true, 5, "tea".into(), "#1234567".into(), "".into(),
    );
    assert_eq!(r, Err(ErrorCode::CapacityExceeded));
    assert_eq!(by_alice.creator_account.data.theme_color, "#794BC4");
}

#[test]
fn profile_update_reprovisions_storage() {
    let alice = wallet(1, 10_000);
    let mut creator = registered(&alice, "alice");
    creator.data_len = 1_000;
    creator.lamports = 5_000;
    let mut accounts = UpdateCreator { signer: alice, creator_account: creator };
    let r = update_creator_profile(&mut accounts, &pid(), 8_000, "A".into(), "b".into(), "".into());
    assert_eq!(r, Ok(()));
    assert_eq!(accounts.creator_account.data_len, CREATOR_SPACE);
    assert_eq!(accounts.creator_account.lamports, 8_000);
    assert_eq!(accounts.signer.lamports, 7_000);

    accounts.creator_account.data_len = 1_000;
    accounts.signer.lamports = 10;
    let r = update_creator_profile(&mut accounts, &pid(), 9_000, "Z".into(), "z".into(), "".into());
    assert_eq!(r, Err(ErrorCode::InsufficientFunds));
    assert_eq!(accounts.creator_account.data.fullname, "A");
    assert_eq!(accounts.creator_account.data_len, 1_000);
}

#[test]
fn reprovision_grows_and_shrinks() {
    let (mut lamports, mut len, mut payer) = (100u64, 10usize, 1_000u64);
    assert_eq!(reprovision(&mut lamports, &mut len, &mut payer, 20, 300), Ok(()));
    assert_eq!((lamports, len, payer), (300, 20, 800));
    assert_eq!(reprovision(&mut lamports, &mut len, &mut payer, 5, 50), Ok(()));
    assert_eq!((lamports, len, payer), (50, 5, 1_050));
    assert_eq!(reprovision(&mut lamports, &mut len, &mut payer, 5, 9_999), Ok(()));
    assert_eq!((lamports, len, payer), (50, 5, 1_050));
    assert_eq!(reprovision(&mut lamports, &mut len, &mut payer, 6, 10_000), Err(ErrorCode::InsufficientFunds));
    assert_eq!((lamports, len, payer), (50, 5, 1_050));
}

#[test]
fn transfer_and_claim_scenario() {
    let alice = wallet(1, 0);
    let mut creator = registered(&alice, "alice");
    creator.data.price_per_donation = 1_000;
    let supporter_transfer_account: Account<Option<SupporterTransfer>> =
        slot(Role::SupporterTransfer, creator.key.to_vec(), 0);
    let mut deposit = DepositSupporterTransfer {
        signer: wallet(2, 10_000),
        creator_account: creator,
        supporter_transfer_account,
    };
    let r = deposit_supporter_transfer_funds(&mut deposit, &pid(), "Bob".into(), "hi".into(), 4, 42);
    assert_eq!(r, Ok(()));
    assert_eq!(deposit.signer.lamports, 6_000);
    assert_eq!(deposit.creator_account.lamports, 9_000);
    assert_eq!(deposit.creator_account.data.supporters_count, 1);
    let t = deposit.supporter_transfer_account.data.clone().unwrap();
    assert_eq!(t.transfer_amount, 4_000);
    assert_eq!(t.donation_item, "coffee");

    let creator = deposit.creator_account;
    let payment: Account<Option<SupporterTransferPayment>> =
        slot(Role::SupporterTransferPayment, creator.key.to_vec(), 0);
    let mut by_bob = ClaimSupporterTransfer {
        signer: deposit.signer,
        creator_account: creator,
        supporter_transfer_payment_account: payment,
    };
    let r = claim_supporter_transfer_funds(&mut by_bob, &pid(), 1_000, 1_000, 43);
    assert_eq!(r, Err(ErrorCode::InvalidSigner));
    let mut claim = ClaimSupporterTransfer { signer: alice, ..by_bob };
    let r = claim_supporter_transfer_funds(&mut claim, &pid(), 1_000, 0, 43);
    assert_eq!(r, Err(ErrorCode::InvalidAmount));
    let r = claim_supporter_transfer_funds(&mut claim, &pid(), 1_000, 8_001, 43);
    assert_eq!(r, Err(ErrorCode::InsufficientFunds));
    assert_eq!(claim.creator_account.lamports, 9_000);
    assert!(claim.supporter_transfer_payment_account.data.is_none());
    let r = claim_supporter_transfer_funds(&mut claim, &pid(), 10_000, 1, 43);
    assert_eq!(r, Err(ErrorCode::InsufficientFunds));
    let r = claim_supporter_transfer_funds(&mut claim, &pid(), 1_000, 4_000, 43);
    assert_eq!(r, Ok(()));
    assert_eq!(claim.signer.lamports, 4_000);
    assert_eq!(claim.creator_account.lamports, 5_000);
    assert_eq!(claim.creator_account.data.withdrawn_funds, 4_000);
    assert_eq!(claim.creator_account.data.supporter_payments_count, 1);
    let p = claim.supporter_transfer_payment_account.data.unwrap();
    assert_eq!(p.amount, 4_000);
    assert_eq!(p.creator, claim.creator_account.key);
    assert_eq!(claim.supporter_transfer_payment_account.data_len, SUPPORTER_TRANSFER_PAYMENT_SPACE);
}

#[test]
fn priced_transfer_goes_to_receiver() {
    let alice = wallet(1, 0);
    let creator = registered(&alice, "alice");
    let supporter_transfer = slot(Role::SupporterTransfer, creator.key.to_vec(), 0);
    let mut accounts = CreateSupporterTransfer {
        supporter: wallet(2, 10_000),
        creator,
        receiver: wallet(3, 0),
        supporter_transfer,
    };
    let r = save_supporter_transfer(&mut accounts, &pid(), "Bob".into(), "hi".into(), "pizza".into(), 2, 0, 1);
    assert_eq!(r, Err(ErrorCode::InvalidTransferAmount));
    let r = save_supporter_transfer(&mut accounts, &pid(), "Bob".into(), "hi".into(), "pizza".into(), 2, 2_500, 1);
    assert_eq!(r, Ok(()));
    assert_eq!(accounts.supporter.lamports, 7_500);
    assert_eq!(accounts.receiver.lamports, 2_500);
    assert_eq!(accounts.creator.data.supporters_count, 1);
    let t = accounts.supporter_transfer.data.unwrap();
    assert_eq!(t.donation_item, "pizza");
    assert_eq!(t.quantity, 2);
    assert_eq!(t.transfer_amount, 2_500);
}

#[test]
fn transfer_conserves_value() {
    let (mut a, mut b) = (1_000u64, 500u64);
    assert_eq!(transfer(&mut a, &mut b, 300), Ok(()));
    assert_eq!((a, b), (700, 800));
    assert_eq!(a + b, 1_500);
    assert_eq!(transfer(&mut a, &mut b, 701), Err(ErrorCode::InsufficientFunds));
    assert_eq!((a, b), (700, 800));
    let mut full = u64::MAX;
    assert_eq!(transfer(&mut a, &mut full, 1), Err(ErrorCode::ArithmeticOverflow));
    assert_eq!(a, 700);
}

#[test]
fn text_capacity_and_messages() {
    assert!(fits(&"é".to_string(), 2));
    assert!(!fits(&"é".to_string(), 1));
    assert_eq!(ErrorCode::UsernameAlreadyExists.message(), "Username already exists");
}

#[test]
fn claim_down_to_the_floor_succeeds() {
    let alice = wallet(1, 0);
    let mut creator = registered(&alice, "alice");
    creator.lamports = 3_000;
    let payment = slot(Role::SupporterTransferPayment, creator.key.to_vec(), 0);
    let mut claim = ClaimSupporterTransfer {
        signer: alice,
        creator_account: creator,
        supporter_transfer_payment_account: payment,
    };
    let r = claim_supporter_transfer_funds(&mut claim, &pid(), 1_000, 2_000, 7);
    assert_eq!(r, Ok(()));
    assert_eq!(claim.creator_account.lamports, 1_000);
    assert_eq!(claim.signer.lamports, 2_000);
}

#[test]
fn zero_identity_cannot_register() {
    let nobody = Wallet { key: Address::zero(), lamports: 0 };
    let mut accounts = registration(&nobody, "ghost");
    let r = register_creator(&mut accounts, &pid(), "ghost".into(), "G".into(), "g".into());
    assert_eq!(r, Err(ErrorCode::InvalidSigner));
    assert!(accounts.creator_account.data.is_none());
    assert!(accounts.creator_username_account.data.is_none());
}
