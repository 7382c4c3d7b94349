//! Supporter donations and transfers, and the creator's claims on them.

use vstd::prelude::*;
use crate::address::{check_record_address, seeds_check, Address, Role};
use crate::error::ErrorCode;
use crate::ledger::{transfer, Account, Wallet};
use crate::records::{
    fits, text_len, Creator, SupporterDonation, SupporterTransfer, SupporterTransferPayment,
    MAX_DONATION_ITEM_LEN, MAX_SUPPORTER_MESSAGE_LEN, MAX_SUPPORTER_NAME_LEN,
    SUPPORTER_DONATION_SPACE, SUPPORTER_TRANSFER_PAYMENT_SPACE, SUPPORTER_TRANSFER_SPACE,
};

verus! {

/// The percentage of a supporter donation that goes to the fee collector.
pub const SUPPORTER_DONATION_FEE_PERCENTAGE: u64 = 1;

/// The fee on a gross amount: the percentage, rounded down.
pub open spec fn fee_of(gross: int) -> int {
    gross * SUPPORTER_DONATION_FEE_PERCENTAGE / 100
}

/// Splits a gross amount into the fee and what is left for the creator; the
/// two parts add up to the gross amount exactly.
pub fn split_fee(gross: u64) -> (r: (u64, u64))
    ensures
        r.0 == fee_of(gross as int),
        r.0 + r.1 == gross,
{
    let fee = gross * SUPPORTER_DONATION_FEE_PERCENTAGE / 100;
    (fee, gross - fee)
}

/// The fee never exceeds the gross amount, so the creator's part is never
/// negative.
pub proof fn lemma_fee_within_gross(gross: u64)
    ensures
        0 <= fee_of(gross as int) <= gross,
{
}

/// What `price` times `quantity` comes to.
pub open spec fn gross_of(price: u64, quantity: u16) -> int {
    price * quantity
}

/// The accounts that a supporter donation touches.
#[derive(Clone, Debug)]
pub struct SendSupporterDonation {
    pub signer: Wallet,
    pub creator_account: Account<Creator>,
    pub supporter_donation_account: Account<Option<SupporterDonation>>,
    pub receiver: Wallet,
    pub fee_collector: Wallet,
}

/// What `send_supporter_donation` returns, checked in this order.
pub open spec fn send_supporter_donation_outcome(
    accounts: SendSupporterDonation,
    program_id: Address,
    name: String,
    message: String,
    quantity: u16,
) -> Result<(), ErrorCode> {
    let creator = accounts.creator_account.data;
    let gross = gross_of(creator.price_per_donation, quantity);
    let fee = fee_of(gross);
    if gross > u64::MAX {
        Err(ErrorCode::ArithmeticOverflow)
    } else if gross == 0 {
        Err(ErrorCode::InvalidAmount)
    } else if text_len(&name) > MAX_SUPPORTER_NAME_LEN || text_len(&message) > MAX_SUPPORTER_MESSAGE_LEN
        || text_len(&creator.donation_item) > MAX_DONATION_ITEM_LEN {
        Err(ErrorCode::CapacityExceeded)
    } else if accounts.supporter_donation_account.data is Some {
        Err(ErrorCode::AccountAlreadyInUse)
    } else if seeds_check(
        Role::SupporterDonation,
        accounts.creator_account.key@,
        creator.supporters_count,
        program_id@,
        accounts.supporter_donation_account.key@,
    ) is Err {
        Err(ErrorCode::ConstraintSeeds)
    } else if accounts.signer.lamports < gross {
        Err(ErrorCode::InsufficientFunds)
    } else if accounts.fee_collector.lamports + fee > u64::MAX || accounts.receiver.lamports + (gross
        - fee) > u64::MAX || creator.supporter_donations_amount + gross > u64::MAX
        || creator.supporters_count == u64::MAX {
        Err(ErrorCode::ArithmeticOverflow)
    } else {
        Ok(())
    }
}

/// A supporter buys `quantity` of the creator's items at the creator's price:
/// the fee goes to the fee collector, the rest to the receiver, a receipt is
/// written at the creator's next donation address, and the creator's total
/// and supporter count grow.
pub fn send_supporter_donation(
    accounts: &mut SendSupporterDonation,
    program_id: &Address,
    name: String,
    message: String,
    quantity: u16,
    timestamp: i64,
) -> (r: Result<(), ErrorCode>)
    ensures
        r == send_supporter_donation_outcome(*old(accounts), *program_id, name, message, quantity),
        r is Ok ==> final(accounts).signer.lamports + final(accounts).receiver.lamports
            + final(accounts).fee_collector.lamports == old(accounts).signer.lamports
            + old(accounts).receiver.lamports + old(accounts).fee_collector.lamports,
        r is Ok ==> {
            let before = *old(accounts);
            let after = *final(accounts);
            let creator = before.creator_account.data;
            let gross = gross_of(creator.price_per_donation, quantity);
            let fee = fee_of(gross);
            &&& after.signer == (Wallet { lamports: (before.signer.lamports - gross) as u64, ..before.signer })
            &&& after.fee_collector == (Wallet {
                lamports: (before.fee_collector.lamports + fee) as u64,
                ..before.fee_collector
            })
            &&& after.receiver == (Wallet {
                lamports: (before.receiver.lamports + (gross - fee)) as u64,
                ..before.receiver
            })
            &&& after.creator_account == (Account {
                data: (Creator {
                    supporters_count: (creator.supporters_count + 1) as u64,
                    supporter_donations_amount: (creator.supporter_donations_amount + gross) as u64,
                    ..creator
                }),
                ..before.creator_account
            })
            &&& after.supporter_donation_account == (Account {
                data_len: SUPPORTER_DONATION_SPACE,
                data: Some(
                    SupporterDonation {
                        supporter: before.signer.key,
                        creator: before.creator_account.key,
                        name: name,
                        message: message,
                        amount: gross as u64,
                        fees: fee as u64,
                        item: creator.donation_item,
                        quantity: quantity,
                        timestamp: timestamp,
                        bump: seeds_check(
                            Role::SupporterDonation,
                            before.creator_account.key@,
                            creator.supporters_count,
                            program_id@,
                            before.supporter_donation_account.key@,
                        )->Ok_0,
                    },
                ),
                ..before.supporter_donation_account
            })
        },
        r is Err ==> *final(accounts) == *old(accounts),
{
    let gross = match accounts.creator_account.data.price_per_donation.checked_mul(quantity as u64) {
        Some(g) => g,
        None => return Err(ErrorCode::ArithmeticOverflow),
    };
    if gross == 0 {
        return Err(ErrorCode::InvalidAmount);
    }
    if !fits(&name, MAX_SUPPORTER_NAME_LEN) || !fits(&message, MAX_SUPPORTER_MESSAGE_LEN) || !fits(
        &accounts.creator_account.data.donation_item,
        MAX_DONATION_ITEM_LEN,
    ) {
        return Err(ErrorCode::CapacityExceeded);
    }
    if accounts.supporter_donation_account.data.is_some() {
        return Err(ErrorCode::AccountAlreadyInUse);
    }
    let bump = match check_record_address(
        Role::SupporterDonation,
        accounts.creator_account.key.to_vec(),
        accounts.creator_account.data.supporters_count,
        program_id,
        &accounts.supporter_donation_account.key,
    ) {
        Ok(b) => b,
        Err(e) => return Err(e),
    };
    let (fee, net) = split_fee(gross);
    if accounts.signer.lamports < gross {
        return Err(ErrorCode::InsufficientFunds);
    }
    if accounts.fee_collector.lamports > u64::MAX - fee || accounts.receiver.lamports > u64::MAX - net
        || accounts.creator_account.data.supporter_donations_amount > u64::MAX - gross
        || accounts.creator_account.data.supporters_count == u64::MAX {
        return Err(ErrorCode::ArithmeticOverflow);
    }
    let paid_fee = transfer(&mut accounts.signer.lamports, &mut accounts.fee_collector.lamports, fee);
    let paid_net = transfer(&mut accounts.signer.lamports, &mut accounts.receiver.lamports, net);
    assert(paid_fee is Ok && paid_net is Ok);
    accounts.supporter_donation_account.data = Some(
        SupporterDonation {
            supporter: accounts.signer.key,
            creator: accounts.creator_account.key,
            name,
            message,
            amount: gross,
            fees: fee,
            item: accounts.creator_account.data.donation_item.clone(),
            quantity,
            timestamp,
            bump,
        },
    );
    accounts.supporter_donation_account.data_len = SUPPORTER_DONATION_SPACE;
    accounts.creator_account.data.supporter_donations_amount = accounts.creator_account.data.supporter_donations_amount
        + gross;
    accounts.creator_account.data.supporters_count = accounts.creator_account.data.supporters_count
        + 1;
    Ok(())
}

/// The accounts that a deposit held for the creator touches.
#[derive(Clone, Debug)]
pub struct DepositSupporterTransfer {
    pub signer: Wallet,
    pub creator_account: Account<Creator>,
    pub supporter_transfer_account: Account<Option<SupporterTransfer>>,
}

/// What `deposit_supporter_transfer_funds` returns, checked in this order.
pub open spec fn deposit_supporter_transfer_outcome(
    accounts: DepositSupporterTransfer,
    program_id: Address,
    name: String,
    message: String,
    quantity: u16,
) -> Result<(), ErrorCode> {
    let creator = accounts.creator_account.data;
    let gross = gross_of(creator.price_per_donation, quantity);
    if gross > u64::MAX {
        Err(ErrorCode::ArithmeticOverflow)
    } else if gross == 0 {
        Err(ErrorCode::InvalidAmount)
    } else if text_len(&name) > MAX_SUPPORTER_NAME_LEN || text_len(&message) > MAX_SUPPORTER_MESSAGE_LEN
        || text_len(&creator.donation_item) > MAX_DONATION_ITEM_LEN {
        Err(ErrorCode::CapacityExceeded)
    } else if accounts.supporter_transfer_account.data is Some {
        Err(ErrorCode::AccountAlreadyInUse)
    } else if seeds_check(
        Role::SupporterTransfer,
        accounts.creator_account.key@,
        creator.supporters_count,
        program_id@,
        accounts.supporter_transfer_account.key@,
    ) is Err {
        Err(ErrorCode::ConstraintSeeds)
    } else if accounts.signer.lamports < gross {
        Err(ErrorCode::InsufficientFunds)
    } else if accounts.creator_account.lamports + gross > u64::MAX || creator.supporters_count
        == u64::MAX {
        Err(ErrorCode::ArithmeticOverflow)
    } else {
        Ok(())
    }
}

/// A supporter pays for `quantity` of the creator's items at the creator's
/// price; the value is held on the creator's record until the creator claims
/// it, a receipt is written at the creator's next transfer address, and the
/// supporter count grows.
pub fn deposit_supporter_transfer_funds(
    accounts: &mut DepositSupporterTransfer,
    program_id: &Address,
    name: String,
    message: String,
    quantity: u16,
    timestamp: i64,
) -> (r: Result<(), ErrorCode>)
    ensures
        r == deposit_supporter_transfer_outcome(*old(accounts), *program_id, name, message, quantity),
        r is Ok ==> final(accounts).signer.lamports + final(accounts).creator_account.lamports
            == old(accounts).signer.lamports + old(accounts).creator_account.lamports,
        r is Ok ==> {
            let before = *old(accounts);
            let after = *final(accounts);
            let creator = before.creator_account.data;
            let gross = gross_of(creator.price_per_donation, quantity);
            &&& after.signer == (Wallet { lamports: (before.signer.lamports - gross) as u64, ..before.signer })
            &&& after.creator_account == (Account {
                lamports: (before.creator_account.lamports + gross) as u64,
                data: (Creator { supporters_count: (creator.supporters_count + 1) as u64, ..creator }),
                ..before.creator_account
            })
            &&& after.supporter_transfer_account == (Account {
                data_len: SUPPORTER_TRANSFER_SPACE,
                data: Some(
                    SupporterTransfer {
                        supporter: before.signer.key,
                        creator: before.creator_account.key,
                        name: name,
                        message: message,
                        transfer_amount: gross as u64,
                        donation_item: creator.donation_item,
                        quantity: quantity,
                        timestamp: timestamp,
                        bump: seeds_check(
                            Role::SupporterTransfer,
                            before.creator_account.key@,
                            creator.supporters_count,
                            program_id@,
                            before.supporter_transfer_account.key@,
                        )->Ok_0,
                    },
                ),
                ..before.supporter_transfer_account
            })
        },
        r is Err ==> *final(accounts) == *old(accounts),
{
    let gross = match accounts.creator_account.data.price_per_donation.checked_mul(quantity as u64) {
        Some(g) => g,
        None => return Err(ErrorCode::ArithmeticOverflow),
    };
    if gross == 0 {
        return Err(ErrorCode::InvalidAmount);
    }
    if !fits(&name, MAX_SUPPORTER_NAME_LEN) || !fits(&message, MAX_SUPPORTER_MESSAGE_LEN) || !fits(
        &accounts.creator_account.data.donation_item,
        MAX_DONATION_ITEM_LEN,
    ) {
        return Err(ErrorCode::CapacityExceeded);
    }
    if accounts.supporter_transfer_account.data.is_some() {
        return Err(ErrorCode::AccountAlreadyInUse);
    }
    let bump = match check_record_address(
        Role::SupporterTransfer,
        accounts.creator_account.key.to_vec(),
        accounts.creator_account.data.supporters_count,
        program_id,
        &accounts.supporter_transfer_account.key,
    ) {
        Ok(b) => b,
        Err(e) => return Err(e),
    };
    if accounts.signer.lamports < gross {
        return Err(ErrorCode::InsufficientFunds);
    }
    if accounts.creator_account.lamports > u64::MAX - gross
        || accounts.creator_account.data.supporters_count == u64::MAX {
        return Err(ErrorCode::ArithmeticOverflow);
    }
    let paid = transfer(&mut accounts.signer.lamports, &mut accounts.creator_account.lamports, gross);
    assert(paid is Ok);
    accounts.supporter_transfer_account.data = Some(
        SupporterTransfer {
            supporter: accounts.signer.key,
            creator: accounts.creator_account.key,
            name,
            message,
            transfer_amount: gross,
            donation_item: accounts.creator_account.data.donation_item.clone(),
            quantity,
            timestamp,
            bump,
        },
    );
    accounts.supporter_transfer_account.data_len = SUPPORTER_TRANSFER_SPACE;
    accounts.creator_account.data.supporters_count = accounts.creator_account.data.supporters_count
        + 1;
    Ok(())
}

/// The accounts that a priced transfer straight to a receiver touches.
#[derive(Clone, Debug)]
pub struct CreateSupporterTransfer {
    pub supporter: Wallet,
    pub creator: Account<Creator>,
    pub receiver: Wallet,
    pub supporter_transfer: Account<Option<SupporterTransfer>>,
}

/// What `save_supporter_transfer` returns, checked in this order.
pub open spec fn save_supporter_transfer_outcome(
    accounts: CreateSupporterTransfer,
    program_id: Address,
    name: String,
    message: String,
    item_type: String,
    amount: u64,
) -> Result<(), ErrorCode> {
    if amount == 0 {
        Err(ErrorCode::InvalidTransferAmount)
    } else if text_len(&name) > MAX_SUPPORTER_NAME_LEN || text_len(&message) > MAX_SUPPORTER_MESSAGE_LEN
        || text_len(&item_type) > MAX_DONATION_ITEM_LEN {
        Err(ErrorCode::CapacityExceeded)
    } else if accounts.supporter_transfer.data is Some {
        Err(ErrorCode::AccountAlreadyInUse)
    } else if seeds_check(
        Role::SupporterTransfer,
        accounts.creator.key@,
        accounts.creator.data.supporters_count,
        program_id@,
        accounts.supporter_transfer.key@,
    ) is Err {
        Err(ErrorCode::ConstraintSeeds)
    } else if accounts.supporter.lamports < amount {
        Err(ErrorCode::InsufficientFunds)
    } else if accounts.receiver.lamports + amount > u64::MAX || accounts.creator.data.supporters_count
        == u64::MAX {
        Err(ErrorCode::ArithmeticOverflow)
    } else {
        Ok(())
    }
}

/// A supporter pays `amount` for `quantity` items of a type of its choosing,
/// straight to the receiver; a receipt is written at the creator's next
/// transfer address and the supporter count grows. The amount is the priced
/// total already converted to the smallest unit.
pub fn save_supporter_transfer(
    accounts: &mut CreateSupporterTransfer,
    program_id: &Address,
    name: String,
    message: String,
    item_type: String,
    quantity: u16,
    amount: u64,
    timestamp: i64,
) -> (r: Result<(), ErrorCode>)
    ensures
        r == save_supporter_transfer_outcome(*old(accounts), *program_id, name, message, item_type, amount),
        r is Ok ==> final(accounts).supporter.lamports + final(accounts).receiver.lamports
            == old(accounts).supporter.lamports + old(accounts).receiver.lamports,
        r is Ok ==> {
            let before = *old(accounts);
            let after = *final(accounts);
            &&& after.supporter == (Wallet {
                lamports: (before.supporter.lamports - amount) as u64,
                ..before.supporter
            })
            &&& after.receiver == (Wallet { lamports: (before.receiver.lamports + amount) as u64, ..before.receiver })
            &&& after.creator == (Account {
                data: (Creator {
                    supporters_count: (before.creator.data.supporters_count + 1) as u64,
                    ..before.creator.data
                }),
                ..before.creator
            })
            &&& after.supporter_transfer == (Account {
                data_len: SUPPORTER_TRANSFER_SPACE,
                data: Some(
                    SupporterTransfer {
                        supporter: before.supporter.key,
                        creator: before.creator.key,
                        name: name,
                        message: message,
                        transfer_amount: amount,
                        donation_item: item_type,
                        quantity: quantity,
                        timestamp: timestamp,
                        bump: seeds_check(
                            Role::SupporterTransfer,
                            before.creator.key@,
                            before.creator.data.supporters_count,
                            program_id@,
                            before.supporter_transfer.key@,
                        )->Ok_0,
                    },
                ),
                ..before.supporter_transfer
            })
        },
        r is Err ==> *final(accounts) == *old(accounts),
{
    if amount == 0 {
        return Err(ErrorCode::InvalidTransferAmount);
    }
    if !fits(&name, MAX_SUPPORTER_NAME_LEN) || !fits(&message, MAX_SUPPORTER_MESSAGE_LEN) || !fits(
        &item_type,
        MAX_DONATION_ITEM_LEN,
    ) {
        return Err(ErrorCode::CapacityExceeded);
    }
    if accounts.supporter_transfer.data.is_some() {
        return Err(ErrorCode::AccountAlreadyInUse);
    }
    let bump = match check_record_address(
        Role::SupporterTransfer,
        accounts.creator.key.to_vec(),
        accounts.creator.data.supporters_count,
        program_id,
        &accounts.supporter_transfer.key,
    ) {
        Ok(b) => b,
        Err(e) => return Err(e),
    };
    if accounts.supporter.lamports < amount {
        return Err(ErrorCode::InsufficientFunds);
    }
    if accounts.receiver.lamports > u64::MAX - amount || accounts.creator.data.supporters_count
        == u64::MAX {
        return Err(ErrorCode::ArithmeticOverflow);
    }
    let paid = transfer(&mut accounts.supporter.lamports, &mut accounts.receiver.lamports, amount);
    assert(paid is Ok);
    accounts.supporter_transfer.data = Some(
        SupporterTransfer {
            supporter: accounts.supporter.key,
            creator: accounts.creator.key,
            name,
            message,
            transfer_amount: amount,
            donation_item: item_type,
            quantity,
            timestamp,
            bump,
        },
    );
    accounts.supporter_transfer.data_len = SUPPORTER_TRANSFER_SPACE;
    accounts.creator.data.supporters_count = accounts.creator.data.supporters_count + 1;
    Ok(())
}

/// The accounts that a creator's claim touches.
#[derive(Clone, Debug)]
pub struct ClaimSupporterTransfer {
    pub signer: Wallet,
    pub creator_account: Account<Creator>,
    pub supporter_transfer_payment_account: Account<Option<SupporterTransferPayment>>,
}

/// What `claim_supporter_transfer_funds` returns, checked in this order.
pub open spec fn claim_supporter_transfer_outcome(
    accounts: ClaimSupporterTransfer,
    program_id: Address,
    reserve_floor: u64,
    amount: u64,
) -> Result<(), ErrorCode> {
    let creator = accounts.creator_account.data;
    if amount == 0 {
        Err(ErrorCode::InvalidAmount)
    } else if creator.owner@ != accounts.signer.key@ {
        Err(ErrorCode::InvalidSigner)
    } else if accounts.supporter_transfer_payment_account.data is Some {
        Err(ErrorCode::AccountAlreadyInUse)
    } else if seeds_check(
        Role::SupporterTransferPayment,
        accounts.creator_account.key@,
        creator.supporter_payments_count,
        program_id@,
        accounts.supporter_transfer_payment_account.key@,
    ) is Err {
        Err(ErrorCode::ConstraintSeeds)
    } else if accounts.creator_account.lamports - reserve_floor < amount {
        Err(ErrorCode::InsufficientFunds)
    } else if accounts.signer.lamports + amount > u64::MAX || creator.withdrawn_funds + amount
        > u64::MAX || creator.supporter_payments_count == u64::MAX {
        Err(ErrorCode::ArithmeticOverflow)
    } else {
        Ok(())
    }
}

/// The creator's owner takes `amount` of the value held on the creator's
/// record, which must keep at least `reserve_floor`, the minimum balance for
/// its storage; a receipt is written at the creator's next payment address,
/// and the withdrawn total and payment count grow.
pub fn claim_supporter_transfer_funds(
    accounts: &mut ClaimSupporterTransfer,
    program_id: &Address,
    reserve_floor: u64,
    amount: u64,
    timestamp: i64,
) -> (r: Result<(), ErrorCode>)
    ensures
        r == claim_supporter_transfer_outcome(*old(accounts), *program_id, reserve_floor, amount),
        r is Ok ==> final(accounts).creator_account.lamports >= reserve_floor,
        r is Ok ==> final(accounts).creator_account.lamports + final(accounts).signer.lamports
            == old(accounts).creator_account.lamports + old(accounts).signer.lamports,
        r is Ok ==> {
            let before = *old(accounts);
            let after = *final(accounts);
            let creator = before.creator_account.data;
            &&& after.signer == (Wallet { lamports: (before.signer.lamports + amount) as u64, ..before.signer })
            &&& after.creator_account == (Account {
                lamports: (before.creator_account.lamports - amount) as u64,
                data: (Creator {
                    withdrawn_funds: (creator.withdrawn_funds + amount) as u64,
                    supporter_payments_count: (creator.supporter_payments_count + 1) as u64,
                    ..creator
                }),
                ..before.creator_account
            })
            &&& after.supporter_transfer_payment_account == (Account {
                data_len: SUPPORTER_TRANSFER_PAYMENT_SPACE,
                data: Some(
                    SupporterTransferPayment {
                        creator: before.creator_account.key,
                        amount: amount,
                        timestamp: timestamp,
                        bump: seeds_check(
                            Role::SupporterTransferPayment,
                            before.creator_account.key@,
                            creator.supporter_payments_count,
                            program_id@,
                            before.supporter_transfer_payment_account.key@,
                        )->Ok_0,
                    },
                ),
                ..before.supporter_transfer_payment_account
            })
        },
        r is Err ==> *final(accounts) == *old(accounts),
{
    if amount == 0 {
        return Err(ErrorCode::InvalidAmount);
    }
    if !accounts.creator_account.data.owner.same_as(&accounts.signer.key) {
        return Err(ErrorCode::InvalidSigner);
    }
    if accounts.supporter_transfer_payment_account.data.is_some() {
        return Err(ErrorCode::AccountAlreadyInUse);
    }
    let bump = match check_record_address(
        Role::SupporterTransferPayment,
        accounts.creator_account.key.to_vec(),
        accounts.creator_account.data.supporter_payments_count,
        program_id,
        &accounts.supporter_transfer_payment_account.key,
    ) {
        Ok(b) => b,
        Err(e) => return Err(e),
    };
    if accounts.creator_account.lamports < reserve_floor || accounts.creator_account.lamports
        - reserve_floor < amount {
        return Err(ErrorCode::InsufficientFunds);
    }
    if accounts.signer.lamports > u64::MAX - amount || accounts.creator_account.data.withdrawn_funds
        > u64::MAX - amount || accounts.creator_account.data.supporter_payments_count == u64::MAX {
        return Err(ErrorCode::ArithmeticOverflow);
    }
    let paid = transfer(&mut accounts.creator_account.lamports, &mut accounts.signer.lamports, amount);
    assert(paid is Ok);
    accounts.creator_account.data.withdrawn_funds = accounts.creator_account.data.withdrawn_funds
        + amount;
    accounts.supporter_transfer_payment_account.data = Some(
        SupporterTransferPayment { creator: accounts.creator_account.key, amount, timestamp, bump },
    );
    accounts.supporter_transfer_payment_account.data_len = SUPPORTER_TRANSFER_PAYMENT_SPACE;
    accounts.creator_account.data.supporter_payments_count = accounts.creator_account.data.supporter_payments_count
        + 1;
    Ok(())
}

/// A claim of a positive amount by anyone but the creator's owner fails with
/// `InvalidSigner`, and so leaves the creator's record as it is.
pub proof fn lemma_claim_needs_owner(
    accounts: ClaimSupporterTransfer,
    program_id: Address,
    reserve_floor: u64,
    amount: u64,
)
    requires
        accounts.creator_account.data.owner@ != accounts.signer.key@,
        amount > 0,
    ensures
        claim_supporter_transfer_outcome(accounts, program_id, reserve_floor, amount) == Err::<
            (),
            ErrorCode,
        >(ErrorCode::InvalidSigner),
{
}

/// A claim by the owner never takes the creator's record below its reserve
/// floor: it fails with `InsufficientFunds` exactly when the balance less the
/// floor is below the amount, once the amount, owner and receipt slot are
/// in order.
pub proof fn lemma_claim_keeps_reserve_floor(
    accounts: ClaimSupporterTransfer,
    program_id: Address,
    reserve_floor: u64,
    amount: u64,
)
    requires
        amount > 0,
        accounts.creator_account.data.owner@ == accounts.signer.key@,
        accounts.supporter_transfer_payment_account.data is None,
        seeds_check(
            Role::SupporterTransferPayment,
            accounts.creator_account.key@,
            accounts.creator_account.data.supporter_payments_count,
            program_id@,
            accounts.supporter_transfer_payment_account.key@,
        ) is Ok,
    ensures
        accounts.creator_account.lamports - reserve_floor < amount <==> claim_supporter_transfer_outcome(
            accounts,
            program_id,
            reserve_floor,
            amount,
        ) == Err::<(), ErrorCode>(ErrorCode::InsufficientFunds),
{
}

} // verus!
