//! Opening campaigns, donating to them and withdrawing from them.

use vstd::prelude::*;
use crate::address::{check_record_address, seeds_check, Address, Role};
use crate::error::ErrorCode;
use crate::ledger::{transfer, Account, Wallet};
use crate::records::{
    fits, text_len, Campaign, Creator, CAMPAIGN_SPACE, MAX_CAMPAIGN_DESCRIPTION_LEN,
    MAX_CAMPAIGN_NAME_LEN,
};

verus! {

/// The accounts that opening a campaign touches.
#[derive(Clone, Debug)]
pub struct CreateCampaign {
    pub signer: Wallet,
    pub creator_account: Account<Creator>,
    pub campaign_account: Account<Option<Campaign>>,
}

/// The accounts that a campaign donation touches.
#[derive(Clone, Debug)]
pub struct MakeCampaignDonation {
    pub signer: Wallet,
    pub campaign_account: Account<Campaign>,
}

/// The accounts that a campaign withdrawal touches.
#[derive(Clone, Debug)]
pub struct WithdrawCampaignFunds {
    pub signer: Wallet,
    pub campaign_account: Account<Campaign>,
}

/// What `create_campaign` returns, checked in this order.
pub open spec fn create_campaign_outcome(
    accounts: CreateCampaign,
    program_id: Address,
    name: String,
    description: String,
) -> Result<(), ErrorCode> {
    let creator_account = accounts.creator_account;
    let campaign_account = accounts.campaign_account;
    if text_len(&name) > MAX_CAMPAIGN_NAME_LEN || text_len(&description) > MAX_CAMPAIGN_DESCRIPTION_LEN {
        Err(ErrorCode::CapacityExceeded)
    } else if campaign_account.data is Some {
        Err(ErrorCode::AccountAlreadyInUse)
    } else if seeds_check(
        Role::Campaign,
        creator_account.key@,
        creator_account.data.campaigns_count,
        program_id@,
        campaign_account.key@,
    ) is Err {
        Err(ErrorCode::ConstraintSeeds)
    } else if creator_account.data.campaigns_count == u64::MAX {
        Err(ErrorCode::ArithmeticOverflow)
    } else {
        Ok(())
    }
}

/// Any caller opens a campaign, which it owns, at the creator's next campaign
/// address; nothing is donated or withdrawn yet, and the creator's campaign
/// count grows.
pub fn create_campaign(
    accounts: &mut CreateCampaign,
    program_id: &Address,
    name: String,
    description: String,
    target_amount: u64,
    is_target_amount_visible: bool,
) -> (r: Result<(), ErrorCode>)
    ensures
        r == create_campaign_outcome(*old(accounts), *program_id, name, description),
        r is Ok ==> {
            let before = *old(accounts);
            let after = *final(accounts);
            &&& after.signer == before.signer
            &&& after.creator_account == (Account {
                data: (Creator {
                    campaigns_count: (before.creator_account.data.campaigns_count + 1) as u64,
                    ..before.creator_account.data
                }),
                ..before.creator_account
            })
            &&& after.campaign_account.key == before.campaign_account.key
            &&& after.campaign_account.lamports == before.campaign_account.lamports
            &&& after.campaign_account.data_len == CAMPAIGN_SPACE
            &&& after.campaign_account.data == Some(
                Campaign {
                    owner: before.signer.key,
                    name: name,
                    description: description,
                    target_amount: target_amount,
                    amount_donated: 0,
                    amount_withdrawn: 0,
                    is_target_amount_visible: is_target_amount_visible,
                    bump: seeds_check(
                        Role::Campaign,
                        before.creator_account.key@,
                        before.creator_account.data.campaigns_count,
                        program_id@,
                        before.campaign_account.key@,
                    )->Ok_0,
                },
            )
        },
        r is Err ==> *final(accounts) == *old(accounts),
{
    if !fits(&name, MAX_CAMPAIGN_NAME_LEN) || !fits(&description, MAX_CAMPAIGN_DESCRIPTION_LEN) {
        return Err(ErrorCode::CapacityExceeded);
    }
    if accounts.campaign_account.data.is_some() {
        return Err(ErrorCode::AccountAlreadyInUse);
    }
    let bump = match check_record_address(
        Role::Campaign,
        accounts.creator_account.key.to_vec(),
        accounts.creator_account.data.campaigns_count,
        program_id,
        &accounts.campaign_account.key,
    ) {
        Ok(b) => b,
        Err(e) => return Err(e),
    };
    if accounts.creator_account.data.campaigns_count == u64::MAX {
        return Err(ErrorCode::ArithmeticOverflow);
    }
    accounts.campaign_account.data = Some(
        Campaign {
            owner: accounts.signer.key,
            name,
            description,
            target_amount,
            amount_donated: 0,
            amount_withdrawn: 0,
            is_target_amount_visible,
            bump,
        },
    );
    accounts.campaign_account.data_len = CAMPAIGN_SPACE;
    accounts.creator_account.data.campaigns_count = accounts.creator_account.data.campaigns_count + 1;
    Ok(())
}

/// What `make_campaign_donation` returns, checked in this order.
pub open spec fn make_campaign_donation_outcome(accounts: MakeCampaignDonation, amount: u64) -> Result<(), ErrorCode> {
    let campaign_account = accounts.campaign_account;
    if amount == 0 {
        Err(ErrorCode::InvalidAmount)
    } else if accounts.signer.lamports < amount {
        Err(ErrorCode::InsufficientFunds)
    } else if campaign_account.lamports + amount > u64::MAX || campaign_account.data.amount_donated
        + amount > u64::MAX {
        Err(ErrorCode::ArithmeticOverflow)
    } else {
        Ok(())
    }
}

/// Any caller gives `amount` to a campaign: the value moves onto the
/// campaign's record and its donated total grows.
pub fn make_campaign_donation(accounts: &mut MakeCampaignDonation, amount: u64) -> (r: Result<(), ErrorCode>)
    ensures
        r == make_campaign_donation_outcome(*old(accounts), amount),
        r is Ok ==> final(accounts).signer.lamports + final(accounts).campaign_account.lamports
            == old(accounts).signer.lamports + old(accounts).campaign_account.lamports,
        r is Ok ==> {
            let before = *old(accounts);
            let after = *final(accounts);
            &&& after.signer == (Wallet { lamports: (before.signer.lamports - amount) as u64, ..before.signer })
            &&& after.campaign_account == (Account {
                lamports: (before.campaign_account.lamports + amount) as u64,
                data: (Campaign {
                    amount_donated: (before.campaign_account.data.amount_donated + amount) as u64,
                    ..before.campaign_account.data
                }),
                ..before.campaign_account
            })
        },
        r is Err ==> *final(accounts) == *old(accounts),
{
    if amount == 0 {
        return Err(ErrorCode::InvalidAmount);
    }
    if accounts.signer.lamports < amount {
        return Err(ErrorCode::InsufficientFunds);
    }
    if accounts.campaign_account.lamports > u64::MAX - amount
        || accounts.campaign_account.data.amount_donated > u64::MAX - amount {
        return Err(ErrorCode::ArithmeticOverflow);
    }
    let paid = transfer(&mut accounts.signer.lamports, &mut accounts.campaign_account.lamports, amount);
    assert(paid is Ok);
    accounts.campaign_account.data.amount_donated = accounts.campaign_account.data.amount_donated
        + amount;
    Ok(())
}

/// What `withdraw_campaign_funds` returns, checked in this order.
pub open spec fn withdraw_campaign_funds_outcome(
    accounts: WithdrawCampaignFunds,
    reserve_floor: u64,
    amount: u64,
) -> Result<(), ErrorCode> {
    let campaign_account = accounts.campaign_account;
    if campaign_account.data.owner@ != accounts.signer.key@ {
        Err(ErrorCode::InvalidSigner)
    } else if campaign_account.lamports - reserve_floor < amount {
        Err(ErrorCode::InsufficientFundsAfterWithdraw)
    } else if accounts.signer.lamports + amount > u64::MAX || campaign_account.data.amount_withdrawn
        + amount > u64::MAX {
        Err(ErrorCode::ArithmeticOverflow)
    } else {
        Ok(())
    }
}

/// The campaign's owner takes `amount` off the campaign's record, which must
/// keep at least `reserve_floor`, the minimum balance for its storage; the
/// withdrawn total grows.
pub fn withdraw_campaign_funds(
    accounts: &mut WithdrawCampaignFunds,
    reserve_floor: u64,
    amount: u64,
) -> (r: Result<(), ErrorCode>)
    ensures
        r == withdraw_campaign_funds_outcome(*old(accounts), reserve_floor, amount),
        r is Ok ==> final(accounts).campaign_account.lamports >= reserve_floor,
        r is Ok ==> final(accounts).signer.lamports + final(accounts).campaign_account.lamports
            == old(accounts).signer.lamports + old(accounts).campaign_account.lamports,
        r is Ok ==> {
            let before = *old(accounts);
            let after = *final(accounts);
            &&& after.signer == (Wallet { lamports: (before.signer.lamports + amount) as u64, ..before.signer })
            &&& after.campaign_account == (Account {
                lamports: (before.campaign_account.lamports - amount) as u64,
                data: (Campaign {
                    amount_withdrawn: (before.campaign_account.data.amount_withdrawn + amount) as u64,
                    ..before.campaign_account.data
                }),
                ..before.campaign_account
            })
        },
        r is Err ==> *final(accounts) == *old(accounts),
{
    if !accounts.campaign_account.data.owner.same_as(&accounts.signer.key) {
        return Err(ErrorCode::InvalidSigner);
    }
    if accounts.campaign_account.lamports < reserve_floor || accounts.campaign_account.lamports
        - reserve_floor < amount {
        return Err(ErrorCode::InsufficientFundsAfterWithdraw);
    }
    if accounts.signer.lamports > u64::MAX - amount || accounts.campaign_account.data.amount_withdrawn
        > u64::MAX - amount {
        return Err(ErrorCode::ArithmeticOverflow);
    }
    let paid = transfer(&mut accounts.campaign_account.lamports, &mut accounts.signer.lamports, amount);
    assert(paid is Ok);
    accounts.campaign_account.data.amount_withdrawn = accounts.campaign_account.data.amount_withdrawn
        + amount;
    Ok(())
}

/// A withdrawal by the owner fails with `InsufficientFundsAfterWithdraw`
/// exactly when the balance less the reserve floor is below the amount;
/// otherwise, unless the caller's balance or the withdrawn total would leave
/// `u64`, it succeeds (and the campaign's balance drops by the amount).
pub proof fn lemma_withdrawal_keeps_reserve_floor(
    accounts: WithdrawCampaignFunds,
    reserve_floor: u64,
    amount: u64,
)
    requires
        accounts.campaign_account.data.owner@ == accounts.signer.key@,
    ensures
        accounts.campaign_account.lamports - reserve_floor < amount <==> withdraw_campaign_funds_outcome(
            accounts,
            reserve_floor,
            amount,
        ) == Err::<(), ErrorCode>(ErrorCode::InsufficientFundsAfterWithdraw),
        accounts.campaign_account.lamports - reserve_floor >= amount && accounts.signer.lamports
            + amount <= u64::MAX && accounts.campaign_account.data.amount_withdrawn + amount
            <= u64::MAX ==> withdraw_campaign_funds_outcome(accounts, reserve_floor, amount) is Ok,
{
}

/// A withdrawal by anyone but the campaign's owner fails with
/// `InvalidSigner`, and so leaves the campaign as it is.
pub proof fn lemma_withdrawal_needs_owner(accounts: WithdrawCampaignFunds, reserve_floor: u64, amount: u64)
    requires
        accounts.campaign_account.data.owner@ != accounts.signer.key@,
    ensures
        withdraw_campaign_funds_outcome(accounts, reserve_floor, amount) == Err::<(), ErrorCode>(
            ErrorCode::InvalidSigner,
        ),
{
}

} // verus!
