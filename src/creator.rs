//! Registering creators and updating their profiles.

use vstd::prelude::*;
use vstd::utf8::encode_utf8;
use crate::address::{check_record_address, seeds_check, text_bytes, Address, Role};
use crate::error::ErrorCode;
use crate::ledger::{Account, Wallet};
use crate::records::{
    fits, text_len, Creator, CreatorUsername, CREATOR_SPACE, CREATOR_USERNAME_SPACE, MAX_BIO_LEN,
    MAX_DONATION_ITEM_LEN, MAX_FULLNAME_LEN, MAX_IMAGE_URL_LEN, MAX_THANKS_MESSAGE_LEN,
    MAX_THEME_COLOR_LEN, MAX_USERNAME_LEN,
};

verus! {

/// The price of one supporter item on a new profile, in the smallest unit: a
/// tenth of a whole unit, which is a billion of the smallest.
pub const DEFAULT_PRICE_PER_DONATION: u64 = 100_000_000;

/// The balances of a record and of its payer after the record's storage is
/// set to `new_space` bytes, `floor` being the minimum balance for that size:
/// growing, the payer tops the record up to the floor; shrinking, the record
/// hands back what it holds above the floor.
pub open spec fn reprovision_outcome(
    lamports: u64,
    data_len: usize,
    payer: u64,
    new_space: usize,
    floor: u64,
) -> Result<(u64, u64), ErrorCode> {
    if new_space == data_len {
        Ok((lamports, payer))
    } else if new_space > data_len {
        if floor > lamports {
            if payer < floor - lamports {
                Err(ErrorCode::InsufficientFunds)
            } else {
                Ok((floor, (payer - (floor - lamports)) as u64))
            }
        } else {
            Ok((lamports, payer))
        }
    } else if lamports < floor || payer + (lamports - floor) > u64::MAX {
        Err(ErrorCode::ArithmeticOverflow)
    } else {
        Ok((floor, (payer + (lamports - floor)) as u64))
    }
}

/// Sets a record's storage to `new_space` bytes, moving value between the
/// record and its payer so that the record holds its new minimum balance.
pub fn reprovision(
    lamports: &mut u64,
    data_len: &mut usize,
    payer: &mut u64,
    new_space: usize,
    floor: u64,
) -> (r: Result<(), ErrorCode>)
    ensures
        match reprovision_outcome(*old(lamports), *old(data_len), *old(payer), new_space, floor) {
            Ok((l, p)) => r == Ok::<(), ErrorCode>(()) && *final(lamports) == l && *final(payer) == p && *final(data_len)
                == new_space,
            Err(e) => r == Err::<(), ErrorCode>(e) && *final(lamports) == *old(lamports)
                && *final(payer) == *old(payer) && *final(data_len) == *old(data_len),
        },
        *final(lamports) + *final(payer) == *old(lamports) + *old(payer),
{
    if new_space == *data_len {
        return Ok(());
    }
    if new_space > *data_len {
        if floor > *lamports {
            let top_up = floor - *lamports;
            if *payer < top_up {
                return Err(ErrorCode::InsufficientFunds);
            }
            *payer = *payer - top_up;
            *lamports = floor;
        }
    } else {
        if *lamports < floor || *payer > u64::MAX - (*lamports - floor) {
            return Err(ErrorCode::ArithmeticOverflow);
        }
        *payer = *payer + (*lamports - floor);
        *lamports = floor;
    }
    *data_len = new_space;
    Ok(())
}

/// The accounts that registering a creator touches.
#[derive(Clone, Debug)]
pub struct RegisterCreator {
    pub signer: Wallet,
    pub creator_account: Account<Option<Creator>>,
    pub creator_username_account: Account<Option<CreatorUsername>>,
}

/// What `register_creator` returns, checked in this order.
pub open spec fn register_creator_outcome(
    accounts: RegisterCreator,
    program_id: Address,
    username: String,
    fullname: String,
    bio: String,
) -> Result<(), ErrorCode> {
    if accounts.creator_username_account.data matches Some(index) && !index.owner.is_zero() {
        Err(ErrorCode::UsernameAlreadyExists)
    } else if accounts.signer.key.is_zero() {
        Err(ErrorCode::InvalidSigner)
    } else if accounts.creator_account.data is Some {
        Err(ErrorCode::AccountAlreadyInUse)
    } else if text_len(&username) > MAX_USERNAME_LEN || text_len(&fullname) > MAX_FULLNAME_LEN
        || text_len(&bio) > MAX_BIO_LEN {
        Err(ErrorCode::CapacityExceeded)
    } else if seeds_check(
        Role::Creator,
        accounts.signer.key@,
        0,
        program_id@,
        accounts.creator_account.key@,
    ) is Err || seeds_check(
        Role::Username,
        encode_utf8(username@),
        0,
        program_id@,
        accounts.creator_username_account.key@,
    ) is Err {
        Err(ErrorCode::ConstraintSeeds)
    } else {
        Ok(())
    }
}

/// A new profile: the given names, the caller as owner, the default price,
/// item and theme, empty image and thanks message, and every counter zero.
pub open spec fn is_new_profile(
    c: Creator,
    owner: Address,
    username: String,
    fullname: String,
    bio: String,
    bump: u8,
) -> bool {
    &&& c.owner == owner
    &&& c.username == username
    &&& c.fullname == fullname
    &&& c.bio == bio
    &&& c.image_url@ == Seq::<char>::empty()
    &&& c.is_supporters_count_visible
    &&& c.price_per_donation == DEFAULT_PRICE_PER_DONATION
    &&& c.donation_item@ == "coffee"@
    &&& c.theme_color@ == "#794BC4"@
    &&& c.thanks_message@ == Seq::<char>::empty()
    &&& c.supporters_count == 0
    &&& c.campaigns_count == 0
    &&& c.supporter_payments_count == 0
    &&& c.supporter_donations_amount == 0
    &&& c.withdrawn_funds == 0
    &&& c.bump == bump
}

/// The caller registers a profile under a username that nobody owns yet: the
/// profile at the caller's creator address, and the index record at the
/// username's address, both owned by the caller. The all-zero identity marks
/// an unowned index record, so it cannot register.
pub fn register_creator(
    accounts: &mut RegisterCreator,
    program_id: &Address,
    username: String,
    fullname: String,
    bio: String,
) -> (r: Result<(), ErrorCode>)
    ensures
        r == register_creator_outcome(*old(accounts), *program_id, username, fullname, bio),
        r is Ok ==> {
            let before = *old(accounts);
            let after = *final(accounts);
            &&& after.signer == before.signer
            &&& after.creator_account.key == before.creator_account.key
            &&& after.creator_account.lamports == before.creator_account.lamports
            &&& after.creator_account.data_len == CREATOR_SPACE
            &&& after.creator_account.data matches Some(c) && is_new_profile(
                c,
                before.signer.key,
                username,
                fullname,
                bio,
                seeds_check(
                    Role::Creator,
                    before.signer.key@,
                    0,
                    program_id@,
                    before.creator_account.key@,
                )->Ok_0,
            )
            &&& after.creator_username_account == (Account {
                data_len: CREATOR_USERNAME_SPACE,
                data: Some(
                    CreatorUsername {
                        owner: before.signer.key,
                        bump: seeds_check(
                            Role::Username,
                            encode_utf8(username@),
                            0,
                            program_id@,
                            before.creator_username_account.key@,
                        )->Ok_0,
                    },
                ),
                ..before.creator_username_account
            })
        },
        r is Err ==> *final(accounts) == *old(accounts),
{
    let zero = Address::zero();
    match &accounts.creator_username_account.data {
        Some(index) => {
            if !index.owner.same_as(&zero) {
                return Err(ErrorCode::UsernameAlreadyExists);
            }
        },
        None => {},
    }
    if accounts.signer.key.same_as(&zero) {
        return Err(ErrorCode::InvalidSigner);
    }
    if accounts.creator_account.data.is_some() {
        return Err(ErrorCode::AccountAlreadyInUse);
    }
    if !fits(&username, MAX_USERNAME_LEN) || !fits(&fullname, MAX_FULLNAME_LEN) || !fits(
        &bio,
        MAX_BIO_LEN,
    ) {
        return Err(ErrorCode::CapacityExceeded);
    }
    let creator_bump = match check_record_address(
        Role::Creator,
        accounts.signer.key.to_vec(),
        0,
        program_id,
        &accounts.creator_account.key,
    ) {
        Ok(b) => b,
        Err(e) => return Err(e),
    };
    let username_bump = match check_record_address(
        Role::Username,
        text_bytes(&username),
        0,
        program_id,
        &accounts.creator_username_account.key,
    ) {
        Ok(b) => b,
        Err(e) => return Err(e),
    };
    accounts.creator_account.data = Some(
        Creator {
            owner: accounts.signer.key,
            username,
            fullname,
            bio,
            image_url: String::new(),
            is_supporters_count_visible: true,
            price_per_donation: DEFAULT_PRICE_PER_DONATION,
            donation_item: "coffee".to_owned(),
            theme_color: "#794BC4".to_owned(),
            thanks_message: String::new(),
            supporters_count: 0,
            campaigns_count: 0,
            supporter_payments_count: 0,
            supporter_donations_amount: 0,
            withdrawn_funds: 0,
            bump: creator_bump,
        },
    );
    accounts.creator_account.data_len = CREATOR_SPACE;
    accounts.creator_username_account.data = Some(
        CreatorUsername { owner: accounts.signer.key, bump: username_bump },
    );
    accounts.creator_username_account.data_len = CREATOR_USERNAME_SPACE;
    Ok(())
}

/// The accounts that a profile update touches: the owner pays for any growth
/// of the profile's storage.
#[derive(Clone, Debug)]
pub struct UpdateCreator {
    pub signer: Wallet,
    pub creator_account: Account<Creator>,
}

/// What the two profile updates return, checked in this order: the owner, the
/// texts, the address, then the storage.
pub open spec fn update_creator_outcome(
    accounts: UpdateCreator,
    program_id: Address,
    reserve_floor: u64,
    texts_fit: bool,
) -> Result<(), ErrorCode> {
    let creator_account = accounts.creator_account;
    if creator_account.data.owner@ != accounts.signer.key@ {
        Err(ErrorCode::InvalidSigner)
    } else if !texts_fit {
        Err(ErrorCode::CapacityExceeded)
    } else if seeds_check(Role::Creator, accounts.signer.key@, 0, program_id@, creator_account.key@) is Err {
        Err(ErrorCode::ConstraintSeeds)
    } else {
        match reprovision_outcome(
            creator_account.lamports,
            creator_account.data_len,
            accounts.signer.lamports,
            CREATOR_SPACE,
            reserve_floor,
        ) {
            Ok(_) => Ok(()),
            Err(e) => Err(e),
        }
    }
}

/// The accounts after a successful update has brought the profile's storage
/// to the full size of a creator record, before its fields change.
pub open spec fn reprovisioned(accounts: UpdateCreator, reserve_floor: u64) -> UpdateCreator {
    let (l, p) = reprovision_outcome(
        accounts.creator_account.lamports,
        accounts.creator_account.data_len,
        accounts.signer.lamports,
        CREATOR_SPACE,
        reserve_floor,
    )->Ok_0;
    UpdateCreator {
        signer: Wallet { lamports: p, ..accounts.signer },
        creator_account: Account { lamports: l, data_len: CREATOR_SPACE, ..accounts.creator_account },
    }
}

/// Checks the owner, the texts and the address of a profile update, then
/// brings the profile's storage to the full size of a creator record, paid by
/// the owner; `reserve_floor` is the minimum balance for that size.
fn prepare_update(
    accounts: &mut UpdateCreator,
    program_id: &Address,
    reserve_floor: u64,
    texts_fit: bool,
) -> (r: Result<(), ErrorCode>)
    ensures
        r == update_creator_outcome(*old(accounts), *program_id, reserve_floor, texts_fit),
        r is Ok ==> *final(accounts) == reprovisioned(*old(accounts), reserve_floor),
        r is Err ==> *final(accounts) == *old(accounts),
{
    if !accounts.creator_account.data.owner.same_as(&accounts.signer.key) {
        return Err(ErrorCode::InvalidSigner);
    }
    if !texts_fit {
        return Err(ErrorCode::CapacityExceeded);
    }
    match check_record_address(
        Role::Creator,
        accounts.signer.key.to_vec(),
        0,
        program_id,
        &accounts.creator_account.key,
    ) {
        Ok(_) => {},
        Err(e) => return Err(e),
    }
    reprovision(
        &mut accounts.creator_account.lamports,
        &mut accounts.creator_account.data_len,
        &mut accounts.signer.lamports,
        CREATOR_SPACE,
        reserve_floor,
    )
}

/// The owner replaces the profile's full name, bio and image url.
pub fn update_creator_profile(
    accounts: &mut UpdateCreator,
    program_id: &Address,
    reserve_floor: u64,
    fullname: String,
    bio: String,
    image_url: String,
) -> (r: Result<(), ErrorCode>)
    ensures
        r == update_creator_outcome(
            *old(accounts),
            *program_id,
            reserve_floor,
            text_len(&fullname) <= MAX_FULLNAME_LEN && text_len(&bio) <= MAX_BIO_LEN && text_len(
                &image_url,
            ) <= MAX_IMAGE_URL_LEN,
        ),
        r is Ok ==> {
            let grown = reprovisioned(*old(accounts), reserve_floor);
            &&& final(accounts).signer == grown.signer
            &&& final(accounts).creator_account == (Account {
                data: (Creator {
                    fullname: fullname,
                    bio: bio,
                    image_url: image_url,
                    ..grown.creator_account.data
                }),
                ..grown.creator_account
            })
        },
        r is Err ==> *final(accounts) == *old(accounts),
{
    let texts_fit = fits(&fullname, MAX_FULLNAME_LEN) && fits(&bio, MAX_BIO_LEN) && fits(
        &image_url,
        MAX_IMAGE_URL_LEN,
    );
    match prepare_update(accounts, program_id, reserve_floor, texts_fit) {
        Ok(()) => {},
        Err(e) => return Err(e),
    }
    accounts.creator_account.data.fullname = fullname;
    accounts.creator_account.data.bio = bio;
    accounts.creator_account.data.image_url = image_url;
    Ok(())
}

/// The owner replaces the settings of the creator page: whether the supporter
/// count shows, the price and name of the supporter item, the theme color and
/// the thanks message.
pub fn update_creator_page_settings(
    accounts: &mut UpdateCreator,
    program_id: &Address,
    reserve_floor: u64,
    is_supporters_count_visible: bool,
    price_per_donation: u64,
    donation_item: String,
    theme_color: String,
    thanks_message: String,
) -> (r: Result<(), ErrorCode>)
    ensures
        r == update_creator_outcome(
            *old(accounts),
            *program_id,
            reserve_floor,
            text_len(&donation_item) <= MAX_DONATION_ITEM_LEN && text_len(&theme_color)
                <= MAX_THEME_COLOR_LEN && text_len(&thanks_message) <= MAX_THANKS_MESSAGE_LEN,
        ),
        r is Ok ==> {
            let grown = reprovisioned(*old(accounts), reserve_floor);
            &&& final(accounts).signer == grown.signer
            &&& final(accounts).creator_account == (Account {
                data: (Creator {
                    is_supporters_count_visible: is_supporters_count_visible,
                    price_per_donation: price_per_donation,
                    donation_item: donation_item,
                    theme_color: theme_color,
                    thanks_message: thanks_message,
                    ..grown.creator_account.data
                }),
                ..grown.creator_account
            })
        },
        r is Err ==> *final(accounts) == *old(accounts),
{
    let texts_fit = fits(&donation_item, MAX_DONATION_ITEM_LEN) && fits(
        &theme_color,
        MAX_THEME_COLOR_LEN,
    ) && fits(&thanks_message, MAX_THANKS_MESSAGE_LEN);
    match prepare_update(accounts, program_id, reserve_floor, texts_fit) {
        Ok(()) => {},
        Err(e) => return Err(e),
    }
    accounts.creator_account.data.is_supporters_count_visible = is_supporters_count_visible;
    accounts.creator_account.data.price_per_donation = price_per_donation;
    accounts.creator_account.data.donation_item = donation_item;
    accounts.creator_account.data.theme_color = theme_color;
    accounts.creator_account.data.thanks_message = thanks_message;
    Ok(())
}

/// A username is registered at most once: after a registration succeeds, any
/// later registration of that username, by anyone and with any profile, fails
/// with `UsernameAlreadyExists`, and so leaves both records as they are.
pub proof fn lemma_username_registered_once(
    first: RegisterCreator,
    registered: Account<Option<CreatorUsername>>,
    program_id: Address,
    username: String,
    fullname: String,
    bio: String,
    second: RegisterCreator,
    second_fullname: String,
    second_bio: String,
)
    requires
        register_creator_outcome(first, program_id, username, fullname, bio) is Ok,
        registered.data matches Some(index) && index.owner == first.signer.key,
        second.creator_username_account == registered,
    ensures
        register_creator_outcome(second, program_id, username, second_fullname, second_bio)
            == Err::<(), ErrorCode>(ErrorCode::UsernameAlreadyExists),
{
    assert(!first.signer.key.is_zero());
}

/// The all-zero identity cannot register under a free username, so no
/// username index ever names it as owner.
pub proof fn lemma_zero_identity_cannot_register(
    accounts: RegisterCreator,
    program_id: Address,
    username: String,
    fullname: String,
    bio: String,
)
    requires
        accounts.signer.key.is_zero(),
        !(accounts.creator_username_account.data matches Some(index) && !index.owner.is_zero()),
    ensures
        register_creator_outcome(accounts, program_id, username, fullname, bio) == Err::<
            (),
            ErrorCode,
        >(ErrorCode::InvalidSigner),
{
}

/// A profile update by anyone but the profile's owner fails with
/// `InvalidSigner`, and so leaves the profile as it is.
pub proof fn lemma_profile_update_needs_owner(
    accounts: UpdateCreator,
    program_id: Address,
    reserve_floor: u64,
    texts_fit: bool,
)
    requires
        accounts.creator_account.data.owner@ != accounts.signer.key@,
    ensures
        update_creator_outcome(accounts, program_id, reserve_floor, texts_fit) == Err::<(), ErrorCode>(
            ErrorCode::InvalidSigner,
        ),
{
}

} // verus!
