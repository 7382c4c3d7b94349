//! The persistent records and the storage each reserves.

use vstd::prelude::*;
use vstd::utf8::encode_utf8;
use crate::address::Address;

verus! {

/// Bytes that prefix every record with its type tag.
pub const DISCRIMINATOR_LEN: usize = 8;

pub const MAX_USERNAME_LEN: usize = 20;
pub const MAX_FULLNAME_LEN: usize = 100;
pub const MAX_BIO_LEN: usize = 250;
pub const MAX_IMAGE_URL_LEN: usize = 2048;
pub const MAX_DONATION_ITEM_LEN: usize = 10;
pub const MAX_THEME_COLOR_LEN: usize = 7;
pub const MAX_THANKS_MESSAGE_LEN: usize = 250;
pub const MAX_CAMPAIGN_NAME_LEN: usize = 50;
pub const MAX_CAMPAIGN_DESCRIPTION_LEN: usize = 250;
pub const MAX_SUPPORTER_NAME_LEN: usize = 50;
pub const MAX_SUPPORTER_MESSAGE_LEN: usize = 250;

/// A text field is stored as a four-byte length and at most its capacity in bytes.
pub const TEXT_PREFIX_LEN: usize = 4;

/// Storage of a creator record: its tag, then owner, username, fullname, bio,
/// image url, visibility flag, price, donation item, theme color, thanks
/// message, five counters and totals, and the bump.
pub const CREATOR_SPACE: usize = DISCRIMINATOR_LEN + 32 + (TEXT_PREFIX_LEN + MAX_USERNAME_LEN) + (
TEXT_PREFIX_LEN + MAX_FULLNAME_LEN) + (TEXT_PREFIX_LEN + MAX_BIO_LEN) + (TEXT_PREFIX_LEN
    + MAX_IMAGE_URL_LEN) + 1 + 8 + (TEXT_PREFIX_LEN + MAX_DONATION_ITEM_LEN) + (TEXT_PREFIX_LEN
    + MAX_THEME_COLOR_LEN) + (TEXT_PREFIX_LEN + MAX_THANKS_MESSAGE_LEN) + 5 * 8 + 1;

/// Storage of a username index record: its tag, the owner and the bump.
pub const CREATOR_USERNAME_SPACE: usize = DISCRIMINATOR_LEN + 32 + 1;

/// Storage of a campaign record: its tag, owner, name, description, target,
/// donated and withdrawn amounts, visibility flag and bump.
pub const CAMPAIGN_SPACE: usize = DISCRIMINATOR_LEN + 32 + (TEXT_PREFIX_LEN + MAX_CAMPAIGN_NAME_LEN)
    + (TEXT_PREFIX_LEN + MAX_CAMPAIGN_DESCRIPTION_LEN) + 3 * 8 + 1 + 1;

/// Storage of a supporter donation receipt: its tag, supporter, creator, name,
/// message, amount, fees, item, quantity, timestamp and bump.
pub const SUPPORTER_DONATION_SPACE: usize = DISCRIMINATOR_LEN + 32 + 32 + (TEXT_PREFIX_LEN
    + MAX_SUPPORTER_NAME_LEN) + (TEXT_PREFIX_LEN + MAX_SUPPORTER_MESSAGE_LEN) + 8 + 8 + (
TEXT_PREFIX_LEN + MAX_DONATION_ITEM_LEN) + 2 + 8 + 1;

/// Storage of a supporter transfer receipt: its tag, supporter, creator, name,
/// message, amount, item, quantity, timestamp and bump.
pub const SUPPORTER_TRANSFER_SPACE: usize = DISCRIMINATOR_LEN + 32 + 32 + (TEXT_PREFIX_LEN
    + MAX_SUPPORTER_NAME_LEN) + (TEXT_PREFIX_LEN + MAX_SUPPORTER_MESSAGE_LEN) + 8 + (
TEXT_PREFIX_LEN + MAX_DONATION_ITEM_LEN) + 2 + 8 + 1;

/// Storage of a payment receipt: its tag, creator, amount, timestamp and bump.
pub const SUPPORTER_TRANSFER_PAYMENT_SPACE: usize = DISCRIMINATOR_LEN + 32 + 8 + 8 + 1;

/// The number of bytes a text takes in UTF-8.
pub open spec fn text_len(s: &String) -> nat {
    encode_utf8(s@).len()
}

/// Whether a text fits a field of the given capacity.
pub fn fits(s: &String, capacity: usize) -> (r: bool)
    ensures
        r == (text_len(s) <= capacity),
{
    s.as_str().as_bytes().len() <= capacity
}

/// A creator's profile and running totals.
///
/// Layout version: this one layout replaces the earlier ones. Against the
/// earliest (no theme color, no campaign count, with an `available_funds`
/// total and a `display_supporters_count` flag), it renames the flag to
/// `is_supporters_count_visible` and `thank_you_message` to
/// `thanks_message`, and adds `theme_color`, `campaigns_count`,
/// `supporter_payments_count`, `supporter_donations_amount` and
/// `withdrawn_funds`. The list of social links of a later layout, never
/// written but as empty, is dropped. A record of an older, smaller layout is
/// migrated in place by the next profile update, which grows its storage to
/// `CREATOR_SPACE` (see `reprovision`); the added counters and totals start
/// at zero and the added texts empty.
#[derive(Clone, Debug)]
pub struct Creator {
    pub owner: Address,
    pub username: String,
    pub fullname: String,
    pub bio: String,
    pub image_url: String,
    pub is_supporters_count_visible: bool,
    /// The price of one supporter item, in the smallest unit.
    pub price_per_donation: u64,
    pub donation_item: String,
    pub theme_color: String,
    pub thanks_message: String,
    pub supporters_count: u64,
    pub campaigns_count: u64,
    pub supporter_payments_count: u64,
    pub supporter_donations_amount: u64,
    pub withdrawn_funds: u64,
    pub bump: u8,
}

impl Creator {
    /// Every text field fits its capacity.
    pub open spec fn well_formed(&self) -> bool {
        &&& text_len(&self.username) <= MAX_USERNAME_LEN
        &&& text_len(&self.fullname) <= MAX_FULLNAME_LEN
        &&& text_len(&self.bio) <= MAX_BIO_LEN
        &&& text_len(&self.image_url) <= MAX_IMAGE_URL_LEN
        &&& text_len(&self.donation_item) <= MAX_DONATION_ITEM_LEN
        &&& text_len(&self.theme_color) <= MAX_THEME_COLOR_LEN
        &&& text_len(&self.thanks_message) <= MAX_THANKS_MESSAGE_LEN
    }
}

/// The index record that ties a username to its owner.
#[derive(Clone, Copy, Debug)]
pub struct CreatorUsername {
    pub owner: Address,
    pub bump: u8,
}

/// A fundraising campaign of a creator.
///
/// Layout version: the earliest layout was numbered by a caller-chosen `id`
/// and addressed by the owner's key; this one is numbered by the creator's
/// `campaigns_count`, addressed by the creator record's key, and adds
/// `amount_withdrawn` and `is_target_amount_visible`. Campaigns of the
/// earliest layout are not migrated: they stay at their old addresses, and
/// the `id` field has no place here.
#[derive(Clone, Debug)]
pub struct Campaign {
    pub owner: Address,
    pub name: String,
    pub description: String,
    pub target_amount: u64,
    pub amount_donated: u64,
    pub amount_withdrawn: u64,
    pub is_target_amount_visible: bool,
    pub bump: u8,
}

impl Campaign {
    pub open spec fn well_formed(&self) -> bool {
        &&& text_len(&self.name) <= MAX_CAMPAIGN_NAME_LEN
        &&& text_len(&self.description) <= MAX_CAMPAIGN_DESCRIPTION_LEN
    }
}

/// The receipt of one supporter donation, never changed once written.
#[derive(Clone, Debug)]
pub struct SupporterDonation {
    pub supporter: Address,
    pub creator: Address,
    pub name: String,
    pub message: String,
    /// The gross amount paid.
    pub amount: u64,
    /// The part of `amount` that went to the fee collector.
    pub fees: u64,
    pub item: String,
    pub quantity: u16,
    pub timestamp: i64,
    pub bump: u8,
}

/// The receipt of one supporter transfer, never changed once written.
///
/// Layout version: an earlier layout kept the unit price and the total as
/// floating-point whole units; this one keeps the total in the smallest unit
/// only, as every other amount of the ledger is kept. Receipts are never
/// rewritten, so receipts of the earlier layout are read as they were
/// written and not migrated.
#[derive(Clone, Debug)]
pub struct SupporterTransfer {
    pub supporter: Address,
    pub creator: Address,
    pub name: String,
    pub message: String,
    pub transfer_amount: u64,
    pub donation_item: String,
    pub quantity: u16,
    pub timestamp: i64,
    pub bump: u8,
}

/// The receipt of one claim of a creator on its held transfers.
#[derive(Clone, Copy, Debug)]
pub struct SupporterTransferPayment {
    pub creator: Address,
    pub amount: u64,
    pub timestamp: i64,
    pub bump: u8,
}

} // verus!
