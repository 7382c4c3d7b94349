//! A fund-custody ledger for creator crowdfunding: creator profiles, campaigns,
//! supporter donations and transfers, with the address scheme that ties each
//! record to its owner and the balance rules every handler obeys.

pub mod address;
pub mod error;
pub mod ledger;
pub mod records;
pub mod supporter;
pub mod campaign;
pub mod creator;
