//! A fungible-token ledger as a deterministic state machine.
//!
//! The ledger keeps a balance per account, a table of delegated spending
//! limits, a total supply and the set of accounts that may mint. Every
//! operation takes the identity of its caller as an argument, reports a
//! violated precondition as an [`FtError`] and then leaves the ledger as
//! it was. What an operation does is stated over [`LedgerView`], the
//! mathematical content of a ledger.

pub mod address;
pub mod allowance;
pub mod contract;
pub mod error;
pub mod laws;
pub mod ledger;
pub mod metadata;
pub mod notice;
pub mod seed;
pub mod supply;
pub mod view;

pub use address::{address_from_bytes, address_to_bytes, Address, ADDRESS_LENGTH};
pub use allowance::FTAllowance;
pub use error::FtError;
pub use laws::Call;
pub use ledger::L1xFtErc20;
pub use metadata::{FTMetadata, MetadataView, MAX_DECIMALS};
pub use notice::Notice;
pub use view::{AllowanceUpdateOp, LedgerView};
