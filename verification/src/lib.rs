//! Grant-request ledger.
//!
//! A caller records a request for an initial token grant on behalf of an
//! account. The ledger keeps one requester record per account, a global
//! counter of recorded requests, and a bounded archive of completed tasks for
//! each account. Every operation either commits all of its writes or none.

pub mod account_map;
pub mod archive;
pub mod did;
pub mod encoding;
pub mod hashing;
pub mod laws;
pub mod pallet;
pub mod state;
pub mod types;

pub use account_map::AccountMap;
pub use archive::CompletedTasks;
pub use did::DelegateTypeProvider;
pub use pallet::Pallet;
pub use types::{
    AccountId, Balance, Config, CurrencySnapshot, Digest, Error, Event, Hashing, Pays, Profile,
    Receipt, Requesters,
};
