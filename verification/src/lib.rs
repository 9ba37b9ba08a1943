//! A registry of communities, each owned by one account and governed by a
//! council, kept in contract storage.
//!
//! The registry and its operations are in [`registry`], the records and the
//! notifications in [`community`], account identities in [`account`]. The
//! storage hash map that holds the records, and everything that is assumed
//! of it rather than proved, is in [`store`].

use vstd::prelude::*;

pub mod account;
pub mod community;
pub mod registry;
pub mod store;

pub use account::AccountId;
pub use community::{CommunityData, CreateComunity, CreateCouncil};
pub use registry::CommunityAuth;

verus! {

/// Why an operation on the registry was rejected.
#[derive(Debug, PartialEq, Eq, Clone, Copy, Structural)]
pub enum Error {
    /// The caller is not the owner of the community.
    NotOwner,
    /// No community is recorded under the identifier.
    NotExists,
    /// A community is already recorded under the identifier.
    AlreadyExists,
}

} // verus!
