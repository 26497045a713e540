//! An append-only registry of content hashes, kept per account.
//!
//! Every account owns an ordered list of hashes that only ever grows at its
//! end. The registry records the account that created it as its owner and
//! reports each accepted submission as a [`ContractSubmitted`] record, which
//! the caller is free to publish.

pub mod identity;
pub mod laws;
pub mod registry;
pub mod store;

pub use identity::{AccountId, ContentHash};
pub use registry::{
    record_submission, submissions_or_empty, AuditRegistry, ContractSubmitted, RegistryState,
};
pub use store::SubmissionStore;
