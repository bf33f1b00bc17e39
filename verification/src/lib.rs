//! An append-mostly registry of self-asserted "life and work" attestations.
//!
//! Claims are identified by a content-derived or caller-supplied 256-bit
//! fingerprint, can be endorsed by third parties, and are coupled to a
//! deterministic reward program that pays out on every N-th accepted
//! submission. The host chain supplies caller identity, balances and the
//! native transfer; those enter the library as plain values.

pub mod accounts;
pub mod bytes;
pub mod hashing;
pub mod laws;
pub mod model;
pub mod queries;
pub mod registry;
pub mod rewards;
pub mod search;
pub mod store;
pub mod types;

pub use bytes::bytes_eq;
pub use hashing::fingerprint_of;
pub use registry::ContractStorage;
pub use types::AccountRewardedLifeAndWork;
pub use types::ClaimEndorsed;
pub use types::ClaimMadeEducation;
pub use types::ClaimMadeExpertise;
pub use types::ClaimMadeGoodDeed;
pub use types::ClaimMadeIntellectualProperty;
pub use types::ClaimMadeWorkHistory;
pub use types::Claims;
pub use types::Details;
pub use types::Error;
pub use types::Event;
pub use types::RewardSettings;
