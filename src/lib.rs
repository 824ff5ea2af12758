//! A risk-tiered access registry: each user carries a risk assessment
//! (score, assessed tier, chosen tier, time of last change), tiers keep a
//! deduplicated list of their assessed members, and access to a tier is
//! gated by the user's score.
//!
//! The registry holds its state itself; the clock is read by the caller and
//! passed in as `now` to every operation that stamps a record.

pub mod index;
pub mod laws;
pub mod registry;
pub mod table;
pub mod tier;

pub use registry::{RegistryModel, RiskTierContract, RiskTierData, TierStats};
pub use table::UserId;
pub use tier::{RiskError, Tier};
