//! A guardian-gated policy store.
//!
//! One identity, the guardian, sets the policy under which a second identity,
//! the child, may spend: an allowlist of counterparties, a spend cap and a pause
//! switch. The store keeps the policy and answers questions about it. It moves
//! no funds and enforces nothing itself.
//!
//! The store does not find out by itself who is calling. Its host knows, and
//! hands the caller's identity to every operation that needs it. A successful
//! mutation hands back the record of the change, and the host publishes it.
//!
//! `state` holds the mathematical model in which the contracts are written,
//! and `laws` what is proved of it.

pub mod account;
pub mod error;
pub mod event;
pub mod laws;
pub mod policy;
pub mod state;

pub use account::{AccountId, Balance};
pub use error::Error;
pub use event::{AllowlistUpdated, CapUpdated, Paused};
pub use policy::GuardianPolicy;
pub use state::PolicyState;
