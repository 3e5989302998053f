//! A time-gated pooled-deposit vault: a registry hands out vault numbers, each
//! vault collects deposits during its funding window, and pays depositors out
//! after maturity. Every operation is a checked state transition over plain
//! records; moving tokens, reading the clock and storing records are left to
//! the host that calls these functions.
pub mod error;
pub mod identity;
pub mod instructions;
pub mod laws;
pub mod params;
pub mod state;

pub use error::ErrorCode;
pub use identity::Identity;
pub use params::InitOrUpdateVaultParam;
pub use state::{Global, User, Vault};
