//! Lifecycle state of a proof-of-stake validator and the predicates that
//! decide its activation, exit, slashing and withdrawal eligibility.
pub mod chain_spec;
pub mod epoch;
pub mod validator;

pub use chain_spec::ChainSpec;
pub use epoch::Epoch;
pub use validator::{Address, Hash256, PublicKeyBytes, Validator};
