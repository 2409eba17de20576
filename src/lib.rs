//! Helpers for on-chain programs that charge a token fee before an instruction runs.
//!
//! * [`address`] holds account addresses and the associated-token derivation.
//! * [`charge`] decides whether a fee transfer may be issued for a set of accounts.
//! * [`metadata`] builds the token-metadata program's update, freeze and thaw instructions.
//! * [`resolve`] maps the fields of an instruction-context struct to the five fee roles.
pub mod address;
pub mod charge;
pub mod metadata;
pub mod resolve;
