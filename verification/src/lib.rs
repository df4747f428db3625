//! An action-authorization bridge.
//!
//! A trusted off-chain authority signs discrete, uniquely identified actions.
//! This library verifies such an authorization and guarantees that each
//! authorized action executes at most once:
//!
//! * [`bundle`] decodes the binary signature bundle that the signature
//!   verification operation carries,
//! * [`codec`] serializes an action payload into its canonical byte form,
//! * [`validate`] checks that the operation immediately preceding the
//!   execution operation is a genuine signature verification whose first
//!   signer is the bridge's trusted key and whose signed message is the
//!   hash of the canonical payload bytes,
//! * [`ledger`] holds the persistent bridge records and enforces the
//!   register-once / execute-at-most-once life cycle of an action id.

pub mod bundle;
pub mod codec;
pub mod error;
pub mod ledger;
pub mod metadata;
pub mod state;
pub mod validate;
