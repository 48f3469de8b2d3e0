//! A signaling broker: two parties that cannot yet talk to each other
//! exchange an offer and an answer through an addressable store, and each
//! party can publish a public key for the others to look up.
//!
//! - [`encoding`]: the canonical bytes of an identity and of a directional
//!   pair of identities.
//! - [`digest`]: the one-way digest of those bytes.
//! - [`pair`]: directional pairs and the identifiers under which their
//!   records are stored.
//! - [`table`]: a table from identifiers to payloads.
//! - [`hub`]: the store itself, with the rule that a new request clears the
//!   response to the earlier one.
//! - [`laws`]: what holds of every hub.
//!
//! The identity of the caller is an argument of every operation that acts
//! for somebody: whoever calls the hub names the caller it has authenticated.

pub mod digest;
pub mod encoding;
pub mod hub;
pub mod laws;
pub mod pair;
pub mod table;

pub use hub::{HubView, WebRTCHub};
pub use pair::{hash_account_id, AccountPair};
pub use table::{Entry, Table};
