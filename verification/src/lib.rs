//! Whitelisting of privileged calls by hash, and their dispatch with root
//! privilege.
//!
//! One authority puts the hash of a call on the whitelist. Another has the
//! call dispatched with root privilege, once the encoded call is in the
//! preimage store and under a weight that it has witnessed. The runtime that
//! hosts the pallet says who may do what, keeps the preimages, decodes and
//! runs the calls and takes the events: see [`Config`]. What the pallet asks
//! of it, in which order, and what it makes of the answers is stated in
//! [`model`] and proved of [`Pallet`] for every runtime.

pub mod hash;
pub mod types;
pub mod preimage;
pub mod registry;
pub mod config;
pub mod host;
pub mod model;
pub mod pallet;
pub mod laws;

pub use crate::config::Config;
pub use crate::hash::{CallHash, HASH_LEN};
pub use crate::host::{Exchange, Host};
pub use crate::pallet::{check_weight_witness, Pallet};
pub use crate::preimage::Preimage;
pub use crate::registry::WhitelistRegistry;
pub use crate::types::{Error, Event, Permission, Weight};
