//! Bridge between two fungible-token representations on one ledger: a
//! host-native asset registry reached through numbered extension calls, and
//! independently deployed token contracts sharing a common interface.
//!
//! The verified core is the asset-pair registry, the extension call
//! encoding and status-code mapping, and the two-leg swap protocol. The
//! host ledger itself (cross-contract calls, the extension dispatcher)
//! is an outside collaborator: the library builds call descriptors and
//! interprets replies, and an unverified shell performs the calls.

pub mod bridge;
pub mod client;
pub mod codec;
pub mod error;
pub mod registry;
pub mod selector;
pub mod swap;
pub mod types;
