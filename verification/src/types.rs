//! Plain value types of the bridge.
//!
//! An asset id names a host-native asset; a balance is the ledger's
//! native unsigned value width; an address is an opaque 32-byte ledger
//! account or contract identifier, held as two 128-bit halves so that
//! contracts can compare it field by field.

use vstd::prelude::*;

verus! {

/// A 32-bit identifier of a host-native asset. Opaque: uniqueness and
/// meaning are owned by the host extension.
pub type AssetId = u32;

/// A balance or transfer amount in the ledger's native width.
pub type Balance = u128;

/// An opaque 32-byte ledger account or contract identifier.
///
/// `lo` holds the first sixteen bytes and `hi` the last sixteen, each
/// in little-endian order.
#[derive(Clone, Copy, Debug, PartialEq, Eq, Hash, Structural)]
pub struct Address {
    pub lo: u128,
    pub hi: u128,
}

/// A tag for the host environment the bridge assumes: 32-byte
/// account identifiers, 128-bit balances, and the extension call
/// interface of this crate.
#[derive(Clone, Copy, Debug, PartialEq, Eq, Structural)]
pub enum CustomEnvironment {
    HostDefault,
}

} // verus!
