//! The ten extension operations and their fixed numeric selectors.
//!
//! The host extension routes calls by selector. The mapping is one
//! enumerant to one constant, resolved here and nowhere else, so that
//! no other code guesses at raw numbers.

use vstd::prelude::*;

verus! {

/// One operation of the host extension's call interface.
#[derive(Clone, Copy, Debug, PartialEq, Eq, Structural)]
pub enum ExtensionOp {
    TokenName,
    TokenSymbol,
    TokenDecimals,
    TotalSupply,
    BalanceOf,
    Allowance,
    Transfer,
    TransferFrom,
    Approve,
    IncreaseAllowance,
    DecreaseAllowance,
}

/// The fixed selector of each extension operation.
pub open spec fn spec_selector(op: ExtensionOp) -> u32 {
    match op {
        ExtensionOp::TokenName => 0x3d26,
        ExtensionOp::TokenSymbol => 0x3420,
        ExtensionOp::TokenDecimals => 0x7271,
        ExtensionOp::TotalSupply => 0x162d,
        ExtensionOp::BalanceOf => 0x6568,
        ExtensionOp::Allowance => 0x4d47,
        ExtensionOp::Transfer => 0xdb20,
        ExtensionOp::TransferFrom => 0x54b3,
        ExtensionOp::Approve => 0xb20f,
        ExtensionOp::IncreaseAllowance => 0x96d6,
        ExtensionOp::DecreaseAllowance => 0xfecb,
    }
}

/// The operation that a selector names, if any.
pub open spec fn spec_op_of(s: u32) -> Option<ExtensionOp> {
    if s == 0x3d26 {
        Some(ExtensionOp::TokenName)
    } else if s == 0x3420 {
        Some(ExtensionOp::TokenSymbol)
    } else if s == 0x7271 {
        Some(ExtensionOp::TokenDecimals)
    } else if s == 0x162d {
        Some(ExtensionOp::TotalSupply)
    } else if s == 0x6568 {
        Some(ExtensionOp::BalanceOf)
    } else if s == 0x4d47 {
        Some(ExtensionOp::Allowance)
    } else if s == 0xdb20 {
        Some(ExtensionOp::Transfer)
    } else if s == 0x54b3 {
        Some(ExtensionOp::TransferFrom)
    } else if s == 0xb20f {
        Some(ExtensionOp::Approve)
    } else if s == 0x96d6 {
        Some(ExtensionOp::IncreaseAllowance)
    } else if s == 0xfecb {
        Some(ExtensionOp::DecreaseAllowance)
    } else {
        None
    }
}

/// Returns the selector under which the host routes `op`.
pub fn selector_of(op: ExtensionOp) -> (r: u32)
    ensures
        r == spec_selector(op),
{
    match op {
        ExtensionOp::TokenName => 0x3d26,
        ExtensionOp::TokenSymbol => 0x3420,
        ExtensionOp::TokenDecimals => 0x7271,
        ExtensionOp::TotalSupply => 0x162d,
        ExtensionOp::BalanceOf => 0x6568,
        ExtensionOp::Allowance => 0x4d47,
        ExtensionOp::Transfer => 0xdb20,
        ExtensionOp::TransferFrom => 0x54b3,
        ExtensionOp::Approve => 0xb20f,
        ExtensionOp::IncreaseAllowance => 0x96d6,
        ExtensionOp::DecreaseAllowance => 0xfecb,
    }
}

/// Returns the operation a selector names, or `None` for a selector
/// outside the table.
pub fn op_of_selector(s: u32) -> (r: Option<ExtensionOp>)
    ensures
        r == spec_op_of(s),
{
    match s {
        0x3d26u32 => Some(ExtensionOp::TokenName),
        0x3420u32 => Some(ExtensionOp::TokenSymbol),
        0x7271u32 => Some(ExtensionOp::TokenDecimals),
        0x162du32 => Some(ExtensionOp::TotalSupply),
        0x6568u32 => Some(ExtensionOp::BalanceOf),
        0x4d47u32 => Some(ExtensionOp::Allowance),
        0xdb20u32 => Some(ExtensionOp::Transfer),
        0x54b3u32 => Some(ExtensionOp::TransferFrom),
        0xb20fu32 => Some(ExtensionOp::Approve),
        0x96d6u32 => Some(ExtensionOp::IncreaseAllowance),
        0xfecbu32 => Some(ExtensionOp::DecreaseAllowance),
        _ => None,
    }
}

/// The selector table is a bijection onto its range: routing an
/// operation's selector back through the table yields that operation.
pub proof fn lemma_selector_round_trip(op: ExtensionOp)
    ensures
        spec_op_of(spec_selector(op)) == Some(op),
{
}

} // verus!
