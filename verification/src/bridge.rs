//! The bridge contract's entry points.
//!
//! `Psp22Extension` owns the asset-pair registry and one default
//! contract-standard reference configured at construction. Its
//! extension-standard operations are a stateless relay: each builds
//! exactly the extension call for its operation. Its
//! contract-standard operations delegate to the default reference.
//! The swap entry points plan the first leg of the two-leg protocol;
//! the steps after the legs live in the swap module.

use vstd::prelude::*;

use crate::client::ExtensionCall;
use crate::client::asset_call;
use crate::client::asset_account_call;
use crate::client::asset_two_accounts_call;
use crate::client::asset_account_amount_call;
use crate::client::asset_two_accounts_amount_call;
use crate::codec::address_bytes;
use crate::codec::le_bytes;
use crate::registry::Registry;
use crate::selector::ExtensionOp;
use crate::selector::spec_selector;
use crate::swap::SwapAbort;
use crate::swap::SwapPlan;
use crate::swap::TransferFromCall;
use crate::swap::swap_plan;
use crate::types::Address;
use crate::types::AssetId;
use crate::types::Balance;

verus! {

/// One contract-standard operation, addressed to one token contract.
#[derive(Clone, Copy, Debug, PartialEq, Eq, Structural)]
pub enum Erc20Op {
    TotalSupply,
    BalanceOf(Address),
    Allowance(Address, Address),
    Transfer(Address, Balance),
    Approve(Address, Balance),
    TransferFrom(Address, Address, Balance),
}

/// One call into a contract-standard token: the contract to address
/// and the operation to invoke on it.
#[derive(Clone, Copy, Debug, PartialEq, Eq, Structural)]
pub struct Erc20Call {
    pub contract: Address,
    pub op: Erc20Op,
}

/// The contract-standard operation set, exposed by delegation: each
/// entry point produces the call for its operation, addressed to the
/// implementor's delegate token contract, and changes nothing.
pub trait Erc20Trait: Sized {
    /// The token contract that every operation is delegated to.
    spec fn delegate_ref(&self) -> Address;

    /// The delegated total-supply query.
    fn total_supply(&self) -> (c: Erc20Call)
        ensures
            c == (Erc20Call { contract: self.delegate_ref(), op: Erc20Op::TotalSupply }),
    ;

    /// The delegated balance query for `owner`.
    fn balance_of(&self, owner: &Address) -> (c: Erc20Call)
        ensures
            c == (Erc20Call { contract: self.delegate_ref(), op: Erc20Op::BalanceOf(*owner) }),
    ;

    /// The delegated allowance query for `owner` and `spender`.
    fn allowance(&self, owner: &Address, spender: &Address) -> (c: Erc20Call)
        ensures
            c == (Erc20Call {
                contract: self.delegate_ref(),
                op: Erc20Op::Allowance(*owner, *spender),
            }),
    ;

    /// The delegated transfer of `value` to `to`.
    fn transfer(&mut self, to: &Address, value: Balance) -> (c: Erc20Call)
        ensures
            *final(self) == *old(self),
            c == (Erc20Call {
                contract: old(self).delegate_ref(),
                op: Erc20Op::Transfer(*to, value),
            }),
    ;

    /// The delegated approval of `spender` for `value`.
    fn approve(&mut self, spender: &Address, value: Balance) -> (c: Erc20Call)
        ensures
            *final(self) == *old(self),
            c == (Erc20Call {
                contract: old(self).delegate_ref(),
                op: Erc20Op::Approve(*spender, value),
            }),
    ;

    /// The delegated pull of `value` from `from` to `to`.
    fn transfer_from(&mut self, from: &Address, to: &Address, value: Balance) -> (c: Erc20Call)
        ensures
            *final(self) == *old(self),
            c == (Erc20Call {
                contract: old(self).delegate_ref(),
                op: Erc20Op::TransferFrom(*from, *to, value),
            }),
    ;
}

/// The bridge: custodian of contract-standard tokens and relay to
/// the host extension's asset registry.
pub struct Psp22Extension {
    asset_pairs: Registry,
    asset_pair: Address,
}

impl Psp22Extension {
    /// The registered asset pairs, as a map from asset id to the
    /// contract reference in force.
    pub closed spec fn pairs(&self) -> Map<AssetId, Address> {
        self.asset_pairs@
    }

    /// Creates a new instance of the bridge, with no pairs registered
    /// and `erc20_address` as the default contract-standard
    /// reference.
    pub fn new(erc20_address: Address) -> (r: Self)
        ensures
            r.pairs() == Map::<AssetId, Address>::empty(),
            r.delegate_ref() == erc20_address,
    {
        Psp22Extension { asset_pairs: Registry::new(), asset_pair: erc20_address }
    }

    /// Maps `asset_id` to the token contract for this pair,
    /// overwriting any pair registered for it before.
    pub fn create_asset_pair(&mut self, asset_id: AssetId, erc20_address: Address)
        ensures
            final(self).pairs() == old(self).pairs().insert(asset_id, erc20_address),
            final(self).delegate_ref() == old(self).delegate_ref(),
    {
        self.asset_pairs.register(asset_id, erc20_address);
    }

    /// Plans a swap routed through the registry: aborts with the
    /// pair-not-found abort for an unregistered asset id, else plans
    /// the pull of `amount` from `caller` into the bridge's own
    /// account on the registered contract.
    pub fn swap_for_asset(
        &self,
        asset_id: AssetId,
        amount: Balance,
        caller: &Address,
        own_account: &Address,
    ) -> (r: SwapPlan)
        ensures
            r == swap_plan(self.pairs(), asset_id, amount, *caller, *own_account),
    {
        match self.asset_pairs.lookup(asset_id) {
            Some(contract) => SwapPlan::FirstLeg(
                TransferFromCall { contract, from: *caller, to: *own_account, amount },
            ),
            None => SwapPlan::Abort(SwapAbort::PairNotFound),
        }
    }

    /// Plans a swap against the default contract-standard reference,
    /// ignoring the registry: the pull of `amount` from `caller` into
    /// the bridge's own account on the default contract. The asset id
    /// only names the asset of the second leg, which the swap module
    /// builds.
    #[allow(unused_variables)]
    pub fn swap_asset(
        &self,
        asset_id: AssetId,
        amount: Balance,
        caller: &Address,
        own_account: &Address,
    ) -> (r: TransferFromCall)
        ensures
            r == (TransferFromCall {
                contract: self.delegate_ref(),
                from: *caller,
                to: *own_account,
                amount,
            }),
    {
        TransferFromCall { contract: self.asset_pair, from: *caller, to: *own_account, amount }
    }

    /// The extension call that queries the token name of the asset.
    pub fn token_name(&self, asset_id: AssetId) -> (c: ExtensionCall)
        ensures
            c.selector == spec_selector(ExtensionOp::TokenName),
            c.input@ == le_bytes(asset_id as nat, 4),
    {
        asset_call(ExtensionOp::TokenName, asset_id)
    }

    /// The extension call that queries the token symbol of the asset.
    pub fn token_symbol(&self, asset_id: AssetId) -> (c: ExtensionCall)
        ensures
            c.selector == spec_selector(ExtensionOp::TokenSymbol),
            c.input@ == le_bytes(asset_id as nat, 4),
    {
        asset_call(ExtensionOp::TokenSymbol, asset_id)
    }

    /// The extension call that queries the token decimals of the
    /// asset.
    pub fn token_decimals(&self, asset_id: AssetId) -> (c: ExtensionCall)
        ensures
            c.selector == spec_selector(ExtensionOp::TokenDecimals),
            c.input@ == le_bytes(asset_id as nat, 4),
    {
        asset_call(ExtensionOp::TokenDecimals, asset_id)
    }

    /// The extension call that queries the total supply of the asset.
    pub fn total_supply(&self, asset_id: AssetId) -> (c: ExtensionCall)
        ensures
            c.selector == spec_selector(ExtensionOp::TotalSupply),
            c.input@ == le_bytes(asset_id as nat, 4),
    {
        asset_call(ExtensionOp::TotalSupply, asset_id)
    }

    /// The extension call that queries the balance of `owner` in the
    /// asset.
    pub fn balance_of(&self, asset_id: AssetId, owner: &Address) -> (c: ExtensionCall)
        ensures
            c.selector == spec_selector(ExtensionOp::BalanceOf),
            c.input@ == le_bytes(asset_id as nat, 4) + address_bytes(*owner),
    {
        asset_account_call(ExtensionOp::BalanceOf, asset_id, owner)
    }

    /// The extension call that queries what `spender` may still
    /// withdraw from `owner` in the asset.
    pub fn allowance(&self, asset_id: AssetId, owner: &Address, spender: &Address) -> (c:
        ExtensionCall)
        ensures
            c.selector == spec_selector(ExtensionOp::Allowance),
            c.input@ == le_bytes(asset_id as nat, 4) + address_bytes(*owner) + address_bytes(
                *spender,
            ),
    {
        asset_two_accounts_call(ExtensionOp::Allowance, asset_id, owner, spender)
    }

    /// The extension call that transfers `value` of the asset from
    /// the caller to `to`.
    pub fn transfer(&mut self, asset_id: AssetId, to: &Address, value: Balance) -> (c:
        ExtensionCall)
        ensures
            *final(self) == *old(self),
            c.selector == spec_selector(ExtensionOp::Transfer),
            c.input@ == le_bytes(asset_id as nat, 4) + address_bytes(*to) + le_bytes(
                value as nat,
                16,
            ),
    {
        asset_account_amount_call(ExtensionOp::Transfer, asset_id, to, value)
    }

    /// The extension call that transfers `value` of the asset from
    /// `from` to `to` on the caller's allowance.
    pub fn transfer_from(
        &mut self,
        asset_id: AssetId,
        from: &Address,
        to: &Address,
        value: Balance,
    ) -> (c: ExtensionCall)
        ensures
            *final(self) == *old(self),
            c.selector == spec_selector(ExtensionOp::TransferFrom),
            c.input@ == le_bytes(asset_id as nat, 4) + address_bytes(*from) + address_bytes(*to)
                + le_bytes(value as nat, 16),
    {
        asset_two_accounts_amount_call(ExtensionOp::TransferFrom, asset_id, from, to, value)
    }

    /// The extension call that approves `spender` for up to `value`
    /// of the asset.
    pub fn approve(&mut self, asset_id: AssetId, spender: &Address, value: Balance) -> (c:
        ExtensionCall)
        ensures
            *final(self) == *old(self),
            c.selector == spec_selector(ExtensionOp::Approve),
            c.input@ == le_bytes(asset_id as nat, 4) + address_bytes(*spender) + le_bytes(
                value as nat,
                16,
            ),
    {
        asset_account_amount_call(ExtensionOp::Approve, asset_id, spender, value)
    }

    /// The extension call that raises the caller's approval of
    /// `spender` by `value` in the asset.
    pub fn increase_allowance(&mut self, asset_id: AssetId, spender: &Address, value: Balance)
        -> (c: ExtensionCall)
        ensures
            *final(self) == *old(self),
            c.selector == spec_selector(ExtensionOp::IncreaseAllowance),
            c.input@ == le_bytes(asset_id as nat, 4) + address_bytes(*spender) + le_bytes(
                value as nat,
                16,
            ),
    {
        asset_account_amount_call(ExtensionOp::IncreaseAllowance, asset_id, spender, value)
    }

    /// The extension call that lowers the caller's approval of
    /// `spender` by `value` in the asset.
    pub fn decrease_allowance(&mut self, asset_id: AssetId, spender: &Address, value: Balance)
        -> (c: ExtensionCall)
        ensures
            *final(self) == *old(self),
            c.selector == spec_selector(ExtensionOp::DecreaseAllowance),
            c.input@ == le_bytes(asset_id as nat, 4) + address_bytes(*spender) + le_bytes(
                value as nat,
                16,
            ),
    {
        asset_account_amount_call(ExtensionOp::DecreaseAllowance, asset_id, spender, value)
    }
}

impl Erc20Trait for Psp22Extension {
    /// The default contract-standard reference configured at
    /// construction.
    closed spec fn delegate_ref(&self) -> Address {
        self.asset_pair
    }

    fn total_supply(&self) -> (c: Erc20Call) {
        Erc20Call { contract: self.asset_pair, op: Erc20Op::TotalSupply }
    }

    fn balance_of(&self, owner: &Address) -> (c: Erc20Call) {
        Erc20Call { contract: self.asset_pair, op: Erc20Op::BalanceOf(*owner) }
    }

    fn allowance(&self, owner: &Address, spender: &Address) -> (c: Erc20Call) {
        Erc20Call { contract: self.asset_pair, op: Erc20Op::Allowance(*owner, *spender) }
    }

    fn transfer(&mut self, to: &Address, value: Balance) -> (c: Erc20Call) {
        Erc20Call { contract: self.asset_pair, op: Erc20Op::Transfer(*to, value) }
    }

    fn approve(&mut self, spender: &Address, value: Balance) -> (c: Erc20Call) {
        Erc20Call { contract: self.asset_pair, op: Erc20Op::Approve(*spender, value) }
    }

    fn transfer_from(&mut self, from: &Address, to: &Address, value: Balance) -> (c: Erc20Call) {
        Erc20Call { contract: self.asset_pair, op: Erc20Op::TransferFrom(*from, *to, value) }
    }
}

} // verus!

