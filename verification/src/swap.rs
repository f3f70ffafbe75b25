//! The two-leg swap protocol.
//!
//! A swap moves value from the contract-standard representation into
//! the extension-standard one: first pull `amount` from the caller
//! into the bridge's custody through the token contract's
//! `transfer_from`, then instruct the host extension to release
//! `amount` of the asset to the caller. Either leg failing aborts the
//! whole call; the host ledger's all-or-nothing transaction semantics
//! then discard every effect of the call, including a first leg that
//! had already succeeded. The decisions of the protocol live here as
//! verified step functions; an unverified shell performs the two
//! outside calls between them.

use vstd::prelude::*;

use crate::client::ExtensionCall;
use crate::client::asset_account_amount_call;
use crate::codec::address_bytes;
use crate::codec::le_bytes;
use crate::error::Psp22Error;
use crate::selector::ExtensionOp;
use crate::selector::spec_selector;
use crate::types::Address;
use crate::types::AssetId;
use crate::types::Balance;

verus! {

/// Why a swap aborted. Every abort is fatal: the enclosing
/// transaction reverts, it does not return an error value.
#[derive(Clone, Copy, Debug, PartialEq, Eq, Structural)]
pub enum SwapAbort {
    PairNotFound,
    ContractLegFailed,
    ExtensionLegFailed,
}

/// The first leg of a swap: pull `amount` of `contract`'s tokens from
/// `from` into the custody of `to` (the bridge), spending the
/// allowance that `from` granted the spender of the pull.
#[derive(Clone, Copy, Debug, PartialEq, Eq, Structural)]
pub struct TransferFromCall {
    pub contract: Address,
    pub from: Address,
    pub to: Address,
    pub amount: Balance,
}

/// What a swap does first: abort, or perform the contract-standard
/// leg.
#[derive(Clone, Copy, Debug, PartialEq, Eq, Structural)]
pub enum SwapPlan {
    Abort(SwapAbort),
    FirstLeg(TransferFromCall),
}

/// What a swap does after the first leg: abort, or dispatch the
/// extension-standard leg.
#[derive(Debug, PartialEq, Eq)]
pub enum SwapStep {
    Abort(SwapAbort),
    SecondLeg(ExtensionCall),
}

/// How a swap ends after the second leg's reply.
#[derive(Clone, Copy, Debug, PartialEq, Eq, Structural)]
pub enum SwapOutcome {
    Completed,
    Abort(SwapAbort),
}

/// The first step of a registry-routed swap: resolve the pair for
/// `asset_id`, and plan the contract-standard pull from `caller` into
/// the bridge's own account.
pub open spec fn swap_plan(
    pairs: Map<AssetId, Address>,
    asset_id: AssetId,
    amount: Balance,
    caller: Address,
    own_account: Address,
) -> SwapPlan {
    if pairs.contains_key(asset_id) {
        SwapPlan::FirstLeg(
            TransferFromCall { contract: pairs[asset_id], from: caller, to: own_account, amount },
        )
    } else {
        SwapPlan::Abort(SwapAbort::PairNotFound)
    }
}

/// How the second leg's status code ends the swap: only status 0
/// completes it; every other status, known or unknown, aborts.
pub open spec fn outcome_of(status_code: u32) -> SwapOutcome {
    if status_code == 0 {
        SwapOutcome::Completed
    } else {
        SwapOutcome::Abort(SwapAbort::ExtensionLegFailed)
    }
}

/// Decides the step after the contract-standard leg: abort on its
/// failure, else the extension call that releases `amount` of
/// `asset_id` to `caller`. No extension call is ever produced for a
/// failed first leg.
pub fn swap_continue(
    first_leg: Result<(), Psp22Error>,
    asset_id: AssetId,
    amount: Balance,
    caller: &Address,
) -> (r: SwapStep)
    ensures
        first_leg is Err ==> r == SwapStep::Abort(SwapAbort::ContractLegFailed),
        first_leg is Ok ==> (r matches SwapStep::SecondLeg(c) && c.selector == spec_selector(
            ExtensionOp::Transfer,
        ) && c.input@ == le_bytes(asset_id as nat, 4) + address_bytes(*caller) + le_bytes(
            amount as nat,
            16,
        )),
{
    match first_leg {
        Ok(_) => SwapStep::SecondLeg(
            asset_account_amount_call(ExtensionOp::Transfer, asset_id, caller, amount),
        ),
        Err(_) => SwapStep::Abort(SwapAbort::ContractLegFailed),
    }
}

/// Ends the swap on the second leg's status code.
pub fn swap_finish(status_code: u32) -> (r: SwapOutcome)
    ensures
        r == outcome_of(status_code),
{
    if status_code == 0 {
        SwapOutcome::Completed
    } else {
        SwapOutcome::Abort(SwapAbort::ExtensionLegFailed)
    }
}

/// The bridge's model of the host ledger: balances per token contract
/// and holder, allowances per token contract, owner and spender, and
/// extension-standard balances per asset id and holder. Absent keys
/// hold zero.
pub struct HostLedger {
    pub token_balances: Map<(Address, Address), nat>,
    pub token_allowances: Map<(Address, Address, Address), nat>,
    pub asset_balances: Map<(AssetId, Address), nat>,
}

/// The contract-standard balance of `who` on token `contract`.
pub open spec fn token_balance(l: HostLedger, contract: Address, who: Address) -> nat {
    if l.token_balances.contains_key((contract, who)) {
        l.token_balances[(contract, who)]
    } else {
        0
    }
}

/// What `spender` may still pull from `owner` on token `contract`.
pub open spec fn token_allowance(
    l: HostLedger,
    contract: Address,
    owner: Address,
    spender: Address,
) -> nat {
    if l.token_allowances.contains_key((contract, owner, spender)) {
        l.token_allowances[(contract, owner, spender)]
    } else {
        0
    }
}

/// The extension-standard balance of `who` in asset `asset_id`.
pub open spec fn asset_balance(l: HostLedger, asset_id: AssetId, who: Address) -> nat {
    if l.asset_balances.contains_key((asset_id, who)) {
        l.asset_balances[(asset_id, who)]
    } else {
        0
    }
}

/// Whether the token contract accepts the pull: the owner holds at
/// least the amount and has approved `spender` for at least it.
pub open spec fn can_pull(l: HostLedger, t: TransferFromCall, spender: Address) -> bool {
    &&& token_balance(l, t.contract, t.from) >= t.amount
    &&& token_allowance(l, t.contract, t.from, spender) >= t.amount
}

/// The ledger after a successful contract-standard `transfer_from`:
/// the owner is debited, then the recipient credited, and the
/// spender's allowance consumed.
pub open spec fn apply_pull(l: HostLedger, t: TransferFromCall, spender: Address) -> HostLedger {
    let debited = HostLedger {
        token_balances: l.token_balances.insert(
            (t.contract, t.from),
            (token_balance(l, t.contract, t.from) - t.amount) as nat,
        ),
        token_allowances: l.token_allowances,
        asset_balances: l.asset_balances,
    };
    let credited = HostLedger {
        token_balances: debited.token_balances.insert(
            (t.contract, t.to),
            (token_balance(debited, t.contract, t.to) + t.amount) as nat,
        ),
        token_allowances: debited.token_allowances,
        asset_balances: debited.asset_balances,
    };
    HostLedger {
        token_balances: credited.token_balances,
        token_allowances: credited.token_allowances.insert(
            (t.contract, t.from, spender),
            (token_allowance(l, t.contract, t.from, spender) - t.amount) as nat,
        ),
        asset_balances: credited.asset_balances,
    }
}

/// Whether the extension can release the amount: the source holds at
/// least it in the asset.
pub open spec fn can_release(
    l: HostLedger,
    asset_id: AssetId,
    from: Address,
    amount: Balance,
) -> bool {
    asset_balance(l, asset_id, from) >= amount
}

/// The ledger after a successful extension-standard transfer: the
/// source is debited, then the recipient credited.
pub open spec fn apply_release(
    l: HostLedger,
    asset_id: AssetId,
    from: Address,
    to: Address,
    amount: Balance,
) -> HostLedger {
    let debited = HostLedger {
        token_balances: l.token_balances,
        token_allowances: l.token_allowances,
        asset_balances: l.asset_balances.insert(
            (asset_id, from),
            (asset_balance(l, asset_id, from) - amount) as nat,
        ),
    };
    HostLedger {
        token_balances: debited.token_balances,
        token_allowances: debited.token_allowances,
        asset_balances: debited.asset_balances.insert(
            (asset_id, to),
            (asset_balance(debited, asset_id, to) + amount) as nat,
        ),
    }
}

/// The ledger that survives the call: the host commits the built-up
/// state only when the call completed; an aborted call reverts to the
/// state before it.
pub open spec fn committed(pre: HostLedger, post: HostLedger, complete: bool) -> HostLedger {
    if complete {
        post
    } else {
        pre
    }
}

/// A swap for an unregistered asset id aborts with the pair-not-found
/// abort before either leg, and an aborted call commits nothing: the
/// surviving ledger is the state before the call.
pub proof fn lemma_unregistered_swap_changes_nothing(
    pairs: Map<AssetId, Address>,
    asset_id: AssetId,
    amount: Balance,
    caller: Address,
    own_account: Address,
    pre: HostLedger,
    post: HostLedger,
)
    requires
        !pairs.contains_key(asset_id),
    ensures
        swap_plan(pairs, asset_id, amount, caller, own_account) == SwapPlan::Abort(
            SwapAbort::PairNotFound,
        ),
        committed(pre, post, false) == pre,
{
}

/// A funded and approved swap moves `amount` across both legs: the
/// caller's contract-standard balance falls by `amount`, the bridge's
/// rises by it, the caller's extension-standard balance rises by it,
/// and the bridge's falls by it.
pub proof fn lemma_swap_moves_value(
    pairs: Map<AssetId, Address>,
    asset_id: AssetId,
    amount: Balance,
    caller: Address,
    own_account: Address,
    pre: HostLedger,
)
    requires
        pairs.contains_key(asset_id),
        caller != own_account,
        can_pull(
            pre,
            TransferFromCall {
                contract: pairs[asset_id],
                from: caller,
                to: own_account,
                amount,
            },
            own_account,
        ),
        can_release(pre, asset_id, own_account, amount),
    ensures
        ({
            let plan = swap_plan(pairs, asset_id, amount, caller, own_account);
            let pull = plan->FirstLeg_0;
            let mid = apply_pull(pre, pull, own_account);
            let fin = apply_release(mid, asset_id, own_account, caller, amount);
            &&& plan is FirstLeg
            &&& pull.contract == pairs[asset_id]
            &&& token_balance(fin, pull.contract, caller) == token_balance(
                pre,
                pull.contract,
                caller,
            ) - amount
            &&& token_balance(fin, pull.contract, own_account) == token_balance(
                pre,
                pull.contract,
                own_account,
            ) + amount
            &&& asset_balance(fin, asset_id, caller) == asset_balance(pre, asset_id, caller)
                + amount
            &&& asset_balance(fin, asset_id, own_account) == asset_balance(
                pre,
                asset_id,
                own_account,
            ) - amount
        }),
{
}

/// If the contract-standard leg fails, the swap aborts: the step
/// after it carries no extension call, and the committed ledger is
/// the state before the call.
pub proof fn lemma_failed_first_leg_changes_nothing(
    first_leg: Result<(), Psp22Error>,
    pre: HostLedger,
    post: HostLedger,
)
    requires
        first_leg is Err,
    ensures
        committed(pre, post, false) == pre,
{
}

/// If the contract-standard leg succeeded but the extension leg
/// reports any nonzero status, the swap does not complete, and the
/// host's atomicity reverts the committed ledger to the state before
/// the call, undoing the first leg as well.
pub proof fn lemma_failed_second_leg_reverts(
    status_code: u32,
    pre: HostLedger,
    post: HostLedger,
)
    requires
        status_code != 0,
    ensures
        outcome_of(status_code) == SwapOutcome::Abort(SwapAbort::ExtensionLegFailed),
        committed(pre, post, false) == pre,
{
}

} // verus!
