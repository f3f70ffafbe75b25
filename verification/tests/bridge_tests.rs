//! The bridge's entry points, the selector table and the swap steps.

use std::collections::HashMap;

use parity_scale_codec::Encode;

use psp22_bridge::bridge::Erc20Call;
use psp22_bridge::codec::le_decode;
use psp22_bridge::bridge::Erc20Op;
use psp22_bridge::bridge::Erc20Trait;
use psp22_bridge::bridge::Psp22Extension;
use psp22_bridge::error::Psp22Error;
use psp22_bridge::registry::Registry;
use psp22_bridge::selector::op_of_selector;
use psp22_bridge::selector::selector_of;
use psp22_bridge::selector::ExtensionOp;
use psp22_bridge::swap::swap_continue;
use psp22_bridge::swap::swap_finish;
use psp22_bridge::swap::SwapAbort;
use psp22_bridge::swap::SwapOutcome;
use psp22_bridge::swap::SwapPlan;
use psp22_bridge::swap::SwapStep;
use psp22_bridge::swap::TransferFromCall;
use psp22_bridge::types::Address;

fn addr(n: u8) -> Address {
    Address { lo: n as u128, hi: 0x7700 + n as u128 }
}

fn address_raw_bytes(a: &Address) -> [u8; 32] {
    let mut raw = [0u8; 32];
    raw[..16].copy_from_slice(&a.lo.to_le_bytes());
    raw[16..].copy_from_slice(&a.hi.to_le_bytes());
    raw
}

#[test]
fn registering_then_looking_up_returns_the_pair() {
    let mut reg = Registry::new();
    assert_eq!(reg.lookup(7), None);
    reg.register(7, addr(1));
    assert_eq!(reg.lookup(7), Some(addr(1)));
    assert_eq!(reg.lookup(8), None);
}

#[test]
fn last_registration_wins() {
    let mut reg = Registry::new();
    reg.register(7, addr(1));
    reg.register(9, addr(3));
    reg.register(7, addr(2));
    assert_eq!(reg.lookup(7), Some(addr(2)));
    assert_eq!(reg.lookup(9), Some(addr(3)));
}

#[test]
fn swap_for_asset_uses_the_last_registered_pair() {
    let mut bridge = Psp22Extension::new(addr(9));
    bridge.create_asset_pair(1, addr(1));
    bridge.create_asset_pair(1, addr(2));
    let plan = bridge.swap_for_asset(1, 500, &addr(5), &addr(6));
    assert_eq!(
        plan,
        SwapPlan::FirstLeg(TransferFromCall {
            contract: addr(2),
            from: addr(5),
            to: addr(6),
            amount: 500,
        })
    );
}

#[test]
fn swap_for_asset_aborts_on_unregistered_pair() {
    let mut bridge = Psp22Extension::new(addr(9));
    bridge.create_asset_pair(2, addr(1));
    let plan = bridge.swap_for_asset(3, 500, &addr(5), &addr(6));
    assert_eq!(plan, SwapPlan::Abort(SwapAbort::PairNotFound));
}

#[test]
fn swap_asset_uses_the_default_reference() {
    let mut bridge = Psp22Extension::new(addr(9));
    bridge.create_asset_pair(1, addr(1));
    let pull = bridge.swap_asset(1, 250, &addr(5), &addr(6));
    assert_eq!(
        pull,
        TransferFromCall { contract: addr(9), from: addr(5), to: addr(6), amount: 250 }
    );
}

#[test]
fn failed_first_leg_aborts_without_an_extension_call() {
    let step = swap_continue(Err(Psp22Error::TotalSupplyFailed), 1, 250, &addr(5));
    assert_eq!(step, SwapStep::Abort(SwapAbort::ContractLegFailed));
}

#[test]
fn successful_first_leg_dispatches_the_release_to_the_caller() {
    let caller = addr(5);
    let step = swap_continue(Ok(()), 1, 250, &caller);
    match step {
        SwapStep::SecondLeg(call) => {
            assert_eq!(call.selector, 0xdb20);
            let expected = (1u32, address_raw_bytes(&caller), 250u128).encode();
            assert_eq!(call.input, expected);
        }
        SwapStep::Abort(_) => panic!("expected the second leg"),
    }
}

#[test]
fn second_leg_status_ends_the_swap() {
    assert_eq!(swap_finish(0), SwapOutcome::Completed);
    assert_eq!(swap_finish(1), SwapOutcome::Abort(SwapAbort::ExtensionLegFailed));
}

#[test]
fn unknown_second_leg_status_aborts() {
    assert_eq!(swap_finish(2), SwapOutcome::Abort(SwapAbort::ExtensionLegFailed));
    assert_eq!(swap_finish(u32::MAX), SwapOutcome::Abort(SwapAbort::ExtensionLegFailed));
}

#[test]
fn selector_table_round_trips() {
    let ops = [
        ExtensionOp::TokenName,
        ExtensionOp::TokenSymbol,
        ExtensionOp::TokenDecimals,
        ExtensionOp::TotalSupply,
        ExtensionOp::BalanceOf,
        ExtensionOp::Allowance,
        ExtensionOp::Transfer,
        ExtensionOp::TransferFrom,
        ExtensionOp::Approve,
        ExtensionOp::IncreaseAllowance,
        ExtensionOp::DecreaseAllowance,
    ];
    for op in ops {
        assert_eq!(op_of_selector(selector_of(op)), Some(op));
    }
    assert_eq!(op_of_selector(0x9999), None);
}

#[test]
fn facade_builds_the_documented_calls() {
    let mut bridge = Psp22Extension::new(addr(9));
    let owner = addr(4);
    let spender = addr(5);

    let c = bridge.token_name(3);
    assert_eq!(c.selector, 0x3d26);
    assert_eq!(c.input, 3u32.encode());

    let c = bridge.token_symbol(3);
    assert_eq!(c.selector, 0x3420);
    let c = bridge.token_decimals(3);
    assert_eq!(c.selector, 0x7271);
    let c = bridge.total_supply(3);
    assert_eq!(c.selector, 0x162d);
    assert_eq!(c.input, 3u32.encode());

    let c = bridge.balance_of(3, &owner);
    assert_eq!(c.selector, 0x6568);
    assert_eq!(c.input, (3u32, address_raw_bytes(&owner)).encode());

    let c = bridge.allowance(3, &owner, &spender);
    assert_eq!(c.selector, 0x4d47);
    assert_eq!(c.input, (3u32, address_raw_bytes(&owner), address_raw_bytes(&spender)).encode());

    let c = bridge.transfer(3, &owner, 77);
    assert_eq!(c.selector, 0xdb20);
    assert_eq!(c.input, (3u32, address_raw_bytes(&owner), 77u128).encode());

    let c = bridge.transfer_from(3, &owner, &spender, 77);
    assert_eq!(c.selector, 0x54b3);
    assert_eq!(
        c.input,
        (3u32, address_raw_bytes(&owner), address_raw_bytes(&spender), 77u128).encode()
    );

    let c = bridge.approve(3, &spender, 77);
    assert_eq!(c.selector, 0xb20f);
    let c = bridge.increase_allowance(3, &spender, 77);
    assert_eq!(c.selector, 0x96d6);
    let c = bridge.decrease_allowance(3, &spender, 77);
    assert_eq!(c.selector, 0xfecb);
    assert_eq!(c.input, (3u32, address_raw_bytes(&spender), 77u128).encode());
}

#[test]
fn contract_standard_facade_delegates_to_the_default_reference() {
    let mut bridge = Psp22Extension::new(addr(9));
    bridge.create_asset_pair(1, addr(1));
    let owner = addr(4);
    let spender = addr(5);

    assert_eq!(
        Erc20Trait::total_supply(&bridge),
        Erc20Call { contract: addr(9), op: Erc20Op::TotalSupply }
    );
    assert_eq!(
        Erc20Trait::balance_of(&bridge, &owner),
        Erc20Call { contract: addr(9), op: Erc20Op::BalanceOf(owner) }
    );
    assert_eq!(
        Erc20Trait::allowance(&bridge, &owner, &spender),
        Erc20Call { contract: addr(9), op: Erc20Op::Allowance(owner, spender) }
    );
    assert_eq!(
        Erc20Trait::transfer(&mut bridge, &owner, 12),
        Erc20Call { contract: addr(9), op: Erc20Op::Transfer(owner, 12) }
    );
    assert_eq!(
        Erc20Trait::approve(&mut bridge, &spender, 12),
        Erc20Call { contract: addr(9), op: Erc20Op::Approve(spender, 12) }
    );
    assert_eq!(
        Erc20Trait::transfer_from(&mut bridge, &owner, &spender, 12),
        Erc20Call { contract: addr(9), op: Erc20Op::TransferFrom(owner, spender, 12) }
    );
}

#[test]
fn funded_swap_moves_value_across_both_legs() {
    let token = addr(2);
    let caller = addr(5);
    let bridge_account = addr(6);
    let asset_id: u32 = 1;
    let amount: u128 = 400;

    // The test plays the host ledger.
    let mut token_balances: HashMap<(Address, Address), u128> = HashMap::new();
    let mut allowances: HashMap<(Address, Address, Address), u128> = HashMap::new();
    let mut asset_balances: HashMap<(u32, Address), u128> = HashMap::new();
    token_balances.insert((token, caller), 1000);
    token_balances.insert((token, bridge_account), 50);
    allowances.insert((token, caller, bridge_account), 600);
    asset_balances.insert((asset_id, bridge_account), 900);
    asset_balances.insert((asset_id, caller), 30);

    let mut bridge = Psp22Extension::new(addr(9));
    bridge.create_asset_pair(asset_id, token);

    // First leg: perform the planned pull.
    let pull = match bridge.swap_for_asset(asset_id, amount, &caller, &bridge_account) {
        SwapPlan::FirstLeg(pull) => pull,
        SwapPlan::Abort(reason) => panic!("unexpected abort {:?}", reason),
    };
    assert!(allowances[&(pull.contract, pull.from, bridge_account)] >= pull.amount);
    assert!(token_balances[&(pull.contract, pull.from)] >= pull.amount);
    *token_balances.get_mut(&(pull.contract, pull.from)).unwrap() -= pull.amount;
    *token_balances.get_mut(&(pull.contract, pull.to)).unwrap() += pull.amount;
    *allowances.get_mut(&(pull.contract, pull.from, bridge_account)).unwrap() -= pull.amount;

    // Second leg: perform the planned release as the extension would.
    let call = match swap_continue(Ok(()), asset_id, amount, &caller) {
        SwapStep::SecondLeg(call) => call,
        SwapStep::Abort(reason) => panic!("unexpected abort {:?}", reason),
    };
    assert_eq!(call.selector, 0xdb20);
    let sent_asset = le_decode(&call.input, 0, 4) as u32;
    let sent_to = Address {
        lo: le_decode(&call.input, 4, 16),
        hi: le_decode(&call.input, 20, 16),
    };
    let sent_amount = le_decode(&call.input, 36, 16);
    assert!(asset_balances[&(sent_asset, bridge_account)] >= sent_amount);
    *asset_balances.get_mut(&(sent_asset, bridge_account)).unwrap() -= sent_amount;
    *asset_balances.get_mut(&(sent_asset, sent_to)).unwrap() += sent_amount;
    assert_eq!(swap_finish(0), SwapOutcome::Completed);

    // The four balance movements of a completed swap.
    assert_eq!(token_balances[&(token, caller)], 1000 - 400);
    assert_eq!(token_balances[&(token, bridge_account)], 50 + 400);
    assert_eq!(asset_balances[&(asset_id, caller)], 30 + 400);
    assert_eq!(asset_balances[&(asset_id, bridge_account)], 900 - 400);
    assert_eq!(allowances[&(token, caller, bridge_account)], 600 - 400);
}
