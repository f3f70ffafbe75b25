//! The extension client: framing of byte-string results and the
//! interpretation of each call's reply.
//!
//! A reply is a status code and a payload in the canonical codec. The
//! client maps the status code first; a payload that is not the exact
//! encoding of the expected result type is a protocol violation and
//! fatal, never silently defaulted.

use vstd::prelude::*;
use vstd::arithmetic::div_mod::lemma_fundamental_div_mod;
use vstd::arithmetic::div_mod::lemma_fundamental_div_mod_converse;
use vstd::arithmetic::div_mod::lemma_small_mod;

use crate::codec::le_bytes;
use crate::codec::from_le;
use crate::codec::le_encode;
use crate::codec::le_decode;
use crate::codec::lemma_le_bytes_len;
use crate::codec::lemma_p256_wide;
use crate::codec::lemma_from_le_bound;
use crate::codec::lemma_from_le_mod4;
use crate::codec::lemma_from_le_of_le_bytes;
use crate::codec::lemma_le_bytes_of_from_le;
use crate::error::Psp22Error;
use crate::error::StatusOutcome;
use crate::error::from_status_code;
use crate::selector::ExtensionOp;
use crate::selector::spec_selector;
use crate::selector::selector_of;
use crate::types::Address;
use crate::types::AssetId;
use crate::types::Balance;
use crate::codec::address_bytes;
use crate::codec::encode_address;

verus! {

/// The compact form of a byte-string length: the low two bits of the
/// first byte select single-byte, two-byte, four-byte or big mode.
pub open spec fn compact_len(m: nat) -> Seq<u8> {
    if m < 64 {
        le_bytes(4 * m, 1)
    } else if m < 16384 {
        le_bytes(4 * m + 1, 2)
    } else if m < 0x40000000 {
        le_bytes(4 * m + 2, 4)
    } else {
        seq![3u8] + le_bytes(m, 4)
    }
}

/// The wire form of a byte string: its compact length, then its bytes.
pub open spec fn bytes_enc(data: Seq<u8>) -> Seq<u8> {
    compact_len(data.len()) + data
}

/// How the wire form of a byte string of each length class begins,
/// how long it is, and that it carries the string itself at the end.
pub proof fn lemma_bytes_enc_shape(s: Seq<u8>)
    requires
        s.len() < 0x100000000,
    ensures
        ({
            let p = bytes_enc(s);
            let m = s.len();
            &&& p.len() >= 1
            &&& m < 64 ==> p[0] == 4 * m && p[0] % 4 == 0 && p.len() == 1 + m && p.skip(1) == s
            &&& 64 <= m < 16384 ==> p[0] % 4 == 1 && p.len() == 2 + m && from_le(
                p.subrange(0, 2),
            ) == 4 * m + 1 && p.skip(2) == s
            &&& 16384 <= m < 0x40000000 ==> p[0] % 4 == 2 && p.len() == 4 + m && from_le(
                p.subrange(0, 4),
            ) == 4 * m + 2 && p.skip(4) == s
            &&& m >= 0x40000000 ==> p[0] == 3 && p.len() == 5 + m && from_le(p.subrange(1, 5))
                == m && p.skip(5) == s
        }),
{
    let p = bytes_enc(s);
    let m = s.len();
    lemma_p256_wide();
    if m < 64 {
        lemma_le_bytes_len(4 * m, 1);
        lemma_le_bytes_len(4 * m / 256, 0);
        lemma_small_mod(4 * m, 256);
        assert(compact_len(m) =~= seq![(4 * m % 256) as u8]);
        lemma_fundamental_div_mod_converse(4 * m as int, 4, m as int, 0);
        assert(p.skip(1) =~= s);
    } else if m < 16384 {
        let prefix = le_bytes(4 * m + 1, 2);
        lemma_le_bytes_len(4 * m + 1, 2);
        assert(p.subrange(0, 2) =~= prefix);
        lemma_from_le_of_le_bytes(4 * m + 1, 2);
        lemma_from_le_mod4(prefix);
        lemma_fundamental_div_mod_converse(4 * m as int + 1, 4, m as int, 1);
        assert(p[0] == prefix[0]);
        assert(p.skip(2) =~= s);
    } else if m < 0x40000000 {
        let prefix = le_bytes(4 * m + 2, 4);
        lemma_le_bytes_len(4 * m + 2, 4);
        assert(p.subrange(0, 4) =~= prefix);
        lemma_from_le_of_le_bytes(4 * m + 2, 4);
        lemma_from_le_mod4(prefix);
        lemma_fundamental_div_mod_converse(4 * m as int + 2, 4, m as int, 2);
        assert(p[0] == prefix[0]);
        assert(p.skip(4) =~= s);
    } else {
        lemma_le_bytes_len(m, 4);
        assert(p.subrange(1, 5) =~= le_bytes(m, 4));
        lemma_from_le_of_le_bytes(m, 4);
        assert(p.skip(5) =~= s);
    }
}

/// Encodes a byte-string length in compact form.
pub fn encode_compact_len(m: u32) -> (r: Vec<u8>)
    ensures
        r@ == compact_len(m as nat),
{
    if m < 64 {
        le_encode(4 * (m as u128), 1)
    } else if m < 16384 {
        le_encode(4 * (m as u128) + 1, 2)
    } else if m < 0x40000000 {
        le_encode(4 * (m as u128) + 2, 4)
    } else {
        let mut r: Vec<u8> = Vec::new();
        r.push(3u8);
        let mut tail = le_encode(m as u128, 4);
        r.append(&mut tail);
        proof {
            assert(r@ =~= compact_len(m as nat));
        }
        r
    }
}

/// Encodes a byte string: its compact length, then its bytes.
pub fn encode_bytes(data: &Vec<u8>) -> (r: Vec<u8>)
    requires
        data@.len() < 0x100000000,
    ensures
        r@ == bytes_enc(data@),
{
    let n: usize = data.len();
    let mut r = encode_compact_len(n as u32);
    let mut i: usize = 0;
    proof {
        assert(r@ + data@.take(0) =~= r@);
    }
    while i < n
        invariant
            0 <= i <= n,
            n == data@.len(),
            r@ == compact_len(data@.len()) + data@.take(i as int),
        decreases n - i,
    {
        proof {
            assert((compact_len(data@.len()) + data@.take(i as int)).push(data@[i as int])
                =~= compact_len(data@.len()) + data@.take(i as int + 1));
        }
        r.push(data[i]);
        i = i + 1;
    }
    proof {
        assert(data@.take(n as int) =~= data@);
    }
    r
}

/// Copies the bytes of `src` from `start` on.
fn tail_from(src: &Vec<u8>, start: usize) -> (r: Vec<u8>)
    requires
        start <= src@.len(),
    ensures
        r@ == src@.skip(start as int),
{
    let n: usize = src.len();
    let mut r: Vec<u8> = Vec::new();
    let mut i: usize = start;
    proof {
        assert(src@.subrange(start as int, start as int) =~= r@);
    }
    while i < n
        invariant
            start <= i <= n,
            n == src@.len(),
            r@ == src@.subrange(start as int, i as int),
        decreases n - i,
    {
        proof {
            assert(src@.subrange(start as int, i as int).push(src@[i as int]) =~= src@.subrange(
                start as int,
                i as int + 1,
            ));
        }
        r.push(src[i]);
        i = i + 1;
    }
    proof {
        assert(src@.subrange(start as int, n as int) =~= src@.skip(start as int));
    }
    r
}

/// Decodes a byte string from its exact wire form.
///
/// Returns the carried bytes when the payload is the canonical
/// encoding of exactly one byte string, and `None` for every other
/// payload: wrong mode byte, non-minimal length, or trailing or
/// missing bytes.
pub fn decode_bytes(payload: &Vec<u8>) -> (r: Option<Vec<u8>>)
    ensures
        r is Some ==> r->Some_0@.len() < 0x100000000 && payload@ == bytes_enc(r->Some_0@),
        forall|s: Seq<u8>|
            s.len() < 0x100000000 && payload@ == bytes_enc(s) ==> r is Some && r->Some_0@ == s,
{
    let n: usize = payload.len();
    if n == 0 {
        proof {
            assert forall|s: Seq<u8>| s.len() < 0x100000000 && payload@ == bytes_enc(s) implies false by {
                lemma_bytes_enc_shape(s);
            }
        }
        return None;
    }
    let b0 = payload[0];
    let mode = b0 % 4;
    if mode == 0 {
        let m = (b0 / 4) as usize;
        proof {
            lemma_fundamental_div_mod(b0 as int, 4);
        }
        if n == 1 + m {
            let data = tail_from(payload, 1);
            proof {
                lemma_le_bytes_len(4 * data@.len(), 1);
                lemma_le_bytes_len(4 * data@.len() / 256, 0);
                lemma_small_mod(4 * data@.len(), 256);
                assert(compact_len(data@.len()) =~= seq![b0]);
                assert(payload@ =~= bytes_enc(data@));
                assert forall|s: Seq<u8>| s.len() < 0x100000000 && payload@ == bytes_enc(s)
                    implies s == data@ by {
                    lemma_bytes_enc_shape(s);
                    lemma_fundamental_div_mod_converse(b0 as int, 4, s.len() as int, 0);
                }
            }
            return Some(data);
        } else {
            proof {
                assert forall|s: Seq<u8>| s.len() < 0x100000000 && payload@ == bytes_enc(s)
                    implies false by {
                    lemma_bytes_enc_shape(s);
                    lemma_fundamental_div_mod_converse(b0 as int, 4, s.len() as int, 0);
                }
            }
            return None;
        }
    } else if mode == 1 {
        if n < 2 {
            proof {
                assert forall|s: Seq<u8>| s.len() < 0x100000000 && payload@ == bytes_enc(s)
                    implies false by {
                    lemma_bytes_enc_shape(s);
                }
            }
            return None;
        }
        let v = le_decode(payload, 0, 2);
        let m128: u128 = v / 4;
        proof {
            let pre = payload@.subrange(0, 2);
            lemma_from_le_bound(pre);
            lemma_p256_wide();
            lemma_from_le_mod4(pre);
            lemma_fundamental_div_mod(v as int, 4);
        }
        if m128 >= 64 && (n as u128) == 2 + m128 {
            let data = tail_from(payload, 2);
            proof {
                lemma_le_bytes_of_from_le(payload@.subrange(0, 2));
                assert(payload@ =~= payload@.subrange(0, 2) + payload@.skip(2));
                assert(payload@ == bytes_enc(data@));
                assert forall|s: Seq<u8>| s.len() < 0x100000000 && payload@ == bytes_enc(s)
                    implies s == data@ by {
                    lemma_bytes_enc_shape(s);
                }
            }
            return Some(data);
        } else {
            proof {
                assert forall|s: Seq<u8>| s.len() < 0x100000000 && payload@ == bytes_enc(s)
                    implies false by {
                    lemma_bytes_enc_shape(s);
                }
            }
            return None;
        }
    } else if mode == 2 {
        if n < 4 {
            proof {
                assert forall|s: Seq<u8>| s.len() < 0x100000000 && payload@ == bytes_enc(s)
                    implies false by {
                    lemma_bytes_enc_shape(s);
                }
            }
            return None;
        }
        let v = le_decode(payload, 0, 4);
        let m128: u128 = v / 4;
        proof {
            let pre = payload@.subrange(0, 4);
            lemma_from_le_bound(pre);
            lemma_p256_wide();
            lemma_from_le_mod4(pre);
            lemma_fundamental_div_mod(v as int, 4);
        }
        if m128 >= 16384 && (n as u128) == 4 + m128 {
            let data = tail_from(payload, 4);
            proof {
                lemma_le_bytes_of_from_le(payload@.subrange(0, 4));
                assert(payload@ =~= payload@.subrange(0, 4) + payload@.skip(4));
                assert(payload@ == bytes_enc(data@));
                assert forall|s: Seq<u8>| s.len() < 0x100000000 && payload@ == bytes_enc(s)
                    implies s == data@ by {
                    lemma_bytes_enc_shape(s);
                }
            }
            return Some(data);
        } else {
            proof {
                assert forall|s: Seq<u8>| s.len() < 0x100000000 && payload@ == bytes_enc(s)
                    implies false by {
                    lemma_bytes_enc_shape(s);
                }
            }
            return None;
        }
    } else {
        if b0 != 3 || n < 5 {
            proof {
                assert forall|s: Seq<u8>| s.len() < 0x100000000 && payload@ == bytes_enc(s)
                    implies false by {
                    lemma_bytes_enc_shape(s);
                }
            }
            return None;
        }
        let v = le_decode(payload, 1, 4);
        proof {
            let pre = payload@.subrange(1, 5);
            lemma_from_le_bound(pre);
            lemma_p256_wide();
        }
        if v >= 0x40000000 && (n as u128) == 5 + v {
            let data = tail_from(payload, 5);
            proof {
                lemma_le_bytes_of_from_le(payload@.subrange(1, 5));
                assert(compact_len(data@.len()) =~= seq![3u8] + payload@.subrange(1, 5));
                assert(payload@ =~= compact_len(data@.len()) + payload@.skip(5));
                assert(payload@ == bytes_enc(data@));
                assert forall|s: Seq<u8>| s.len() < 0x100000000 && payload@ == bytes_enc(s)
                    implies s == data@ by {
                    lemma_bytes_enc_shape(s);
                }
            }
            return Some(data);
        } else {
            proof {
                assert forall|s: Seq<u8>| s.len() < 0x100000000 && payload@ == bytes_enc(s)
                    implies false by {
                    lemma_bytes_enc_shape(s);
                }
            }
            return None;
        }
    }
}

/// One call to the host extension, ready to dispatch: the selector
/// under which the host routes it and its encoded input.
#[derive(Debug, PartialEq, Eq)]
pub struct ExtensionCall {
    pub selector: u32,
    pub input: Vec<u8>,
}

/// Builds the call of an operation whose only argument is the asset id:
/// `token_name`, `token_symbol`, `token_decimals`, `total_supply`.
pub fn asset_call(op: ExtensionOp, asset_id: AssetId) -> (c: ExtensionCall)
    ensures
        c.selector == spec_selector(op),
        c.input@ == le_bytes(asset_id as nat, 4),
{
    ExtensionCall { selector: selector_of(op), input: le_encode(asset_id as u128, 4) }
}

/// Builds the call of an operation on the asset and one account:
/// `balance_of`.
pub fn asset_account_call(op: ExtensionOp, asset_id: AssetId, who: &Address) -> (c: ExtensionCall)
    ensures
        c.selector == spec_selector(op),
        c.input@ == le_bytes(asset_id as nat, 4) + address_bytes(*who),
{
    let mut input = le_encode(asset_id as u128, 4);
    let mut a = encode_address(who);
    input.append(&mut a);
    ExtensionCall { selector: selector_of(op), input }
}

/// Builds the call of an operation on the asset and two accounts:
/// `allowance`.
pub fn asset_two_accounts_call(
    op: ExtensionOp,
    asset_id: AssetId,
    first: &Address,
    second: &Address,
) -> (c: ExtensionCall)
    ensures
        c.selector == spec_selector(op),
        c.input@ == le_bytes(asset_id as nat, 4) + address_bytes(*first) + address_bytes(*second),
{
    let mut input = le_encode(asset_id as u128, 4);
    let mut a = encode_address(first);
    let mut b = encode_address(second);
    input.append(&mut a);
    input.append(&mut b);
    ExtensionCall { selector: selector_of(op), input }
}

/// Builds the call of an operation on the asset, one account and an
/// amount: `transfer`, `approve`, `increase_allowance`,
/// `decrease_allowance`.
pub fn asset_account_amount_call(
    op: ExtensionOp,
    asset_id: AssetId,
    who: &Address,
    amount: Balance,
) -> (c: ExtensionCall)
    ensures
        c.selector == spec_selector(op),
        c.input@ == le_bytes(asset_id as nat, 4) + address_bytes(*who) + le_bytes(
            amount as nat,
            16,
        ),
{
    let mut input = le_encode(asset_id as u128, 4);
    let mut a = encode_address(who);
    let mut v = le_encode(amount, 16);
    input.append(&mut a);
    input.append(&mut v);
    ExtensionCall { selector: selector_of(op), input }
}

/// Builds the call of an operation on the asset, two accounts and an
/// amount: `transfer_from`.
pub fn asset_two_accounts_amount_call(
    op: ExtensionOp,
    asset_id: AssetId,
    first: &Address,
    second: &Address,
    amount: Balance,
) -> (c: ExtensionCall)
    ensures
        c.selector == spec_selector(op),
        c.input@ == le_bytes(asset_id as nat, 4) + address_bytes(*first) + address_bytes(*second)
            + le_bytes(amount as nat, 16),
{
    let mut input = le_encode(asset_id as u128, 4);
    let mut a = encode_address(first);
    let mut b = encode_address(second);
    let mut v = le_encode(amount, 16);
    input.append(&mut a);
    input.append(&mut b);
    input.append(&mut v);
    ExtensionCall { selector: selector_of(op), input }
}

/// A typed reply of one extension call: the requested value, the one
/// recoverable domain error, or a fatal protocol violation.
#[derive(Debug, PartialEq, Eq)]
pub enum Reply<T> {
    Value(T),
    Failure(Psp22Error),
    Fatal,
}

/// Interprets the reply of a call that returns a balance or amount:
/// `total_supply`, `balance_of` and `allowance`.
pub fn balance_reply(status_code: u32, payload: &Vec<u8>) -> (r: Reply<Balance>)
    ensures
        status_code == 1 ==> r == Reply::<Balance>::Failure(Psp22Error::TotalSupplyFailed),
        status_code != 0 && status_code != 1 ==> r == Reply::<Balance>::Fatal,
        status_code == 0 && payload@.len() != 16 ==> r == Reply::<Balance>::Fatal,
        status_code == 0 && payload@.len() == 16 ==> (r matches Reply::Value(v) && v as nat
            == from_le(payload@)),
{
    match from_status_code(status_code) {
        StatusOutcome::Accepted => {
            if payload.len() == 16 {
                proof {
                    assert(payload@.subrange(0, 16) =~= payload@);
                }
                Reply::Value(le_decode(payload, 0, 16))
            } else {
                Reply::Fatal
            }
        },
        StatusOutcome::Rejected(e) => Reply::Failure(e),
        StatusOutcome::Fatal => Reply::Fatal,
    }
}

/// Interprets the reply of `token_decimals`, which returns one byte.
pub fn decimals_reply(status_code: u32, payload: &Vec<u8>) -> (r: Reply<u8>)
    ensures
        status_code == 1 ==> r == Reply::<u8>::Failure(Psp22Error::TotalSupplyFailed),
        status_code != 0 && status_code != 1 ==> r == Reply::<u8>::Fatal,
        status_code == 0 && payload@.len() != 1 ==> r == Reply::<u8>::Fatal,
        status_code == 0 && payload@.len() == 1 ==> r == Reply::Value(payload@[0]),
{
    match from_status_code(status_code) {
        StatusOutcome::Accepted => {
            if payload.len() == 1 {
                Reply::Value(payload[0])
            } else {
                Reply::Fatal
            }
        },
        StatusOutcome::Rejected(e) => Reply::Failure(e),
        StatusOutcome::Fatal => Reply::Fatal,
    }
}

/// Interprets the reply of a call that returns nothing: `transfer`,
/// `transfer_from`, `approve`, `increase_allowance`,
/// `decrease_allowance`.
pub fn unit_reply(status_code: u32, payload: &Vec<u8>) -> (r: Reply<()>)
    ensures
        status_code == 1 ==> r == Reply::<()>::Failure(Psp22Error::TotalSupplyFailed),
        status_code != 0 && status_code != 1 ==> r == Reply::<()>::Fatal,
        status_code == 0 && payload@.len() != 0 ==> r == Reply::<()>::Fatal,
        status_code == 0 && payload@.len() == 0 ==> r == Reply::<()>::Value(()),
{
    match from_status_code(status_code) {
        StatusOutcome::Accepted => {
            if payload.len() == 0 {
                Reply::Value(())
            } else {
                Reply::Fatal
            }
        },
        StatusOutcome::Rejected(e) => Reply::Failure(e),
        StatusOutcome::Fatal => Reply::Fatal,
    }
}

/// Interprets the reply of `token_name` and `token_symbol`, which
/// return a byte string in its wire form.
pub fn bytes_reply(status_code: u32, payload: &Vec<u8>) -> (r: Reply<Vec<u8>>)
    ensures
        status_code == 1 ==> r == Reply::<Vec<u8>>::Failure(Psp22Error::TotalSupplyFailed),
        status_code != 0 && status_code != 1 ==> r == Reply::<Vec<u8>>::Fatal,
        status_code == 0 ==> !(r is Failure),
        status_code == 0 ==> (r matches Reply::Value(v) ==> payload@ == bytes_enc(v@)),
        status_code == 0 ==> forall|s: Seq<u8>|
            s.len() < 0x100000000 && payload@ == bytes_enc(s) ==> (r matches Reply::Value(v)
                && v@ == s),
{
    match from_status_code(status_code) {
        StatusOutcome::Accepted => {
            match decode_bytes(payload) {
                Some(v) => Reply::Value(v),
                None => Reply::Fatal,
            }
        },
        StatusOutcome::Rejected(e) => Reply::Failure(e),
        StatusOutcome::Fatal => Reply::Fatal,
    }
}

} // verus!
