//! The library's codec against the ledger's canonical codec crate.

use parity_scale_codec::Compact;
use parity_scale_codec::Decode;
use parity_scale_codec::Encode;

use psp22_bridge::codec::encode_address;
use psp22_bridge::codec::le_decode;
use psp22_bridge::codec::le_encode;
use psp22_bridge::client::decode_bytes;
use psp22_bridge::client::encode_bytes;
use psp22_bridge::client::encode_compact_len;
use psp22_bridge::types::Address;

fn address_raw_bytes(a: &Address) -> [u8; 32] {
    let mut raw = [0u8; 32];
    raw[..16].copy_from_slice(&a.lo.to_le_bytes());
    raw[16..].copy_from_slice(&a.hi.to_le_bytes());
    raw
}

#[test]
fn u32_encoding_matches_canonical_codec() {
    for x in [0u32, 1, 255, 256, 0xdead, 0x3d26, u32::MAX] {
        assert_eq!(le_encode(x as u128, 4), x.encode());
    }
}

#[test]
fn u128_encoding_matches_canonical_codec() {
    for x in [0u128, 1, 42, 1u128 << 64, u128::MAX] {
        assert_eq!(le_encode(x, 16), x.encode());
    }
}

#[test]
fn le_decode_inverts_le_encode() {
    for x in [0u128, 7, 65535, u128::from(u64::MAX) + 3, u128::MAX] {
        let bytes = le_encode(x, 16);
        assert_eq!(le_decode(&bytes, 0, 16), x);
    }
    let bytes = le_encode(0xabcd_1234, 4);
    assert_eq!(le_decode(&bytes, 0, 4), 0xabcd_1234);
}

#[test]
fn address_encoding_matches_raw_account_bytes() {
    let a = Address { lo: 0x0102_0304_0506_0708_090a_0b0c_0d0e_0f10, hi: u128::MAX - 9 };
    let raw = address_raw_bytes(&a);
    assert_eq!(encode_address(&a), raw.encode());
    assert_eq!(encode_address(&a).len(), 32);
}

#[test]
fn compact_length_matches_canonical_codec() {
    for m in [0u32, 1, 63, 64, 1000, 16383, 16384, 0x3fff_ffff, 0x4000_0000, u32::MAX] {
        assert_eq!(encode_compact_len(m), Compact(m).encode());
    }
}

#[test]
fn byte_string_encoding_matches_canonical_codec() {
    for len in [0usize, 1, 63, 64, 1000, 16384] {
        let data: Vec<u8> = (0..len).map(|i| (i % 251) as u8).collect();
        assert_eq!(encode_bytes(&data), data.encode());
    }
}

#[test]
fn byte_string_decoding_round_trips() {
    for len in [0usize, 1, 63, 64, 300, 16384] {
        let data: Vec<u8> = (0..len).map(|i| (i % 71) as u8).collect();
        let wire = encode_bytes(&data);
        assert_eq!(decode_bytes(&wire), Some(data));
    }
}

#[test]
fn byte_string_decoding_matches_canonical_codec() {
    let wire = vec![4u8 << 2, 9, 8, 7, 6];
    let ours = decode_bytes(&wire).expect("canonical payload");
    let theirs = <Vec<u8>>::decode(&mut wire.as_slice()).expect("canonical payload");
    assert_eq!(ours, theirs);
    assert_eq!(ours, vec![9, 8, 7, 6]);
}

#[test]
fn byte_string_decoding_rejects_malformed_payloads() {
    // Too short for its own length field.
    assert_eq!(decode_bytes(&vec![4u8 << 2]), None);
    // Trailing bytes beyond the declared length.
    assert_eq!(decode_bytes(&vec![1u8 << 2, 5, 6]), None);
    // Non-minimal mode: a length under 64 in two-byte form.
    assert_eq!(decode_bytes(&vec![(4u8 << 2) | 1, 0, 9]), None);
    // Empty payload.
    assert_eq!(decode_bytes(&Vec::new()), None);
}
