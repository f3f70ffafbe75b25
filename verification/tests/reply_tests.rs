//! Status-code mapping and reply interpretation.

use parity_scale_codec::Encode;

use psp22_bridge::client::balance_reply;
use psp22_bridge::client::bytes_reply;
use psp22_bridge::client::decimals_reply;
use psp22_bridge::client::unit_reply;
use psp22_bridge::client::Reply;
use psp22_bridge::error::from_status_code;
use psp22_bridge::error::Psp22Error;
use psp22_bridge::error::StatusOutcome;

#[test]
fn status_zero_is_success() {
    assert_eq!(from_status_code(0), StatusOutcome::Accepted);
}

#[test]
fn status_one_is_the_aggregate_query_failure() {
    assert_eq!(
        from_status_code(1),
        StatusOutcome::Rejected(Psp22Error::TotalSupplyFailed)
    );
}

#[test]
fn unknown_status_codes_are_fatal() {
    assert_eq!(from_status_code(2), StatusOutcome::Fatal);
    assert_eq!(from_status_code(3), StatusOutcome::Fatal);
    assert_eq!(from_status_code(u32::MAX), StatusOutcome::Fatal);
}

#[test]
fn balance_reply_decodes_the_value() {
    let payload = 42u128.encode();
    assert_eq!(balance_reply(0, &payload), Reply::Value(42));
    let payload = u128::MAX.encode();
    assert_eq!(balance_reply(0, &payload), Reply::Value(u128::MAX));
}

#[test]
fn balance_reply_maps_the_domain_error() {
    let payload = 42u128.encode();
    assert_eq!(
        balance_reply(1, &payload),
        Reply::Failure(Psp22Error::TotalSupplyFailed)
    );
}

#[test]
fn balance_reply_is_fatal_on_unknown_status_or_bad_payload() {
    let payload = 42u128.encode();
    assert_eq!(balance_reply(2, &payload), Reply::Fatal);
    assert_eq!(balance_reply(0, &vec![1, 2, 3]), Reply::Fatal);
    assert_eq!(balance_reply(0, &Vec::new()), Reply::Fatal);
}

#[test]
fn decimals_reply_reads_one_byte() {
    assert_eq!(decimals_reply(0, &vec![12]), Reply::Value(12));
    assert_eq!(decimals_reply(0, &vec![12, 0]), Reply::Fatal);
    assert_eq!(decimals_reply(1, &vec![12]), Reply::Failure(Psp22Error::TotalSupplyFailed));
    assert_eq!(decimals_reply(7, &vec![12]), Reply::Fatal);
}

#[test]
fn unit_reply_accepts_only_an_empty_payload() {
    assert_eq!(unit_reply(0, &Vec::new()), Reply::Value(()));
    assert_eq!(unit_reply(0, &vec![0]), Reply::Fatal);
    assert_eq!(unit_reply(1, &Vec::new()), Reply::Failure(Psp22Error::TotalSupplyFailed));
    assert_eq!(unit_reply(9, &Vec::new()), Reply::Fatal);
}

#[test]
fn bytes_reply_decodes_a_token_name() {
    let name: Vec<u8> = b"BRIDGED".to_vec();
    let payload = name.encode();
    assert_eq!(bytes_reply(0, &payload), Reply::Value(name));
}

#[test]
fn bytes_reply_is_fatal_on_malformed_encoding() {
    // A length field that promises more bytes than follow.
    assert_eq!(bytes_reply(0, &vec![40, 1, 2]), Reply::Fatal);
    assert_eq!(bytes_reply(3, &Vec::new()), Reply::Fatal);
    assert_eq!(
        bytes_reply(1, &Vec::new()),
        Reply::Failure(Psp22Error::TotalSupplyFailed)
    );
}
