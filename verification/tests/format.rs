//! Display helpers and the instruction decoder.

use streamflow::error::StreamError;
use streamflow::instruction::{parse_instruction, StreamOp};
use streamflow::utils::{duration_sanity, encode_base10, pretty_time, u64_to_decimal};

#[test]
fn decimal_rendering() {
    assert_eq!(u64_to_decimal(0), "0");
    assert_eq!(u64_to_decimal(7), "7");
    assert_eq!(u64_to_decimal(1203), "1203");
    assert_eq!(u64_to_decimal(u64::MAX), "18446744073709551615");
}

#[test]
fn base10_encoding() {
    assert_eq!(encode_base10(1234567, 4), "123.4567");
    assert_eq!(encode_base10(100, 2), "1");
    assert_eq!(encode_base10(120, 1), "12");
    assert_eq!(encode_base10(102, 1), "10.2");
    assert_eq!(encode_base10(0, 3), "0");
    assert_eq!(encode_base10(0, 0), "0");
    assert_eq!(encode_base10(5, 3), "0.005");
    assert_eq!(encode_base10(1000000, 6), "1");
    assert_eq!(encode_base10(42, 0), "42");
}

#[test]
fn pretty_time_rendering() {
    assert_eq!(pretty_time(0), "0 days, 0 hours, 0 minutes, 0 seconds");
    assert_eq!(pretty_time(90061), "1 days, 1 hours, 1 minutes, 1 seconds");
    assert_eq!(pretty_time(100), "0 days, 0 hours, 1 minutes, 40 seconds");
}

#[test]
fn duration_sanity_cases() {
    assert!(duration_sanity(50, 100, 200, 0));
    assert!(duration_sanity(50, 100, 200, 150));
    assert!(duration_sanity(50, 100, 200, 100));
    assert!(duration_sanity(50, 100, 200, 200));
    assert!(!duration_sanity(100, 100, 200, 0));
    assert!(!duration_sanity(50, 200, 200, 0));
    assert!(!duration_sanity(50, 100, 200, 99));
    assert!(!duration_sanity(50, 100, 200, 201));
}

#[test]
fn parse_amount_instructions() {
    let mut input = vec![1u8];
    input.extend_from_slice(&500u64.to_le_bytes());
    match parse_instruction(&input).unwrap() {
        StreamOp::Withdraw(a) => assert_eq!(a, 500),
        _ => panic!("expected a withdrawal"),
    }
    input[0] = 4;
    match parse_instruction(&input).unwrap() {
        StreamOp::TopUp(a) => assert_eq!(a, 500),
        _ => panic!("expected a top-up"),
    }
}

#[test]
fn parse_plain_instructions() {
    assert!(matches!(parse_instruction(&[2u8]).unwrap(), StreamOp::Cancel));
    assert!(matches!(parse_instruction(&[3u8]).unwrap(), StreamOp::TransferRecipient));
}

#[test]
fn parse_rejects_malformed_input() {
    assert_eq!(parse_instruction(&[]).unwrap_err(), StreamError::InvalidInstruction);
    assert_eq!(parse_instruction(&[9u8]).unwrap_err(), StreamError::InvalidInstruction);
    // an amount must be exactly eight bytes
    assert_eq!(parse_instruction(&[1u8, 1, 2, 3]).unwrap_err(), StreamError::InvalidInstruction);
    let mut long = vec![1u8];
    long.extend_from_slice(&500u64.to_le_bytes());
    long.push(0);
    assert_eq!(parse_instruction(&long).unwrap_err(), StreamError::InvalidInstruction);
}

#[test]
fn parse_create_round_trip() {
    let ix = streamflow::state::StreamInstruction {
        start_time: 100,
        end_time: 200,
        deposited_amount: 1000,
        total_amount: 1000,
        period: 10,
        cliff: 0,
        cliff_amount: 0,
        cancelable_by_sender: true,
        cancelable_by_recipient: false,
        withdrawal_public: false,
        transferable_by_sender: false,
        transferable_by_recipient: true,
        release_rate: 0,
        stream_name: b"rent".to_vec(),
    };
    let mut input = vec![0u8];
    let terms = streamflow::codec::serialize_terms(&ix);
    input.extend_from_slice(&terms);
    match parse_instruction(&input).unwrap() {
        StreamOp::Create(back) => {
            assert_eq!(back.start_time, 100);
            assert_eq!(back.end_time, 200);
            assert_eq!(back.deposited_amount, 1000);
            assert_eq!(back.stream_name, b"rent".to_vec());
        },
        _ => panic!("expected a creation"),
    }
    // a create payload must hold exactly its terms
    input.push(0);
    assert_eq!(parse_instruction(&input).unwrap_err(), StreamError::InvalidInstruction);
}
