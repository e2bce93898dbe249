//! The persisted byte layout: round trips and malformed buffers.

use streamflow::account::Address;
use streamflow::codec::{deserialize_stream_data, deserialize_terms, serialize_stream_data};
use streamflow::state::TokenStreamData;

fn addr(tag: u8) -> Address {
    Address { bytes: [tag; 32] }
}

fn sample_record() -> TokenStreamData {
    let mut d = TokenStreamData::new(
        1111,
        addr(11),
        addr(12),
        addr(13),
        addr(14),
        addr(15),
        addr(16),
        100,
        200,
        1000,
        1200,
        10,
        120,
        200,
        true,
        false,
        true,
        false,
        true,
        7,
        b"pay stream #1".to_vec(),
    );
    d.withdrawn_amount = 333;
    d.canceled_at = 0;
    d.closable_at = 180;
    d.last_withdrawn_at = 150;
    d
}

#[test]
fn record_round_trip_reproduces_every_field() {
    let d = sample_record();
    let bytes = serialize_stream_data(&d);
    let back = deserialize_stream_data(bytes.as_slice()).unwrap();
    assert_eq!(back.magic, d.magic);
    assert_eq!(back.created_at, d.created_at);
    assert_eq!(back.withdrawn_amount, d.withdrawn_amount);
    assert_eq!(back.canceled_at, d.canceled_at);
    assert_eq!(back.closable_at, d.closable_at);
    assert_eq!(back.last_withdrawn_at, d.last_withdrawn_at);
    assert_eq!(back.sender.bytes, d.sender.bytes);
    assert_eq!(back.sender_tokens.bytes, d.sender_tokens.bytes);
    assert_eq!(back.recipient.bytes, d.recipient.bytes);
    assert_eq!(back.recipient_tokens.bytes, d.recipient_tokens.bytes);
    assert_eq!(back.mint.bytes, d.mint.bytes);
    assert_eq!(back.escrow_tokens.bytes, d.escrow_tokens.bytes);
    assert_eq!(back.ix.start_time, d.ix.start_time);
    assert_eq!(back.ix.end_time, d.ix.end_time);
    assert_eq!(back.ix.deposited_amount, d.ix.deposited_amount);
    assert_eq!(back.ix.total_amount, d.ix.total_amount);
    assert_eq!(back.ix.period, d.ix.period);
    assert_eq!(back.ix.cliff, d.ix.cliff);
    assert_eq!(back.ix.cliff_amount, d.ix.cliff_amount);
    assert_eq!(back.ix.cancelable_by_sender, d.ix.cancelable_by_sender);
    assert_eq!(back.ix.cancelable_by_recipient, d.ix.cancelable_by_recipient);
    assert_eq!(back.ix.withdrawal_public, d.ix.withdrawal_public);
    assert_eq!(back.ix.transferable_by_sender, d.ix.transferable_by_sender);
    assert_eq!(back.ix.transferable_by_recipient, d.ix.transferable_by_recipient);
    assert_eq!(back.ix.release_rate, d.ix.release_rate);
    assert_eq!(back.ix.stream_name, d.ix.stream_name);
}

#[test]
fn serialized_length_and_layout() {
    let d = sample_record();
    let bytes = serialize_stream_data(&d);
    assert_eq!(bytes.len(), 240 + 73 + d.ix.stream_name.len());
    // the version tag leads, little-endian
    assert_eq!(&bytes[0..8], &2u64.to_le_bytes());
    // the sender address sits after the six numeric header fields
    assert_eq!(&bytes[48..80], &[11u8; 32]);
}

#[test]
fn trailing_bytes_are_tolerated() {
    let d = sample_record();
    let mut bytes = serialize_stream_data(&d);
    // records live in storage accounts padded past the serialized length
    bytes.extend_from_slice(&[0u8; 7]);
    let back = deserialize_stream_data(bytes.as_slice()).unwrap();
    assert_eq!(back.withdrawn_amount, d.withdrawn_amount);
    assert_eq!(back.ix.stream_name, d.ix.stream_name);
}

#[test]
fn truncated_buffer_is_rejected() {
    let d = sample_record();
    let bytes = serialize_stream_data(&d);
    assert!(deserialize_stream_data(&bytes[..bytes.len() - 1]).is_none());
    assert!(deserialize_stream_data(&bytes[..100]).is_none());
    assert!(deserialize_stream_data(&[]).is_none());
}

#[test]
fn malformed_boolean_byte_is_rejected() {
    let d = sample_record();
    let mut bytes = serialize_stream_data(&d);
    // the first boolean of the terms sits 56 bytes into them
    bytes[240 + 56] = 2;
    assert!(deserialize_stream_data(bytes.as_slice()).is_none());
}

#[test]
fn terms_parse_reports_consumed_length() {
    let d = sample_record();
    let bytes = serialize_stream_data(&d);
    let (ix, consumed) = deserialize_terms(&bytes[240..]).unwrap();
    assert_eq!(consumed, 73 + d.ix.stream_name.len());
    assert_eq!(ix.start_time, 100);
    assert_eq!(ix.release_rate, 7);
    assert_eq!(ix.stream_name, b"pay stream #1".to_vec());
}
