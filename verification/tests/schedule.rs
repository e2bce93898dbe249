//! The release-schedule engine on concrete schedules.

use streamflow::account::Address;
use streamflow::state::TokenStreamData;

fn addr(tag: u8) -> Address {
    Address { bytes: [tag; 32] }
}

#[allow(clippy::too_many_arguments)]
fn record(
    start: u64,
    end: u64,
    period: u64,
    cliff: u64,
    cliff_amount: u64,
    total: u64,
    deposited: u64,
    release_rate: u64,
) -> TokenStreamData {
    TokenStreamData::new(
        50,
        addr(1),
        addr(2),
        addr(3),
        addr(4),
        addr(5),
        addr(6),
        start,
        end,
        deposited,
        total,
        period,
        cliff,
        cliff_amount,
        true,
        false,
        false,
        false,
        true,
        release_rate,
        b"Stream".to_vec(),
    )
}

fn linear_stream() -> TokenStreamData {
    record(100, 200, 10, 0, 0, 1000, 1000, 0)
}

#[test]
fn linear_stream_midway_and_end() {
    let d = linear_stream();
    assert_eq!(d.checked_available(150).unwrap(), 500);
    assert_eq!(d.checked_available(200).unwrap(), 1000);
    assert_eq!(d.available(150), 500);
    assert_eq!(d.available(200), 1000);
}

#[test]
fn nothing_before_the_start() {
    let d = linear_stream();
    assert_eq!(d.checked_available(99).unwrap(), 0);
    assert_eq!(d.checked_available(100).unwrap(), 0);
}

#[test]
fn cliff_lump_unlocks_at_the_cliff() {
    let d = record(100, 200, 10, 120, 200, 1000, 1000, 0);
    assert_eq!(d.checked_available(119).unwrap(), 0);
    assert_eq!(d.checked_available(121).unwrap(), 200);
}

#[test]
fn fully_vested_remainder_after_end() {
    let mut d = linear_stream();
    d.withdrawn_amount = 300;
    assert_eq!(d.checked_available(200).unwrap(), 700);
    assert_eq!(d.checked_available(100_000).unwrap(), 700);
}

#[test]
fn available_nondecreasing_sampled() {
    let d = record(100, 200, 7, 130, 250, 1000, 1000, 0);
    let mut last = 0u64;
    for now in 90..=200u64 {
        let v = d.checked_available(now).unwrap();
        assert!(v >= last, "available fell from {} to {} at {}", last, v, now);
        last = v;
    }
}

#[test]
fn available_with_release_rate() {
    // 20 per 10-second period, started at 100
    let d = record(100, 200, 10, 0, 0, 1000, 1000, 20);
    assert_eq!(d.checked_available(150).unwrap(), 100);
    // a fixed rate keeps releasing past the end of the schedule
    assert_eq!(d.checked_available(300).unwrap(), 400);
}

#[test]
fn invariant_violating_record_is_rejected() {
    let mut d = linear_stream();
    d.withdrawn_amount = 2000;
    assert!(d.checked_available(150).is_none());
    let mut z = linear_stream();
    z.ix.period = 0;
    assert!(z.checked_available(150).is_none());
}

#[test]
fn closable_linear_stream() {
    let d = linear_stream();
    // 10 per second; 1000/10 + 1 seconds from the start, clamped to the end
    assert!(d.closable_ready());
    assert_eq!(d.closable(), 200);
}

#[test]
fn closable_partially_funded() {
    let d = record(100, 200, 10, 0, 0, 1000, 400, 0);
    assert!(d.closable_ready());
    assert_eq!(d.closable(), 141);
}

#[test]
fn closable_with_release_rate() {
    let d = record(100, 200, 10, 0, 0, 1000, 1000, 20);
    // 2 per second: 500 + 1 seconds from the start, not clamped
    assert!(d.closable_ready());
    assert_eq!(d.closable(), 601);
}

#[test]
fn closable_deposit_below_cliff_amount() {
    let d = record(100, 200, 10, 120, 500, 1000, 400, 0);
    assert!(d.closable_ready());
    assert_eq!(d.closable(), 120);
}

#[test]
fn new_record_defaults() {
    let d = linear_stream();
    assert_eq!(d.magic, 2);
    assert_eq!(d.created_at, 50);
    assert_eq!(d.withdrawn_amount, 0);
    assert_eq!(d.canceled_at, 0);
    assert_eq!(d.closable_at, 200);
    assert_eq!(d.last_withdrawn_at, 0);
    assert_eq!(d.ix.stream_name, b"Stream".to_vec());
}

#[test]
fn default_terms() {
    let ix = <streamflow::state::StreamInstruction as Default>::default();
    assert_eq!(ix.period, 1);
    assert!(ix.cancelable_by_sender);
    assert!(!ix.cancelable_by_recipient);
    assert!(ix.transferable_by_recipient);
    assert!(!ix.transferable_by_sender);
    assert_eq!(ix.stream_name, b"Stream".to_vec());
}
