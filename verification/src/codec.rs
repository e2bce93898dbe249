//! The persisted byte layout of a stream record.
//!
//! A record serializes to a fixed schema: six little-endian `u64` header
//! fields, six 32-byte addresses, the embedded terms (seven `u64` fields,
//! five one-byte booleans, the release rate, then the name as a `u32` length
//! prefix and its bytes).  Reading tolerates trailing bytes, because records
//! live in storage accounts padded past the serialized length; a malformed
//! boolean byte or a short buffer fails the read.

use vstd::bytes::{
    lemma_auto_spec_u32_to_from_le_bytes, lemma_auto_spec_u64_to_from_le_bytes,
    spec_u32_from_le_bytes, spec_u32_to_le_bytes, spec_u64_from_le_bytes, spec_u64_to_le_bytes,
    u32_from_le_bytes, u32_to_le_bytes, u64_from_le_bytes, u64_to_le_bytes,
};
use vstd::prelude::*;
use vstd::slice::{slice_subrange, slice_to_vec};

use crate::account::Address;
use crate::state::{StreamInstruction, TokenStreamData};

verus! {

/// Bytes of the terms before the name: 7 numeric fields, 5 booleans, the
/// release rate, and the name-length prefix.
pub const TERMS_FIXED_LEN: usize = 73;

/// Bytes of a record before its embedded terms: 6 numeric fields and 6
/// addresses.
pub const DATA_HEADER_LEN: usize = 240;

pub open spec fn spec_bool_byte(b: bool) -> u8 {
    if b {
        1u8
    } else {
        0u8
    }
}

/// A byte a boolean may decode from.
pub open spec fn valid_bool_byte(b: u8) -> bool {
    b == 0 || b == 1
}

/// The serialized form of the terms.
pub open spec fn spec_serialize_terms(ix: StreamInstruction) -> Seq<u8> {
    spec_u64_to_le_bytes(ix.start_time) + spec_u64_to_le_bytes(ix.end_time)
        + spec_u64_to_le_bytes(ix.deposited_amount) + spec_u64_to_le_bytes(ix.total_amount)
        + spec_u64_to_le_bytes(ix.period) + spec_u64_to_le_bytes(ix.cliff) + spec_u64_to_le_bytes(
        ix.cliff_amount,
    ) + seq![
        spec_bool_byte(ix.cancelable_by_sender),
        spec_bool_byte(ix.cancelable_by_recipient),
        spec_bool_byte(ix.withdrawal_public),
        spec_bool_byte(ix.transferable_by_sender),
        spec_bool_byte(ix.transferable_by_recipient),
    ] + spec_u64_to_le_bytes(ix.release_rate) + spec_u32_to_le_bytes(
        ix.stream_name@.len() as u32,
    ) + ix.stream_name@
}

/// The serialized form of a whole record.
pub open spec fn spec_serialize_data(d: TokenStreamData) -> Seq<u8> {
    spec_u64_to_le_bytes(d.magic) + spec_u64_to_le_bytes(d.created_at) + spec_u64_to_le_bytes(
        d.withdrawn_amount,
    ) + spec_u64_to_le_bytes(d.canceled_at) + spec_u64_to_le_bytes(d.closable_at)
        + spec_u64_to_le_bytes(d.last_withdrawn_at) + d.sender@ + d.sender_tokens@ + d.recipient@
        + d.recipient_tokens@ + d.mint@ + d.escrow_tokens@ + spec_serialize_terms(d.ix)
}

/// Length of the name announced by a terms region.
pub open spec fn spec_terms_name_len(s: Seq<u8>) -> int {
    spec_u32_from_le_bytes(s.subrange(69, 73)) as int
}

/// The region decodes as terms: long enough for the fixed part and the
/// announced name, with well-formed boolean bytes.  Trailing bytes beyond the
/// name are tolerated.
pub open spec fn spec_terms_ok(s: Seq<u8>) -> bool {
    &&& s.len() >= TERMS_FIXED_LEN
    &&& s.len() >= TERMS_FIXED_LEN + spec_terms_name_len(s)
    &&& valid_bool_byte(s[56])
    &&& valid_bool_byte(s[57])
    &&& valid_bool_byte(s[58])
    &&& valid_bool_byte(s[59])
    &&& valid_bool_byte(s[60])
}

/// `ix` is exactly what the region decodes to.
pub open spec fn terms_match(s: Seq<u8>, ix: StreamInstruction) -> bool {
    &&& spec_terms_ok(s)
    &&& ix.start_time == spec_u64_from_le_bytes(s.subrange(0, 8))
    &&& ix.end_time == spec_u64_from_le_bytes(s.subrange(8, 16))
    &&& ix.deposited_amount == spec_u64_from_le_bytes(s.subrange(16, 24))
    &&& ix.total_amount == spec_u64_from_le_bytes(s.subrange(24, 32))
    &&& ix.period == spec_u64_from_le_bytes(s.subrange(32, 40))
    &&& ix.cliff == spec_u64_from_le_bytes(s.subrange(40, 48))
    &&& ix.cliff_amount == spec_u64_from_le_bytes(s.subrange(48, 56))
    &&& ix.cancelable_by_sender == (s[56] == 1)
    &&& ix.cancelable_by_recipient == (s[57] == 1)
    &&& ix.withdrawal_public == (s[58] == 1)
    &&& ix.transferable_by_sender == (s[59] == 1)
    &&& ix.transferable_by_recipient == (s[60] == 1)
    &&& ix.release_rate == spec_u64_from_le_bytes(s.subrange(61, 69))
    &&& ix.stream_name@ == s.subrange(
        TERMS_FIXED_LEN as int,
        TERMS_FIXED_LEN + spec_terms_name_len(s),
    )
}

/// The buffer decodes as a record: room for the header plus decodable terms.
pub open spec fn spec_data_ok(s: Seq<u8>) -> bool {
    &&& s.len() >= DATA_HEADER_LEN
    &&& spec_terms_ok(s.subrange(DATA_HEADER_LEN as int, s.len() as int))
}

/// `d` is exactly what the buffer decodes to.
pub open spec fn data_match(s: Seq<u8>, d: TokenStreamData) -> bool {
    &&& spec_data_ok(s)
    &&& d.magic == spec_u64_from_le_bytes(s.subrange(0, 8))
    &&& d.created_at == spec_u64_from_le_bytes(s.subrange(8, 16))
    &&& d.withdrawn_amount == spec_u64_from_le_bytes(s.subrange(16, 24))
    &&& d.canceled_at == spec_u64_from_le_bytes(s.subrange(24, 32))
    &&& d.closable_at == spec_u64_from_le_bytes(s.subrange(32, 40))
    &&& d.last_withdrawn_at == spec_u64_from_le_bytes(s.subrange(40, 48))
    &&& d.sender@ == s.subrange(48, 80)
    &&& d.sender_tokens@ == s.subrange(80, 112)
    &&& d.recipient@ == s.subrange(112, 144)
    &&& d.recipient_tokens@ == s.subrange(144, 176)
    &&& d.mint@ == s.subrange(176, 208)
    &&& d.escrow_tokens@ == s.subrange(208, 240)
    &&& terms_match(s.subrange(DATA_HEADER_LEN as int, s.len() as int), d.ix)
}

fn bool_to_byte(b: bool) -> (r: u8)
    ensures
        r == spec_bool_byte(b),
{
    if b {
        1
    } else {
        0
    }
}

fn byte_to_bool(b: u8) -> (r: Option<bool>)
    ensures
        r is Some <==> valid_bool_byte(b),
        r is Some ==> r->0 == (b == 1),
{
    if b == 0 {
        Some(false)
    } else if b == 1 {
        Some(true)
    } else {
        None
    }
}

/// Serialize the terms.
pub fn serialize_terms(ix: &StreamInstruction) -> (out: Vec<u8>)
    requires
        ix.stream_name@.len() <= u32::MAX,
    ensures
        out@ == spec_serialize_terms(*ix),
        out@.len() == TERMS_FIXED_LEN + ix.stream_name@.len(),
{
    proof {
        lemma_auto_spec_u64_to_from_le_bytes();
        lemma_auto_spec_u32_to_from_le_bytes();
    }
    let mut out: Vec<u8> = Vec::new();
    let mut b = u64_to_le_bytes(ix.start_time);
    out.append(&mut b);
    let mut b = u64_to_le_bytes(ix.end_time);
    out.append(&mut b);
    let mut b = u64_to_le_bytes(ix.deposited_amount);
    out.append(&mut b);
    let mut b = u64_to_le_bytes(ix.total_amount);
    out.append(&mut b);
    let mut b = u64_to_le_bytes(ix.period);
    out.append(&mut b);
    let mut b = u64_to_le_bytes(ix.cliff);
    out.append(&mut b);
    let mut b = u64_to_le_bytes(ix.cliff_amount);
    out.append(&mut b);
    out.push(bool_to_byte(ix.cancelable_by_sender));
    out.push(bool_to_byte(ix.cancelable_by_recipient));
    out.push(bool_to_byte(ix.withdrawal_public));
    out.push(bool_to_byte(ix.transferable_by_sender));
    out.push(bool_to_byte(ix.transferable_by_recipient));
    let mut b = u64_to_le_bytes(ix.release_rate);
    out.append(&mut b);
    let mut b = u32_to_le_bytes(ix.stream_name.len() as u32);
    out.append(&mut b);
    out.extend_from_slice(ix.stream_name.as_slice());
    proof {
        assert(out@ =~= spec_serialize_terms(*ix));
    }
    out
}

/// Serialize a whole record.
pub fn serialize_stream_data(d: &TokenStreamData) -> (out: Vec<u8>)
    requires
        d.ix.stream_name@.len() <= u32::MAX,
    ensures
        out@ == spec_serialize_data(*d),
        out@.len() == DATA_HEADER_LEN + TERMS_FIXED_LEN + d.ix.stream_name@.len(),
{
    proof {
        lemma_auto_spec_u64_to_from_le_bytes();
    }
    let mut out: Vec<u8> = Vec::new();
    let mut b = u64_to_le_bytes(d.magic);
    out.append(&mut b);
    let mut b = u64_to_le_bytes(d.created_at);
    out.append(&mut b);
    let mut b = u64_to_le_bytes(d.withdrawn_amount);
    out.append(&mut b);
    let mut b = u64_to_le_bytes(d.canceled_at);
    out.append(&mut b);
    let mut b = u64_to_le_bytes(d.closable_at);
    out.append(&mut b);
    let mut b = u64_to_le_bytes(d.last_withdrawn_at);
    out.append(&mut b);
    out.extend_from_slice(d.sender.bytes.as_slice());
    out.extend_from_slice(d.sender_tokens.bytes.as_slice());
    out.extend_from_slice(d.recipient.bytes.as_slice());
    out.extend_from_slice(d.recipient_tokens.bytes.as_slice());
    out.extend_from_slice(d.mint.bytes.as_slice());
    out.extend_from_slice(d.escrow_tokens.bytes.as_slice());
    let mut terms = serialize_terms(&d.ix);
    out.append(&mut terms);
    proof {
        assert(out@ =~= spec_serialize_data(*d));
    }
    out
}

/// Read a 32-byte address out of a buffer.
fn read_address(data: &[u8], at: usize) -> (a: Address)
    requires
        at + 32 <= data@.len(),
    ensures
        a@ == data@.subrange(at as int, at + 32),
{
    let n: usize = data.len();
    let mut bytes = [0u8; 32];
    let mut k: usize = 0;
    while k < 32
        invariant
            at + 32 <= n == data@.len(),
            k <= 32,
            forall|j: int| 0 <= j < k ==> bytes@[j] == data@[at + j],
        decreases 32 - k,
    {
        bytes[k] = data[at + k];
        k += 1;
    }
    let a = Address { bytes };
    proof {
        assert(a@ =~= data@.subrange(at as int, at as int + 32));
    }
    a
}

/// Decode terms from the front of `data`, tolerating trailing bytes.
/// Returns the terms and the number of bytes they occupied.
pub fn deserialize_terms(data: &[u8]) -> (r: Option<(StreamInstruction, usize)>)
    ensures
        r is Some <==> spec_terms_ok(data@),
        r is Some ==> terms_match(data@, (r->0).0) && (r->0).1 == TERMS_FIXED_LEN
            + spec_terms_name_len(data@),
{
    if data.len() < TERMS_FIXED_LEN {
        return None;
    }
    let start_time = u64_from_le_bytes(slice_subrange(data, 0, 8));
    let end_time = u64_from_le_bytes(slice_subrange(data, 8, 16));
    let deposited_amount = u64_from_le_bytes(slice_subrange(data, 16, 24));
    let total_amount = u64_from_le_bytes(slice_subrange(data, 24, 32));
    let period = u64_from_le_bytes(slice_subrange(data, 32, 40));
    let cliff = u64_from_le_bytes(slice_subrange(data, 40, 48));
    let cliff_amount = u64_from_le_bytes(slice_subrange(data, 48, 56));
    let release_rate = u64_from_le_bytes(slice_subrange(data, 61, 69));
    let name_len = u32_from_le_bytes(slice_subrange(data, 69, 73));

    if (name_len as usize) > data.len() - TERMS_FIXED_LEN {
        return None;
    }
    let cancelable_by_sender = match byte_to_bool(data[56]) {
        Some(v) => v,
        None => { return None; },
    };
    let cancelable_by_recipient = match byte_to_bool(data[57]) {
        Some(v) => v,
        None => { return None; },
    };
    let withdrawal_public = match byte_to_bool(data[58]) {
        Some(v) => v,
        None => { return None; },
    };
    let transferable_by_sender = match byte_to_bool(data[59]) {
        Some(v) => v,
        None => { return None; },
    };
    let transferable_by_recipient = match byte_to_bool(data[60]) {
        Some(v) => v,
        None => { return None; },
    };
    let consumed: usize = TERMS_FIXED_LEN + name_len as usize;
    let stream_name: Vec<u8> = slice_to_vec(slice_subrange(data, TERMS_FIXED_LEN, consumed));
    let ix = StreamInstruction {
        start_time,
        end_time,
        deposited_amount,
        total_amount,
        period,
        cliff,
        cliff_amount,
        cancelable_by_sender,
        cancelable_by_recipient,
        withdrawal_public,
        transferable_by_sender,
        transferable_by_recipient,
        release_rate,
        stream_name,
    };
    Some((ix, consumed))
}

/// Decode a whole record, tolerating trailing bytes past the name.
pub fn deserialize_stream_data(data: &[u8]) -> (r: Option<TokenStreamData>)
    ensures
        r is Some <==> spec_data_ok(data@),
        r is Some ==> data_match(data@, r->0),
{
    if data.len() < DATA_HEADER_LEN {
        return None;
    }
    let magic = u64_from_le_bytes(slice_subrange(data, 0, 8));
    let created_at = u64_from_le_bytes(slice_subrange(data, 8, 16));
    let withdrawn_amount = u64_from_le_bytes(slice_subrange(data, 16, 24));
    let canceled_at = u64_from_le_bytes(slice_subrange(data, 24, 32));
    let closable_at = u64_from_le_bytes(slice_subrange(data, 32, 40));
    let last_withdrawn_at = u64_from_le_bytes(slice_subrange(data, 40, 48));
    let sender = read_address(data, 48);
    let sender_tokens = read_address(data, 80);
    let recipient = read_address(data, 112);
    let recipient_tokens = read_address(data, 144);
    let mint = read_address(data, 176);
    let escrow_tokens = read_address(data, 208);
    let rest = slice_subrange(data, DATA_HEADER_LEN, data.len());
    let ix = match deserialize_terms(rest) {
        Some((ix, _)) => ix,
        None => { return None; },
    };
    Some(
        TokenStreamData {
            magic,
            created_at,
            withdrawn_amount,
            canceled_at,
            closable_at,
            last_withdrawn_at,
            sender,
            sender_tokens,
            recipient,
            recipient_tokens,
            mint,
            escrow_tokens,
            ix,
        },
    )
}

/// Serializing terms and reading them back reproduces every field.
pub proof fn lemma_terms_roundtrip(ix: StreamInstruction)
    requires
        ix.stream_name@.len() <= u32::MAX,
    ensures
        spec_terms_ok(spec_serialize_terms(ix)),
        terms_match(spec_serialize_terms(ix), ix),
{
    lemma_auto_spec_u64_to_from_le_bytes();
    lemma_auto_spec_u32_to_from_le_bytes();
    let s = spec_serialize_terms(ix);
    assert(s.subrange(0, 8) =~= spec_u64_to_le_bytes(ix.start_time));
    assert(s.subrange(8, 16) =~= spec_u64_to_le_bytes(ix.end_time));
    assert(s.subrange(16, 24) =~= spec_u64_to_le_bytes(ix.deposited_amount));
    assert(s.subrange(24, 32) =~= spec_u64_to_le_bytes(ix.total_amount));
    assert(s.subrange(32, 40) =~= spec_u64_to_le_bytes(ix.period));
    assert(s.subrange(40, 48) =~= spec_u64_to_le_bytes(ix.cliff));
    assert(s.subrange(48, 56) =~= spec_u64_to_le_bytes(ix.cliff_amount));
    assert(s[56] == spec_bool_byte(ix.cancelable_by_sender));
    assert(s[57] == spec_bool_byte(ix.cancelable_by_recipient));
    assert(s[58] == spec_bool_byte(ix.withdrawal_public));
    assert(s[59] == spec_bool_byte(ix.transferable_by_sender));
    assert(s[60] == spec_bool_byte(ix.transferable_by_recipient));
    assert(s.subrange(61, 69) =~= spec_u64_to_le_bytes(ix.release_rate));
    assert(s.subrange(69, 73) =~= spec_u32_to_le_bytes(ix.stream_name@.len() as u32));
    assert(spec_terms_name_len(s) == ix.stream_name@.len());
    assert(s.subrange(TERMS_FIXED_LEN as int, TERMS_FIXED_LEN + spec_terms_name_len(s))
        =~= ix.stream_name@);
}

/// Serializing a record and reading it back reproduces every field
/// bit-for-bit.
pub proof fn lemma_stream_data_roundtrip(d: TokenStreamData)
    requires
        d.ix.stream_name@.len() <= u32::MAX,
    ensures
        spec_data_ok(spec_serialize_data(d)),
        data_match(spec_serialize_data(d), d),
{
    lemma_auto_spec_u64_to_from_le_bytes();
    let s = spec_serialize_data(d);
    assert(s.subrange(0, 8) =~= spec_u64_to_le_bytes(d.magic));
    assert(s.subrange(8, 16) =~= spec_u64_to_le_bytes(d.created_at));
    assert(s.subrange(16, 24) =~= spec_u64_to_le_bytes(d.withdrawn_amount));
    assert(s.subrange(24, 32) =~= spec_u64_to_le_bytes(d.canceled_at));
    assert(s.subrange(32, 40) =~= spec_u64_to_le_bytes(d.closable_at));
    assert(s.subrange(40, 48) =~= spec_u64_to_le_bytes(d.last_withdrawn_at));
    assert(s.subrange(48, 80) =~= d.sender@);
    assert(s.subrange(80, 112) =~= d.sender_tokens@);
    assert(s.subrange(112, 144) =~= d.recipient@);
    assert(s.subrange(144, 176) =~= d.recipient_tokens@);
    assert(s.subrange(176, 208) =~= d.mint@);
    assert(s.subrange(208, 240) =~= d.escrow_tokens@);
    lemma_terms_roundtrip(d.ix);
    assert(s.subrange(DATA_HEADER_LEN as int, s.len() as int) =~= spec_serialize_terms(d.ix));
}

/// Any two records that decode from the same buffer agree on every field.
pub proof fn lemma_data_match_unique(s: Seq<u8>, d1: TokenStreamData, d2: TokenStreamData)
    requires
        data_match(s, d1),
        data_match(s, d2),
    ensures
        d1.magic == d2.magic,
        d1.created_at == d2.created_at,
        d1.withdrawn_amount == d2.withdrawn_amount,
        d1.canceled_at == d2.canceled_at,
        d1.closable_at == d2.closable_at,
        d1.last_withdrawn_at == d2.last_withdrawn_at,
        d1.sender@ == d2.sender@,
        d1.sender_tokens@ == d2.sender_tokens@,
        d1.recipient@ == d2.recipient@,
        d1.recipient_tokens@ == d2.recipient_tokens@,
        d1.mint@ == d2.mint@,
        d1.escrow_tokens@ == d2.escrow_tokens@,
        d1.ix.start_time == d2.ix.start_time,
        d1.ix.end_time == d2.ix.end_time,
        d1.ix.deposited_amount == d2.ix.deposited_amount,
        d1.ix.total_amount == d2.ix.total_amount,
        d1.ix.period == d2.ix.period,
        d1.ix.cliff == d2.ix.cliff,
        d1.ix.cliff_amount == d2.ix.cliff_amount,
        d1.ix.cancelable_by_sender == d2.ix.cancelable_by_sender,
        d1.ix.cancelable_by_recipient == d2.ix.cancelable_by_recipient,
        d1.ix.withdrawal_public == d2.ix.withdrawal_public,
        d1.ix.transferable_by_sender == d2.ix.transferable_by_sender,
        d1.ix.transferable_by_recipient == d2.ix.transferable_by_recipient,
        d1.ix.release_rate == d2.ix.release_rate,
        d1.ix.stream_name@ == d2.ix.stream_name@,
{
}

} // verus!
