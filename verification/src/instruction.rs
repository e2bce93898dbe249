//! Decoding of the fixed-width instruction payload.
//!
//! The first byte is the opcode; opcode 0 carries serialized terms, opcodes
//! 1 and 4 a little-endian 8-byte amount, opcodes 2 and 3 nothing.  Anything
//! else, a missing opcode byte, a malformed or oversized terms payload, or an
//! amount of the wrong width, is an invalid instruction.

use vstd::bytes::{spec_u64_from_le_bytes, u64_from_le_bytes};
use vstd::prelude::*;
use vstd::slice::slice_subrange;

use crate::codec::{deserialize_terms, spec_terms_name_len, spec_terms_ok, terms_match, TERMS_FIXED_LEN};
use crate::error::StreamError;
use crate::state::StreamInstruction;

verus! {

/// A decoded instruction.
#[derive(Debug)]
pub enum StreamOp {
    /// Create a stream with these terms.
    Create(StreamInstruction),
    /// Withdraw this amount (0 = everything available).
    Withdraw(u64),
    /// Cancel the stream.
    Cancel,
    /// Move the stream to a new recipient.
    TransferRecipient,
    /// Deposit this amount on top.
    TopUp(u64),
}

/// The payload decodes as an instruction: a create payload must hold exactly
/// its terms, an amount payload exactly eight bytes.
pub open spec fn spec_instruction_ok(input: Seq<u8>) -> bool {
    &&& input.len() >= 1
    &&& (input[0] == 0 || input[0] == 1 || input[0] == 2 || input[0] == 3 || input[0] == 4)
    &&& (input[0] == 0 ==> spec_terms_ok(input.skip(1)) && input.len() == 1 + TERMS_FIXED_LEN
        + spec_terms_name_len(input.skip(1)))
    &&& (input[0] == 1 || input[0] == 4 ==> input.len() == 9)
}

/// Decode an instruction payload.
pub fn parse_instruction(input: &[u8]) -> (r: Result<StreamOp, StreamError>)
    ensures
        r is Ok <==> spec_instruction_ok(input@),
        r is Err ==> r->Err_0 == StreamError::InvalidInstruction,
        r is Ok ==> match r->Ok_0 {
            StreamOp::Create(ix) => input@[0] == 0 && terms_match(input@.skip(1), ix),
            StreamOp::Withdraw(amount) => input@[0] == 1 && amount == spec_u64_from_le_bytes(
                input@.subrange(1, 9),
            ),
            StreamOp::Cancel => input@[0] == 2,
            StreamOp::TransferRecipient => input@[0] == 3,
            StreamOp::TopUp(amount) => input@[0] == 4 && amount == spec_u64_from_le_bytes(
                input@.subrange(1, 9),
            ),
        },
{
    if input.len() == 0 {
        return Err(StreamError::InvalidInstruction);
    }
    let opcode = input[0];
    if opcode == 0 {
        let rest = slice_subrange(input, 1, input.len());
        match deserialize_terms(rest) {
            Some((ix, consumed)) => {
                if consumed == rest.len() {
                    Ok(StreamOp::Create(ix))
                } else {
                    Err(StreamError::InvalidInstruction)
                }
            },
            None => Err(StreamError::InvalidInstruction),
        }
    } else if opcode == 1 || opcode == 4 {
        if input.len() != 9 {
            return Err(StreamError::InvalidInstruction);
        }
        let amount = u64_from_le_bytes(slice_subrange(input, 1, 9));
        if opcode == 1 {
            Ok(StreamOp::Withdraw(amount))
        } else {
            Ok(StreamOp::TopUp(amount))
        }
    } else if opcode == 2 {
        Ok(StreamOp::Cancel)
    } else if opcode == 3 {
        Ok(StreamOp::TransferRecipient)
    } else {
        Err(StreamError::InvalidInstruction)
    }
}

} // verus!
