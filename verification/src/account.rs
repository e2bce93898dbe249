//! Plain-value views of ledger accounts.
//!
//! The host hands every operation a fixed, positional set of account
//! references.  Inside the library an account is a plain value: its address,
//! its owner tag, the signer/writable flags the transaction declared, and its
//! raw data bytes.  Nothing here touches the ledger itself.

use vstd::bytes::spec_u64_from_le_bytes;
use vstd::prelude::*;

use crate::error::StreamError;
use crate::pda::spl_token_id_bytes;

verus! {

/// A 32-byte ledger address.
#[derive(Clone, Copy, Debug)]
pub struct Address {
    pub bytes: [u8; 32],
}

impl View for Address {
    type V = Seq<u8>;

    open spec fn view(&self) -> Seq<u8> {
        self.bytes@
    }
}

/// Byte-for-byte equality of two addresses.
pub fn address_eq(a: &Address, b: &Address) -> (r: bool)
    ensures
        r == (a@ == b@),
{
    let mut i: usize = 0;
    while i < 32
        invariant
            i <= 32,
            forall|j: int| 0 <= j < i ==> a.bytes@[j] == b.bytes@[j],
        decreases 32 - i,
    {
        if a.bytes[i] != b.bytes[i] {
            return false;
        }
        i += 1;
    }
    proof {
        assert(a.bytes@ =~= b.bytes@);
    }
    true
}

/// What an operation sees of one account the transaction handed in: its
/// address, who owns it, the flags the transaction declared, its balance in
/// the native unit, and its raw data bytes.
#[derive(Clone, Debug)]
pub struct AccountView {
    pub key: Address,
    pub owner: Address,
    pub is_signer: bool,
    pub is_writable: bool,
    pub lamports: u64,
    pub data: Vec<u8>,
}

impl AccountView {
    /// An account that holds no data yet, i.e. an empty slot.
    pub open spec fn spec_is_empty(self) -> bool {
        self.data@.len() == 0
    }

    pub fn is_empty(&self) -> (r: bool)
        ensures
            r == self.spec_is_empty(),
    {
        self.data.len() == 0
    }
}

/// The fields of a token-ledger account that the stream logic reads.
#[derive(Clone, Copy, Debug)]
pub struct TokenAccountView {
    pub mint: Address,
    pub owner: Address,
    pub amount: u64,
}

/// The fields of a token mint that the stream logic reads.
#[derive(Clone, Copy, Debug)]
pub struct MintView {
    pub decimals: u8,
}

/// A 4-byte optional-value tag as the token ledger packs it: a 0 or 1 first
/// byte followed by three zero bytes.
pub open spec fn spec_coption_tag_ok(s: Seq<u8>, at: int) -> bool {
    (s[at] == 0 || s[at] == 1) && s[at + 1] == 0 && s[at + 2] == 0 && s[at + 3] == 0
}

/// The buffer unpacks as an initialized token account: exactly 165 bytes,
/// well-formed optional tags for delegate (72), native marker (109) and close
/// authority (129), and an initialized, possibly frozen state byte (108).
pub open spec fn spec_token_account_ok(s: Seq<u8>) -> bool {
    &&& s.len() == 165
    &&& spec_coption_tag_ok(s, 72)
    &&& (s[108] == 1 || s[108] == 2)
    &&& spec_coption_tag_ok(s, 109)
    &&& spec_coption_tag_ok(s, 129)
}

/// The error the token ledger reports for a buffer that does not unpack as an
/// initialized token account: a valid but uninitialized account is reported
/// as such, any malformed byte as invalid data.
pub open spec fn spec_token_account_err(s: Seq<u8>) -> StreamError {
    if s.len() == 165 && spec_coption_tag_ok(s, 72) && s[108] == 0 && spec_coption_tag_ok(s, 109)
        && spec_coption_tag_ok(s, 129) {
        StreamError::UninitializedAccount
    } else {
        StreamError::InvalidAccountData
    }
}

/// The buffer unpacks as an initialized mint: exactly 82 bytes, well-formed
/// optional tags for the mint (0) and freeze (46) authorities, and an
/// is-initialized byte (45) set to one.
pub open spec fn spec_mint_ok(s: Seq<u8>) -> bool {
    &&& s.len() == 82
    &&& spec_coption_tag_ok(s, 0)
    &&& s[45] == 1
    &&& spec_coption_tag_ok(s, 46)
}

/// The error reported for a buffer that does not unpack as an initialized
/// mint.
pub open spec fn spec_mint_err(s: Seq<u8>) -> StreamError {
    if s.len() == 82 && spec_coption_tag_ok(s, 0) && s[45] == 0 && spec_coption_tag_ok(s, 46) {
        StreamError::UninitializedAccount
    } else {
        StreamError::InvalidAccountData
    }
}

/// Relies on spl_token::state::Account::unpack: a 165-byte buffer with
/// well-formed optional tags and an initialized state unpacks to the mint at
/// bytes 0..32, the owner at 32..64 and the little-endian amount at 64..72;
/// an uninitialized state byte reports `UninitializedAccount` and anything
/// malformed `InvalidAccountData`.
#[verifier::external_body]
fn unpack_spl_token_account(data: &[u8]) -> (r: Result<TokenAccountView, StreamError>)
    ensures
        r is Ok <==> spec_token_account_ok(data@),
        r is Ok ==> (r->Ok_0).mint@ == data@.subrange(0, 32) && (r->Ok_0).owner@ == data@.subrange(
            32,
            64,
        ) && (r->Ok_0).amount == spec_u64_from_le_bytes(data@.subrange(64, 72)),
        r is Err ==> r->Err_0 == spec_token_account_err(data@),
{
    match <spl_token::state::Account as solana_program_pack::Pack>::unpack(data) {
        Ok(a) => Ok(
            TokenAccountView {
                mint: Address { bytes: a.mint.to_bytes() },
                owner: Address { bytes: a.owner.to_bytes() },
                amount: a.amount,
            },
        ),
        Err(solana_program_error::ProgramError::UninitializedAccount) => Err(
            StreamError::UninitializedAccount,
        ),
        Err(_) => Err(StreamError::InvalidAccountData),
    }
}

/// Relies on spl_token::state::Mint::unpack: an 82-byte buffer with
/// well-formed authority tags and the is-initialized byte set unpacks to the
/// decimals at byte 44; an uninitialized byte reports `UninitializedAccount`
/// and anything malformed `InvalidAccountData`.
#[verifier::external_body]
fn unpack_spl_mint(data: &[u8]) -> (r: Result<MintView, StreamError>)
    ensures
        r is Ok <==> spec_mint_ok(data@),
        r is Ok ==> (r->Ok_0).decimals == data@[44],
        r is Err ==> r->Err_0 == spec_mint_err(data@),
{
    match <spl_token::state::Mint as solana_program_pack::Pack>::unpack(data) {
        Ok(m) => Ok(MintView { decimals: m.decimals }),
        Err(solana_program_error::ProgramError::UninitializedAccount) => Err(
            StreamError::UninitializedAccount,
        ),
        Err(_) => Err(StreamError::InvalidAccountData),
    }
}

/// Read an account as a token-ledger account: it must be owned by the token
/// ledger and its bytes must unpack as an initialized token account.
pub fn unpack_token_account(acc: &AccountView) -> (r: Result<TokenAccountView, StreamError>)
    ensures
        r is Ok <==> (acc.owner@ == spl_token_id_bytes() && spec_token_account_ok(acc.data@)),
        r is Ok ==> (r->Ok_0).mint@ == acc.data@.subrange(0, 32) && (r->Ok_0).owner@
            == acc.data@.subrange(32, 64) && (r->Ok_0).amount == spec_u64_from_le_bytes(
            acc.data@.subrange(64, 72),
        ),
        r is Err ==> r->Err_0 == (if acc.owner@ != spl_token_id_bytes() {
            StreamError::InvalidAccountData
        } else {
            spec_token_account_err(acc.data@)
        }),
{
    let spl_id = crate::pda::spl_token_program_address();
    if !address_eq(&acc.owner, &spl_id) {
        return Err(StreamError::InvalidAccountData);
    }
    unpack_spl_token_account(acc.data.as_slice())
}

/// Read an account as a token mint: its bytes must unpack as an initialized
/// mint.
pub fn unpack_mint_account(acc: &AccountView) -> (r: Result<MintView, StreamError>)
    ensures
        r is Ok <==> spec_mint_ok(acc.data@),
        r is Ok ==> (r->Ok_0).decimals == acc.data@[44],
        r is Err ==> r->Err_0 == spec_mint_err(acc.data@),
{
    unpack_spl_mint(acc.data.as_slice())
}

} // verus!
