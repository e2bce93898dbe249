//! The five state-transition operations.
//!
//! Each operation validates the accounts the transaction presented, computes
//! the transition, and returns the exact effects the host must apply: which
//! token transfers to make, whether to create or close accounts, and the new
//! record bytes to persist.  An operation that returns an error has no
//! effects; the host applies all effects of a successful operation
//! atomically or not at all.
//!
//! Where the host ledger would reject a step this code cannot see (an escrow
//! transfer beyond its balance), the transaction rolls back as a whole; the
//! step lemmas at the end state the invariants each applied transition
//! preserves.

use vstd::bytes::spec_u64_from_le_bytes;
use vstd::prelude::*;

use crate::account::{
    address_eq, AccountView, Address, spec_mint_err, spec_mint_ok, spec_token_account_err,
    spec_token_account_ok, unpack_mint_account, unpack_token_account,
};
use crate::codec::{
    data_match, deserialize_stream_data, serialize_stream_data, spec_data_ok, spec_serialize_data,
};
use crate::error::StreamError;
use crate::pda::{
    find_escrow_address, get_associated_token_address, spec_associated_token_address,
    spec_escrow_address, spl_token_id_bytes, spl_token_program_address,
};
use crate::pda::{rent_sysvar_id_bytes, rent_sysvar_address, system_program_id_bytes, system_program_address};
use crate::state::{
    available_fits, available_int, closable_defined, closable_int, wf_terms, StreamInstruction,
    TokenStreamData, MAX_STRING_SIZE,
};
use crate::utils::{duration_sanity, duration_sanity_spec};

verus! {

/// The record a well-formed metadata buffer decodes to.  Meaningful only
/// when `spec_data_ok` holds of the buffer; any two records matching the same
/// buffer agree on every field.
pub open spec fn parsed_record(s: Seq<u8>) -> TokenStreamData {
    choose|d: TokenStreamData| data_match(s, d)
}

/// Records with the same persisted content have the same invariants,
/// availability and closable time.
pub proof fn lemma_same_record_math(s: Seq<u8>, d1: TokenStreamData, d2: TokenStreamData, now: u64)
    requires
        data_match(s, d1),
        data_match(s, d2),
    ensures
        d1.wf() == d2.wf(),
        available_int(d1, now) == available_int(d2, now),
        available_fits(d1, now) == available_fits(d2, now),
        closable_int(d1.ix) == closable_int(d2.ix),
        closable_defined(d1.ix) == closable_defined(d2.ix),
{
    crate::codec::lemma_data_match_unique(s, d1, d2);
}

/// The fields `withdraw`, `cancel` and `topUp` never touch: every identity
/// and every term except the deposit.
pub open spec fn same_identities(pre: TokenStreamData, post: TokenStreamData) -> bool {
    &&& post.magic == pre.magic
    &&& post.created_at == pre.created_at
    &&& post.sender@ == pre.sender@
    &&& post.sender_tokens@ == pre.sender_tokens@
    &&& post.recipient@ == pre.recipient@
    &&& post.recipient_tokens@ == pre.recipient_tokens@
    &&& post.mint@ == pre.mint@
    &&& post.escrow_tokens@ == pre.escrow_tokens@
}

/// The terms are unchanged but for the deposit.
pub open spec fn same_terms_except_deposit(
    pre: TokenStreamData,
    post: TokenStreamData,
) -> bool {
    &&& post.ix.start_time == pre.ix.start_time
    &&& post.ix.end_time == pre.ix.end_time
    &&& post.ix.total_amount == pre.ix.total_amount
    &&& post.ix.period == pre.ix.period
    &&& post.ix.cliff == pre.ix.cliff
    &&& post.ix.cliff_amount == pre.ix.cliff_amount
    &&& post.ix.cancelable_by_sender == pre.ix.cancelable_by_sender
    &&& post.ix.cancelable_by_recipient == pre.ix.cancelable_by_recipient
    &&& post.ix.withdrawal_public == pre.ix.withdrawal_public
    &&& post.ix.transferable_by_sender == pre.ix.transferable_by_sender
    &&& post.ix.transferable_by_recipient == pre.ix.transferable_by_recipient
    &&& post.ix.release_rate == pre.ix.release_rate
    &&& post.ix.stream_name@ == pre.ix.stream_name@
}

/// The terms are unchanged, deposit included.
pub open spec fn same_terms(pre: TokenStreamData, post: TokenStreamData) -> bool {
    &&& same_terms_except_deposit(pre, post)
    &&& post.ix.deposited_amount == pre.ix.deposited_amount
}

/// How a withdrawal changes the record: the requested amount is added to the
/// cumulative withdrawal, the withdrawal time is stamped, everything else is
/// kept.
pub open spec fn withdraw_step(
    pre: TokenStreamData,
    post: TokenStreamData,
    requested: u64,
    now: u64,
) -> bool {
    &&& same_identities(pre, post)
    &&& same_terms(pre, post)
    &&& post.withdrawn_amount == pre.withdrawn_amount + requested
    &&& post.canceled_at == pre.canceled_at
    &&& post.closable_at == pre.closable_at
    &&& post.last_withdrawn_at == now
}

/// The accounts a withdrawal presents, in their fixed positional order.
pub struct WithdrawAccounts {
    pub withdraw_authority: AccountView,
    pub sender: AccountView,
    pub recipient: AccountView,
    pub recipient_tokens: AccountView,
    pub metadata: AccountView,
    pub escrow_tokens: AccountView,
    pub mint: AccountView,
    pub token_program: AccountView,
}

/// What the host must apply after a successful withdrawal.
#[derive(Debug)]
pub struct WithdrawEffects {
    /// Transfer this amount from the escrow to the recipient's token account,
    /// signed by the escrow's derivation proof.
    pub requested: u64,
    /// Afterwards close the escrow account and return its storage deposit to
    /// the sender: the stream is fully withdrawn.
    pub close_escrow: bool,
    /// The updated record.
    pub record: TokenStreamData,
    /// Its serialized form, to overwrite the front of the metadata account.
    pub metadata_bytes: Vec<u8>,
    /// Decimal places of the mint, for display.
    pub decimals: u8,
}

/// The first check a withdrawal fails, if any, in the fixed order the
/// operation applies them.  `None` means the operation succeeds.
pub open spec fn spec_withdraw_check(
    pid: Address,
    acc: WithdrawAccounts,
    amount: u64,
    now: u64,
) -> Option<StreamError> {
    let s = acc.metadata.data@;
    let derived = spec_escrow_address(acc.metadata.key@, pid@);
    let ata = spec_associated_token_address(acc.recipient.key@, acc.mint.key@);
    let pre = parsed_record(s);
    if acc.escrow_tokens.spec_is_empty() || acc.escrow_tokens.owner@ != spl_token_id_bytes()
        || acc.metadata.spec_is_empty() || acc.metadata.owner@ != pid@ {
        Some(StreamError::UninitializedAccount)
    } else if !acc.recipient.is_writable || !acc.recipient_tokens.is_writable
        || !acc.metadata.is_writable || !acc.escrow_tokens.is_writable {
        Some(StreamError::InvalidAccountData)
    } else if derived is None || ata is None {
        Some(StreamError::InvalidAccountData)
    } else if acc.token_program.key@ != spl_token_id_bytes() || acc.escrow_tokens.key@
        != derived->0 || acc.recipient_tokens.key@ != ata->0 || acc.withdraw_authority.key@
        != acc.recipient.key@ {
        Some(StreamError::InvalidAccountData)
    } else if !acc.withdraw_authority.is_signer {
        Some(StreamError::MissingRequiredSignature)
    } else if !spec_data_ok(s) {
        Some(StreamError::InvalidMetadata)
    } else if !spec_mint_ok(acc.mint.data@) {
        Some(spec_mint_err(acc.mint.data@))
    } else if acc.recipient.key@ != pre.recipient@ || acc.recipient_tokens.key@
        != pre.recipient_tokens@ || acc.mint.key@ != pre.mint@ || acc.escrow_tokens.key@
        != pre.escrow_tokens@ {
        Some(StreamError::InvalidAccountData)
    } else if !pre.wf() || !available_fits(pre, now) {
        Some(StreamError::InvalidMetadata)
    } else if amount > available_int(pre, now) {
        Some(StreamError::InvalidArgument)
    } else if pre.withdrawn_amount + spec_withdraw_requested(pre, amount, now)
        == pre.ix.deposited_amount && (!acc.sender.is_writable || acc.sender.key@ != pre.sender@) {
        Some(StreamError::InvalidAccountData)
    } else {
        None
    }
}

/// The amount a withdrawal actually moves: a zero request means everything
/// available.
pub open spec fn spec_withdraw_requested(pre: TokenStreamData, amount: u64, now: u64) -> int {
    if amount == 0 {
        available_int(pre, now)
    } else {
        amount as int
    }
}

/// Withdraw from a stream.  The authority must be the recipient and must
/// have signed; the requested amount must not exceed what the schedule makes
/// available at `now` (zero requests everything available).  On success the
/// effects move the amount from escrow to the recipient and persist the
/// updated record; a withdrawal that empties the stream also closes the
/// escrow, which requires the sender account to be writable and to match the
/// record.
pub fn withdraw(program_id: &Address, acc: WithdrawAccounts, amount: u64, now: u64) -> (r: Result<
    WithdrawEffects,
    StreamError,
>)
    ensures
        r is Err <==> spec_withdraw_check(*program_id, acc, amount, now) is Some,
        r is Err ==> r->Err_0 == spec_withdraw_check(*program_id, acc, amount, now)->0,
        r is Ok ==> {
            let pre = parsed_record(acc.metadata.data@);
            let e = r->Ok_0;
            &&& pre.wf() && available_fits(pre, now)
            &&& e.requested == spec_withdraw_requested(pre, amount, now)
            &&& e.requested <= available_int(pre, now)
            &&& withdraw_step(pre, e.record, e.requested, now)
            &&& e.metadata_bytes@ == spec_serialize_data(e.record)
            &&& e.close_escrow == (e.record.withdrawn_amount == e.record.ix.deposited_amount)
            &&& e.decimals == acc.mint.data@[44]
        },
{
    let spl_id = spl_token_program_address();
    if acc.escrow_tokens.is_empty() || !address_eq(&acc.escrow_tokens.owner, &spl_id)
        || acc.metadata.is_empty() || !address_eq(&acc.metadata.owner, program_id) {
        return Err(StreamError::UninitializedAccount);
    }
    if !acc.recipient.is_writable || !acc.recipient_tokens.is_writable
        || !acc.metadata.is_writable || !acc.escrow_tokens.is_writable {
        return Err(StreamError::InvalidAccountData);
    }
    let escrow_key = match find_escrow_address(&acc.metadata.key, program_id) {
        Some(a) => a,
        None => { return Err(StreamError::InvalidAccountData) },
    };
    let ata_key = match get_associated_token_address(&acc.recipient.key, &acc.mint.key) {
        Some(a) => a,
        None => { return Err(StreamError::InvalidAccountData) },
    };
    if !address_eq(&acc.token_program.key, &spl_id) || !address_eq(
        &acc.escrow_tokens.key,
        &escrow_key,
    ) || !address_eq(&acc.recipient_tokens.key, &ata_key) || !address_eq(
        &acc.withdraw_authority.key,
        &acc.recipient.key,
    ) {
        return Err(StreamError::InvalidAccountData);
    }
    if !acc.withdraw_authority.is_signer {
        return Err(StreamError::MissingRequiredSignature);
    }
    let mut metadata = match deserialize_stream_data(acc.metadata.data.as_slice()) {
        Some(d) => d,
        None => { return Err(StreamError::InvalidMetadata) },
    };
    proof {
        assert(data_match(acc.metadata.data@, parsed_record(acc.metadata.data@))) by {
            assert(data_match(acc.metadata.data@, metadata));
        };
    }
    let mint_info = match unpack_mint_account(&acc.mint) {
        Ok(m) => m,
        Err(e) => { return Err(e) },
    };
    if !address_eq(&acc.recipient.key, &metadata.recipient) || !address_eq(
        &acc.recipient_tokens.key,
        &metadata.recipient_tokens,
    ) || !address_eq(&acc.mint.key, &metadata.mint) || !address_eq(
        &acc.escrow_tokens.key,
        &metadata.escrow_tokens,
    ) {
        return Err(StreamError::InvalidAccountData);
    }
    proof {
        lemma_same_record_math(
            acc.metadata.data@,
            metadata,
            parsed_record(acc.metadata.data@),
            now,
        );
    }
    let available = match metadata.checked_available(now) {
        Some(v) => v,
        None => { return Err(StreamError::InvalidMetadata) },
    };
    if amount > available {
        return Err(StreamError::InvalidArgument);
    }
    let requested: u64 = if amount == 0 {
        available
    } else {
        amount
    };
    metadata.withdrawn_amount = metadata.withdrawn_amount + requested;
    metadata.last_withdrawn_at = now;
    let close_escrow = metadata.withdrawn_amount == metadata.ix.deposited_amount;
    if close_escrow {
        if !acc.sender.is_writable || !address_eq(&acc.sender.key, &metadata.sender) {
            return Err(StreamError::InvalidAccountData);
        }
    }
    let bytes = serialize_stream_data(&metadata);
    Ok(
        WithdrawEffects {
            requested,
            close_escrow,
            record: metadata,
            metadata_bytes: bytes,
            decimals: mint_info.decimals,
        },
    )
}

/// How a cancellation changes the record: everything available is counted as
/// withdrawn, and an early cancellation (before the closable time) stamps
/// the cancellation and withdrawal times.
pub open spec fn cancel_step(
    pre: TokenStreamData,
    post: TokenStreamData,
    avail: int,
    now: u64,
) -> bool {
    &&& same_identities(pre, post)
    &&& same_terms(pre, post)
    &&& post.withdrawn_amount == pre.withdrawn_amount + avail
    &&& post.closable_at == pre.closable_at
    &&& (now < pre.closable_at ==> post.canceled_at == now && post.last_withdrawn_at == now)
    &&& (now >= pre.closable_at ==> post.canceled_at == pre.canceled_at
        && post.last_withdrawn_at == pre.last_withdrawn_at)
}

/// The accounts a cancellation presents.
pub struct CancelAccounts {
    pub cancel_authority: AccountView,
    pub sender: AccountView,
    pub sender_tokens: AccountView,
    pub recipient: AccountView,
    pub recipient_tokens: AccountView,
    pub metadata: AccountView,
    pub escrow_tokens: AccountView,
    pub mint: AccountView,
    pub token_program: AccountView,
}

/// What the host must apply after a successful cancellation: transfer what
/// is available to the recipient, return the rest to the sender, close the
/// escrow (returning its storage deposit to the sender), and persist the
/// stamped record.
#[derive(Debug)]
pub struct CancelEffects {
    /// Transfer from escrow to the recipient's token account.
    pub transfer_to_recipient: u64,
    /// Transfer from escrow back to the sender's token account, when
    /// anything remains.
    pub return_to_sender: u64,
    /// The updated record.
    pub record: TokenStreamData,
    /// Its serialized form.
    pub metadata_bytes: Vec<u8>,
    /// Decimal places of the mint, for display.
    pub decimals: u8,
}

/// The first check a cancellation fails, if any.  Before the closable time
/// only the sender may cancel and must sign; from the closable time on the
/// stream is fully vested and cancellation is plain cleanup.
pub open spec fn spec_cancel_check(pid: Address, acc: CancelAccounts, now: u64) -> Option<
    StreamError,
> {
    let s = acc.metadata.data@;
    let derived = spec_escrow_address(acc.metadata.key@, pid@);
    let ata = spec_associated_token_address(acc.recipient.key@, acc.mint.key@);
    let pre = parsed_record(s);
    if acc.escrow_tokens.spec_is_empty() || acc.escrow_tokens.owner@ != spl_token_id_bytes()
        || acc.metadata.spec_is_empty() || acc.metadata.owner@ != pid@ {
        Some(StreamError::UninitializedAccount)
    } else if !acc.sender.is_writable || !acc.sender_tokens.is_writable
        || !acc.recipient.is_writable || !acc.recipient_tokens.is_writable
        || !acc.metadata.is_writable || !acc.escrow_tokens.is_writable {
        Some(StreamError::InvalidAccountData)
    } else if derived is None || ata is None {
        Some(StreamError::InvalidAccountData)
    } else if acc.token_program.key@ != spl_token_id_bytes() || acc.escrow_tokens.key@
        != derived->0 || acc.recipient_tokens.key@ != ata->0 {
        Some(StreamError::InvalidAccountData)
    } else if !spec_data_ok(s) {
        Some(StreamError::InvalidMetadata)
    } else if !spec_mint_ok(acc.mint.data@) {
        Some(spec_mint_err(acc.mint.data@))
    } else if now < pre.closable_at && acc.cancel_authority.key@ != acc.sender.key@ {
        Some(StreamError::InvalidAccountData)
    } else if now < pre.closable_at && !acc.cancel_authority.is_signer {
        Some(StreamError::MissingRequiredSignature)
    } else if acc.sender.key@ != pre.sender@ || acc.sender_tokens.key@ != pre.sender_tokens@
        || acc.recipient.key@ != pre.recipient@ || acc.recipient_tokens.key@
        != pre.recipient_tokens@ || acc.mint.key@ != pre.mint@ || acc.escrow_tokens.key@
        != pre.escrow_tokens@ {
        Some(StreamError::InvalidAccountData)
    } else if !pre.wf() || !available_fits(pre, now) {
        Some(StreamError::InvalidMetadata)
    } else if available_int(pre, now) + pre.withdrawn_amount > pre.ix.deposited_amount {
        Some(StreamError::InvalidMetadata)
    } else {
        None
    }
}

/// Cancel a stream: pay out what the schedule has made available, return the
/// rest of the deposit to the sender, and close the escrow.  Before the
/// closable time the sender must authorize; afterwards no signature is
/// needed.
pub fn cancel(program_id: &Address, acc: CancelAccounts, now: u64) -> (r: Result<
    CancelEffects,
    StreamError,
>)
    ensures
        r is Err <==> spec_cancel_check(*program_id, acc, now) is Some,
        r is Err ==> r->Err_0 == spec_cancel_check(*program_id, acc, now)->0,
        r is Ok ==> {
            let pre = parsed_record(acc.metadata.data@);
            let e = r->Ok_0;
            &&& pre.wf() && available_fits(pre, now)
            &&& e.transfer_to_recipient == available_int(pre, now)
            &&& e.return_to_sender == pre.ix.deposited_amount - pre.withdrawn_amount
                - available_int(pre, now)
            &&& cancel_step(pre, e.record, available_int(pre, now), now)
            &&& e.metadata_bytes@ == spec_serialize_data(e.record)
            &&& e.decimals == acc.mint.data@[44]
        },
{
    let spl_id = spl_token_program_address();
    if acc.escrow_tokens.is_empty() || !address_eq(&acc.escrow_tokens.owner, &spl_id)
        || acc.metadata.is_empty() || !address_eq(&acc.metadata.owner, program_id) {
        return Err(StreamError::UninitializedAccount);
    }
    if !acc.sender.is_writable || !acc.sender_tokens.is_writable || !acc.recipient.is_writable
        || !acc.recipient_tokens.is_writable || !acc.metadata.is_writable
        || !acc.escrow_tokens.is_writable {
        return Err(StreamError::InvalidAccountData);
    }
    let escrow_key = match find_escrow_address(&acc.metadata.key, program_id) {
        Some(a) => a,
        None => { return Err(StreamError::InvalidAccountData) },
    };
    let ata_key = match get_associated_token_address(&acc.recipient.key, &acc.mint.key) {
        Some(a) => a,
        None => { return Err(StreamError::InvalidAccountData) },
    };
    if !address_eq(&acc.token_program.key, &spl_id) || !address_eq(
        &acc.escrow_tokens.key,
        &escrow_key,
    ) || !address_eq(&acc.recipient_tokens.key, &ata_key) {
        return Err(StreamError::InvalidAccountData);
    }
    let mut metadata = match deserialize_stream_data(acc.metadata.data.as_slice()) {
        Some(d) => d,
        None => { return Err(StreamError::InvalidMetadata) },
    };
    proof {
        assert(data_match(acc.metadata.data@, parsed_record(acc.metadata.data@))) by {
            assert(data_match(acc.metadata.data@, metadata));
        };
        lemma_same_record_math(
            acc.metadata.data@,
            metadata,
            parsed_record(acc.metadata.data@),
            now,
        );
    }
    let mint_info = match unpack_mint_account(&acc.mint) {
        Ok(m) => m,
        Err(e) => { return Err(e) },
    };
    if now < metadata.closable_at {
        if !address_eq(&acc.cancel_authority.key, &acc.sender.key) {
            return Err(StreamError::InvalidAccountData);
        }
        if !acc.cancel_authority.is_signer {
            return Err(StreamError::MissingRequiredSignature);
        }
    }
    if !address_eq(&acc.sender.key, &metadata.sender) || !address_eq(
        &acc.sender_tokens.key,
        &metadata.sender_tokens,
    ) || !address_eq(&acc.recipient.key, &metadata.recipient) || !address_eq(
        &acc.recipient_tokens.key,
        &metadata.recipient_tokens,
    ) || !address_eq(&acc.mint.key, &metadata.mint) || !address_eq(
        &acc.escrow_tokens.key,
        &metadata.escrow_tokens,
    ) {
        return Err(StreamError::InvalidAccountData);
    }
    let available = match metadata.checked_available(now) {
        Some(v) => v,
        None => { return Err(StreamError::InvalidMetadata) },
    };
    if available > metadata.ix.deposited_amount - metadata.withdrawn_amount {
        return Err(StreamError::InvalidMetadata);
    }
    let early = now < metadata.closable_at;
    metadata.withdrawn_amount = metadata.withdrawn_amount + available;
    let remains: u64 = metadata.ix.deposited_amount - metadata.withdrawn_amount;
    if early {
        metadata.last_withdrawn_at = now;
        metadata.canceled_at = now;
    }
    let bytes = serialize_stream_data(&metadata);
    Ok(
        CancelEffects {
            transfer_to_recipient: available,
            return_to_sender: remains,
            record: metadata,
            metadata_bytes: bytes,
            decimals: mint_info.decimals,
        },
    )
}

/// How a top-up changes the record: the deposit grows by the amount and the
/// closable time is recomputed for the grown deposit.
pub open spec fn topup_step(pre: TokenStreamData, post: TokenStreamData, amount: u64) -> bool {
    &&& same_identities(pre, post)
    &&& same_terms_except_deposit(pre, post)
    &&& post.ix.deposited_amount == pre.ix.deposited_amount + amount
    &&& post.withdrawn_amount == pre.withdrawn_amount
    &&& post.canceled_at == pre.canceled_at
    &&& post.last_withdrawn_at == pre.last_withdrawn_at
    &&& post.closable_at == closable_int(post.ix)
}

/// The accounts a top-up presents.
pub struct TopUpAccounts {
    pub sender: AccountView,
    pub sender_tokens: AccountView,
    pub metadata: AccountView,
    pub escrow_tokens: AccountView,
    pub mint: AccountView,
    pub token_program: AccountView,
}

/// What the host must apply after a successful top-up.
#[derive(Debug)]
pub struct TopUpEffects {
    /// Transfer from the sender's token account into the escrow.
    pub amount: u64,
    /// The updated record.
    pub record: TokenStreamData,
    /// Its serialized form.
    pub metadata_bytes: Vec<u8>,
    /// Decimal places of the mint, for display.
    pub decimals: u8,
}

/// The updated terms a top-up produces: the same terms with the deposit
/// grown by the amount.
pub open spec fn spec_topped_up(ix: StreamInstruction, amount: u64) -> StreamInstruction {
    StreamInstruction { deposited_amount: (ix.deposited_amount + amount) as u64, ..ix }
}

/// The first check a top-up fails, if any.  A zero amount is rejected, and a
/// stream whose closable time has passed is closed to further deposits.
pub open spec fn spec_topup_check(
    pid: Address,
    acc: TopUpAccounts,
    amount: u64,
    now: u64,
) -> Option<StreamError> {
    let s = acc.metadata.data@;
    let derived = spec_escrow_address(acc.metadata.key@, pid@);
    let pre = parsed_record(s);
    let tok = acc.sender_tokens.data@;
    if acc.metadata.spec_is_empty() || acc.escrow_tokens.owner@ != spl_token_id_bytes() {
        Some(StreamError::UninitializedAccount)
    } else if !acc.sender.is_writable || !acc.sender_tokens.is_writable
        || !acc.metadata.is_writable || !acc.escrow_tokens.is_writable {
        Some(StreamError::AccountsNotWritable)
    } else if derived is None {
        Some(StreamError::InvalidAccountData)
    } else if acc.token_program.key@ != spl_token_id_bytes() || acc.escrow_tokens.key@
        != derived->0 {
        Some(StreamError::InvalidAccountData)
    } else if !acc.sender.is_signer {
        Some(StreamError::MissingRequiredSignature)
    } else if acc.sender_tokens.owner@ != spl_token_id_bytes() {
        Some(StreamError::InvalidAccountData)
    } else if !spec_token_account_ok(tok) {
        Some(spec_token_account_err(tok))
    } else if tok.subrange(0, 32) != acc.mint.key@ {
        Some(StreamError::MintMismatch)
    } else if amount == 0 {
        Some(StreamError::InvalidArgument)
    } else if !spec_data_ok(s) {
        Some(StreamError::InvalidMetadata)
    } else if acc.mint.key@ != pre.mint@ || acc.escrow_tokens.key@ != pre.escrow_tokens@ {
        Some(StreamError::InvalidAccountData)
    } else if !(wf_terms(pre.ix) && closable_defined(pre.ix)) {
        Some(StreamError::InvalidMetadata)
    } else if closable_int(pre.ix) <= now {
        Some(StreamError::StreamClosed)
    } else if pre.ix.deposited_amount + amount > u64::MAX {
        Some(StreamError::InvalidArgument)
    } else if !closable_defined(spec_topped_up(pre.ix, amount)) {
        Some(StreamError::InvalidMetadata)
    } else if !spec_mint_ok(acc.mint.data@) {
        Some(spec_mint_err(acc.mint.data@))
    } else {
        None
    }
}

/// Top up a stream: move the amount from the sender's token account into the
/// escrow, grow the recorded deposit, and recompute the closable time.  Only
/// a stream whose closable time has not yet arrived accepts deposits.
pub fn topup_stream(program_id: &Address, acc: TopUpAccounts, amount: u64, now: u64) -> (r: Result<
    TopUpEffects,
    StreamError,
>)
    ensures
        r is Err <==> spec_topup_check(*program_id, acc, amount, now) is Some,
        r is Err ==> r->Err_0 == spec_topup_check(*program_id, acc, amount, now)->0,
        r is Ok ==> {
            let pre = parsed_record(acc.metadata.data@);
            let e = r->Ok_0;
            &&& e.amount == amount
            &&& topup_step(pre, e.record, amount)
            &&& e.metadata_bytes@ == spec_serialize_data(e.record)
            &&& e.decimals == acc.mint.data@[44]
        },
{
    let spl_id = spl_token_program_address();
    if acc.metadata.is_empty() || !address_eq(&acc.escrow_tokens.owner, &spl_id) {
        return Err(StreamError::UninitializedAccount);
    }
    if !acc.sender.is_writable || !acc.sender_tokens.is_writable || !acc.metadata.is_writable
        || !acc.escrow_tokens.is_writable {
        return Err(StreamError::AccountsNotWritable);
    }
    let escrow_key = match find_escrow_address(&acc.metadata.key, program_id) {
        Some(a) => a,
        None => { return Err(StreamError::InvalidAccountData) },
    };
    if !address_eq(&acc.token_program.key, &spl_id) || !address_eq(
        &acc.escrow_tokens.key,
        &escrow_key,
    ) {
        return Err(StreamError::InvalidAccountData);
    }
    if !acc.sender.is_signer {
        return Err(StreamError::MissingRequiredSignature);
    }
    let sender_token_info = match unpack_token_account(&acc.sender_tokens) {
        Ok(t) => t,
        Err(e) => { return Err(e) },
    };
    if !address_eq(&sender_token_info.mint, &acc.mint.key) {
        return Err(StreamError::MintMismatch);
    }
    if amount == 0 {
        return Err(StreamError::InvalidArgument);
    }
    let mut metadata = match deserialize_stream_data(acc.metadata.data.as_slice()) {
        Some(d) => d,
        None => { return Err(StreamError::InvalidMetadata) },
    };
    proof {
        assert(data_match(acc.metadata.data@, parsed_record(acc.metadata.data@))) by {
            assert(data_match(acc.metadata.data@, metadata));
        };
        lemma_same_record_math(
            acc.metadata.data@,
            metadata,
            parsed_record(acc.metadata.data@),
            now,
        );
    }
    if !address_eq(&acc.mint.key, &metadata.mint) || !address_eq(
        &acc.escrow_tokens.key,
        &metadata.escrow_tokens,
    ) {
        return Err(StreamError::InvalidAccountData);
    }
    if !metadata.closable_ready() {
        return Err(StreamError::InvalidMetadata);
    }
    if metadata.closable() <= now {
        return Err(StreamError::StreamClosed);
    }
    if amount > u64::MAX - metadata.ix.deposited_amount {
        return Err(StreamError::InvalidArgument);
    }
    metadata.ix.deposited_amount = metadata.ix.deposited_amount + amount;
    if !metadata.closable_ready() {
        return Err(StreamError::InvalidMetadata);
    }
    metadata.closable_at = metadata.closable();
    let mint_info = match unpack_mint_account(&acc.mint) {
        Ok(m) => m,
        Err(e) => { return Err(e) },
    };
    let bytes = serialize_stream_data(&metadata);
    Ok(
        TopUpEffects {
            amount,
            record: metadata,
            metadata_bytes: bytes,
            decimals: mint_info.decimals,
        },
    )
}

/// How a recipient transfer changes the record: only the recipient identity
/// and the recipient's token account are rewritten.
pub open spec fn transfer_step(
    pre: TokenStreamData,
    post: TokenStreamData,
    new_recipient: Seq<u8>,
    new_recipient_tokens: Seq<u8>,
) -> bool {
    &&& same_terms(pre, post)
    &&& post.magic == pre.magic
    &&& post.created_at == pre.created_at
    &&& post.withdrawn_amount == pre.withdrawn_amount
    &&& post.canceled_at == pre.canceled_at
    &&& post.closable_at == pre.closable_at
    &&& post.last_withdrawn_at == pre.last_withdrawn_at
    &&& post.sender@ == pre.sender@
    &&& post.sender_tokens@ == pre.sender_tokens@
    &&& post.mint@ == pre.mint@
    &&& post.escrow_tokens@ == pre.escrow_tokens@
    &&& post.recipient@ == new_recipient
    &&& post.recipient_tokens@ == new_recipient_tokens
}

/// The accounts a recipient transfer presents.
pub struct TransferAccounts {
    pub authorized_wallet: AccountView,
    pub new_recipient: AccountView,
    pub new_recipient_tokens: AccountView,
    pub metadata: AccountView,
    pub escrow_tokens: AccountView,
    pub mint: AccountView,
    pub rent: AccountView,
    pub token_program: AccountView,
    pub associated_token_program: AccountView,
    pub system_program: AccountView,
}

/// What the host must apply after a successful recipient transfer.  No
/// tokens move.
#[derive(Debug)]
pub struct TransferEffects {
    /// Create the new recipient's canonical token account first, funded by
    /// the authorized wallet.
    pub create_new_recipient_tokens: bool,
    /// The updated record.
    pub record: TokenStreamData,
    /// Its serialized form.
    pub metadata_bytes: Vec<u8>,
}

/// The first check a recipient transfer fails, if any.  The caller must
/// hold a role the terms let transfer the stream: the recorded recipient or
/// the sender, as the corresponding flag permits.
pub open spec fn spec_transfer_check(
    pid: Address,
    acc: TransferAccounts,
    token_account_rent: u64,
) -> Option<StreamError> {
    let s = acc.metadata.data@;
    let derived = spec_escrow_address(acc.metadata.key@, pid@);
    let new_ata = spec_associated_token_address(acc.new_recipient.key@, acc.mint.key@);
    let pre = parsed_record(s);
    if acc.metadata.spec_is_empty() || acc.metadata.owner@ != pid@
        || acc.escrow_tokens.spec_is_empty() || acc.escrow_tokens.owner@
        != spl_token_id_bytes() {
        Some(StreamError::UninitializedAccount)
    } else if !acc.authorized_wallet.is_signer {
        Some(StreamError::MissingRequiredSignature)
    } else if !acc.metadata.is_writable || !acc.authorized_wallet.is_writable
        || !acc.new_recipient_tokens.is_writable {
        Some(StreamError::InvalidAccountData)
    } else if !spec_data_ok(s) {
        Some(StreamError::InvalidMetadata)
    } else if !pre.ix.transferable_by_recipient && !pre.ix.transferable_by_sender {
        Some(StreamError::TransferNotAllowed)
    } else if !((pre.ix.transferable_by_recipient && pre.recipient@
        == acc.authorized_wallet.key@) || (pre.ix.transferable_by_sender && pre.sender@
        == acc.authorized_wallet.key@)) {
        Some(StreamError::TransferNotAllowed)
    } else if derived is None || new_ata is None {
        Some(StreamError::InvalidAccountData)
    } else if acc.new_recipient_tokens.key@ != new_ata->0 || acc.mint.key@ != pre.mint@
        || acc.escrow_tokens.key@ != pre.escrow_tokens@ || acc.escrow_tokens.key@ != derived->0
        || acc.token_program.key@ != spl_token_id_bytes() || acc.system_program.key@
        != system_program_id_bytes() || acc.rent.key@ != rent_sysvar_id_bytes() {
        Some(StreamError::InvalidAccountData)
    } else if acc.new_recipient_tokens.spec_is_empty() && acc.authorized_wallet.lamports
        < token_account_rent {
        Some(StreamError::InsufficientFunds)
    } else {
        None
    }
}

/// Rewrite the stream's recipient.  The caller must hold a role the terms
/// let transfer the stream and must sign; when the new recipient's canonical
/// token account does not exist yet it is created, funded by the caller
/// (`token_account_rent` is its storage cost).  No tokens move.
pub fn transfer_recipient(
    program_id: &Address,
    acc: TransferAccounts,
    token_account_rent: u64,
) -> (r: Result<TransferEffects, StreamError>)
    ensures
        r is Err <==> spec_transfer_check(*program_id, acc, token_account_rent) is Some,
        r is Err ==> r->Err_0 == spec_transfer_check(*program_id, acc, token_account_rent)->0,
        r is Ok ==> {
            let pre = parsed_record(acc.metadata.data@);
            let e = r->Ok_0;
            &&& e.create_new_recipient_tokens == acc.new_recipient_tokens.spec_is_empty()
            &&& transfer_step(pre, e.record, acc.new_recipient.key@, acc.new_recipient_tokens.key@)
            &&& e.metadata_bytes@ == spec_serialize_data(e.record)
        },
{
    let spl_id = spl_token_program_address();
    if acc.metadata.is_empty() || !address_eq(&acc.metadata.owner, program_id)
        || acc.escrow_tokens.is_empty() || !address_eq(&acc.escrow_tokens.owner, &spl_id) {
        return Err(StreamError::UninitializedAccount);
    }
    if !acc.authorized_wallet.is_signer {
        return Err(StreamError::MissingRequiredSignature);
    }
    if !acc.metadata.is_writable || !acc.authorized_wallet.is_writable
        || !acc.new_recipient_tokens.is_writable {
        return Err(StreamError::InvalidAccountData);
    }
    let mut metadata = match deserialize_stream_data(acc.metadata.data.as_slice()) {
        Some(d) => d,
        None => { return Err(StreamError::InvalidMetadata) },
    };
    proof {
        assert(data_match(acc.metadata.data@, parsed_record(acc.metadata.data@))) by {
            assert(data_match(acc.metadata.data@, metadata));
        };
        crate::codec::lemma_data_match_unique(
            acc.metadata.data@,
            metadata,
            parsed_record(acc.metadata.data@),
        );
    }
    if !metadata.ix.transferable_by_recipient && !metadata.ix.transferable_by_sender {
        return Err(StreamError::TransferNotAllowed);
    }
    let mut authorized = false;
    if metadata.ix.transferable_by_recipient && address_eq(
        &metadata.recipient,
        &acc.authorized_wallet.key,
    ) {
        authorized = true;
    }
    if metadata.ix.transferable_by_sender && address_eq(
        &metadata.sender,
        &acc.authorized_wallet.key,
    ) {
        authorized = true;
    }
    if !authorized {
        return Err(StreamError::TransferNotAllowed);
    }
    let escrow_key = match find_escrow_address(&acc.metadata.key, program_id) {
        Some(a) => a,
        None => { return Err(StreamError::InvalidAccountData) },
    };
    let new_ata_key = match get_associated_token_address(&acc.new_recipient.key, &acc.mint.key) {
        Some(a) => a,
        None => { return Err(StreamError::InvalidAccountData) },
    };
    if !address_eq(&acc.new_recipient_tokens.key, &new_ata_key) || !address_eq(
        &acc.mint.key,
        &metadata.mint,
    ) || !address_eq(
        &acc.escrow_tokens.key,
        &metadata.escrow_tokens,
    ) || !address_eq(&acc.escrow_tokens.key, &escrow_key) || !address_eq(
        &acc.token_program.key,
        &spl_id,
    ) || !address_eq(&acc.system_program.key, &system_program_address()) || !address_eq(
        &acc.rent.key,
        &rent_sysvar_address(),
    ) {
        return Err(StreamError::InvalidAccountData);
    }
    let create_new_recipient_tokens = acc.new_recipient_tokens.is_empty();
    if create_new_recipient_tokens {
        if acc.authorized_wallet.lamports < token_account_rent {
            return Err(StreamError::InsufficientFunds);
        }
    }
    metadata.recipient = acc.new_recipient.key;
    metadata.recipient_tokens = acc.new_recipient_tokens.key;
    let bytes = serialize_stream_data(&metadata);
    Ok(
        TransferEffects {
            create_new_recipient_tokens,
            record: metadata,
            metadata_bytes: bytes,
        },
    )
}

/// A length rounded up to the next multiple of 8: record storage accounts
/// are sized this way.
pub open spec fn spec_padded8(n: int) -> int {
    if n % 8 == 0 {
        n
    } else {
        n + (8 - n % 8)
    }
}

/// The record a creation writes: version-tagged, stamped with `now`, bound
/// to the presented accounts, embedding the terms, with nothing withdrawn;
/// the closable time is the end of the schedule unless the stream is only
/// partially funded or uses a fixed rate, in which case it is computed from
/// the deposit.
pub open spec fn create_step(
    acc: InitializeAccounts,
    ix: StreamInstruction,
    now: u64,
    post: TokenStreamData,
) -> bool {
    &&& post.magic == crate::state::PROGRAM_VERSION
    &&& post.created_at == now
    &&& post.withdrawn_amount == 0
    &&& post.canceled_at == 0
    &&& post.last_withdrawn_at == 0
    &&& post.closable_at == (if ix.deposited_amount < ix.total_amount || ix.release_rate > 0 {
        closable_int(ix)
    } else {
        ix.end_time as int
    })
    &&& post.sender@ == acc.sender.key@
    &&& post.sender_tokens@ == acc.sender_tokens.key@
    &&& post.recipient@ == acc.recipient.key@
    &&& post.recipient_tokens@ == acc.recipient_tokens.key@
    &&& post.mint@ == acc.mint.key@
    &&& post.escrow_tokens@ == acc.escrow_tokens.key@
    &&& post.ix.start_time == ix.start_time
    &&& post.ix.end_time == ix.end_time
    &&& post.ix.deposited_amount == ix.deposited_amount
    &&& post.ix.total_amount == ix.total_amount
    &&& post.ix.period == ix.period
    &&& post.ix.cliff == ix.cliff
    &&& post.ix.cliff_amount == ix.cliff_amount
    &&& post.ix.cancelable_by_sender == ix.cancelable_by_sender
    &&& post.ix.cancelable_by_recipient == ix.cancelable_by_recipient
    &&& post.ix.withdrawal_public == ix.withdrawal_public
    &&& post.ix.transferable_by_sender == ix.transferable_by_sender
    &&& post.ix.transferable_by_recipient == ix.transferable_by_recipient
    &&& post.ix.release_rate == ix.release_rate
    &&& post.ix.stream_name@ == ix.stream_name@
}

/// The accounts a creation presents.
pub struct InitializeAccounts {
    pub sender: AccountView,
    pub sender_tokens: AccountView,
    pub recipient: AccountView,
    pub recipient_tokens: AccountView,
    pub metadata: AccountView,
    pub escrow_tokens: AccountView,
    pub mint: AccountView,
    pub rent: AccountView,
    pub token_program: AccountView,
    pub associated_token_program: AccountView,
    pub system_program: AccountView,
}

/// What the host must apply after a successful creation, in order: create
/// the recipient's token account if asked, create and fill the record
/// account, create and initialize the escrow token account under the
/// derivation proof, and move the deposit into it.
#[derive(Debug)]
pub struct CreateEffects {
    /// Create the recipient's canonical token account first, funded by the
    /// sender.
    pub create_recipient_tokens: bool,
    /// Size of the record storage account: the serialized record rounded up
    /// to a multiple of 8 bytes.
    pub metadata_account_size: u64,
    /// Transfer this amount from the sender's token account into the escrow.
    pub deposit_amount: u64,
    /// The new record.
    pub record: TokenStreamData,
    /// Its serialized form, the front of the record account's contents.
    pub metadata_bytes: Vec<u8>,
    /// Decimal places of the mint, for display.
    pub decimals: u8,
}

/// The first check a creation fails, if any.  `metadata_rent` is the storage
/// cost of the record account, `token_account_rent` that of one token
/// account (counted twice when the recipient's token account must also be
/// created).
pub open spec fn spec_create_check(
    pid: Address,
    acc: InitializeAccounts,
    ix: StreamInstruction,
    now: u64,
    metadata_rent: u64,
    token_account_rent: u64,
) -> Option<StreamError> {
    let derived = spec_escrow_address(acc.metadata.key@, pid@);
    let ata = spec_associated_token_address(acc.recipient.key@, acc.mint.key@);
    let tok = acc.sender_tokens.data@;
    let tokens_rent = if acc.recipient_tokens.spec_is_empty() {
        2 * (token_account_rent as int)
    } else {
        token_account_rent as int
    };
    if !acc.escrow_tokens.spec_is_empty() || !acc.metadata.spec_is_empty() {
        Some(StreamError::AlreadyInitialized)
    } else if !acc.sender.is_writable || !acc.sender_tokens.is_writable
        || !acc.recipient.is_writable || !acc.recipient_tokens.is_writable
        || !acc.metadata.is_writable || !acc.escrow_tokens.is_writable {
        Some(StreamError::AccountsNotWritable)
    } else if derived is None || ata is None {
        Some(StreamError::InvalidAccountData)
    } else if acc.system_program.key@ != system_program_id_bytes() || acc.token_program.key@
        != spl_token_id_bytes() || acc.rent.key@ != rent_sysvar_id_bytes()
        || acc.escrow_tokens.key@ != derived->0 || acc.recipient_tokens.key@ != ata->0 {
        Some(StreamError::InvalidAccountData)
    } else if !acc.sender.is_signer || !acc.metadata.is_signer {
        Some(StreamError::MissingRequiredSignature)
    } else if acc.sender_tokens.owner@ != spl_token_id_bytes() {
        Some(StreamError::InvalidAccountData)
    } else if !spec_token_account_ok(tok) {
        Some(spec_token_account_err(tok))
    } else if !spec_mint_ok(acc.mint.data@) {
        Some(spec_mint_err(acc.mint.data@))
    } else if tok.subrange(0, 32) != acc.mint.key@ {
        Some(StreamError::MintMismatch)
    } else if !duration_sanity_spec(now, ix.start_time, ix.end_time, ix.cliff) {
        Some(StreamError::InvalidArgument)
    } else if ix.stream_name@.len() > MAX_STRING_SIZE {
        Some(StreamError::InvalidArgument)
    } else if ix.cliff_amount > ix.total_amount {
        Some(StreamError::InvalidArgument)
    } else if (ix.deposited_amount < ix.total_amount || ix.release_rate > 0) && !(wf_terms(ix)
        && closable_defined(ix)) {
        Some(StreamError::InvalidArgument)
    } else if (acc.sender.lamports as int) < metadata_rent + tokens_rent {
        Some(StreamError::InsufficientFunds)
    } else if spec_u64_from_le_bytes(tok.subrange(64, 72)) < ix.deposited_amount {
        Some(StreamError::InsufficientFunds)
    } else {
        None
    }
}

/// Create a stream: validate the presented accounts and terms, and lay out
/// the record, the escrow and the deposit transfer for the host to apply.
/// The sender funds everything and must sign, together with the fresh
/// record account; the schedule must start in the future, any cliff must
/// lie inside it, and the total must cover the cliff lump (a lump beyond
/// the total would leave the stream invariant unsatisfiable and its deposit
/// unreachable).
pub fn create(
    program_id: &Address,
    acc: InitializeAccounts,
    ix: StreamInstruction,
    now: u64,
    metadata_rent: u64,
    token_account_rent: u64,
) -> (r: Result<CreateEffects, StreamError>)
    ensures
        r is Err <==> spec_create_check(*program_id, acc, ix, now, metadata_rent,
        token_account_rent) is Some,
        r is Err ==> r->Err_0 == spec_create_check(*program_id, acc, ix, now, metadata_rent,
        token_account_rent)->0,
        r is Ok ==> {
            let e = r->Ok_0;
            &&& create_step(acc, ix, now, e.record)
            &&& e.create_recipient_tokens == acc.recipient_tokens.spec_is_empty()
            &&& e.metadata_bytes@ == spec_serialize_data(e.record)
            &&& e.metadata_account_size == spec_padded8(
                crate::codec::DATA_HEADER_LEN + crate::codec::TERMS_FIXED_LEN
                    + ix.stream_name@.len(),
            )
            &&& e.deposit_amount == ix.deposited_amount
            &&& e.decimals == acc.mint.data@[44]
        },
{
    let spl_id = spl_token_program_address();
    if !acc.escrow_tokens.is_empty() || !acc.metadata.is_empty() {
        return Err(StreamError::AlreadyInitialized);
    }
    if !acc.sender.is_writable || !acc.sender_tokens.is_writable || !acc.recipient.is_writable
        || !acc.recipient_tokens.is_writable || !acc.metadata.is_writable
        || !acc.escrow_tokens.is_writable {
        return Err(StreamError::AccountsNotWritable);
    }
    let escrow_key = match find_escrow_address(&acc.metadata.key, program_id) {
        Some(a) => a,
        None => { return Err(StreamError::InvalidAccountData) },
    };
    let ata_key = match get_associated_token_address(&acc.recipient.key, &acc.mint.key) {
        Some(a) => a,
        None => { return Err(StreamError::InvalidAccountData) },
    };
    if !address_eq(&acc.system_program.key, &system_program_address()) || !address_eq(
        &acc.token_program.key,
        &spl_id,
    ) || !address_eq(&acc.rent.key, &rent_sysvar_address()) || !address_eq(
        &acc.escrow_tokens.key,
        &escrow_key,
    ) || !address_eq(&acc.recipient_tokens.key, &ata_key) {
        return Err(StreamError::InvalidAccountData);
    }
    if !acc.sender.is_signer || !acc.metadata.is_signer {
        return Err(StreamError::MissingRequiredSignature);
    }
    let sender_token_info = match unpack_token_account(&acc.sender_tokens) {
        Ok(t) => t,
        Err(e) => { return Err(e) },
    };
    let mint_info = match unpack_mint_account(&acc.mint) {
        Ok(m) => m,
        Err(e) => { return Err(e) },
    };
    if !address_eq(&sender_token_info.mint, &acc.mint.key) {
        return Err(StreamError::MintMismatch);
    }
    if !duration_sanity(now, ix.start_time, ix.end_time, ix.cliff) {
        return Err(StreamError::InvalidArgument);
    }
    if ix.stream_name.len() > MAX_STRING_SIZE {
        return Err(StreamError::InvalidArgument);
    }
    if ix.cliff_amount > ix.total_amount {
        return Err(StreamError::InvalidArgument);
    }
    let partially_funded = ix.deposited_amount < ix.total_amount || ix.release_rate > 0;
    let mut metadata = TokenStreamData::new(
        now,
        acc.sender.key,
        acc.sender_tokens.key,
        acc.recipient.key,
        acc.recipient_tokens.key,
        acc.mint.key,
        acc.escrow_tokens.key,
        ix.start_time,
        ix.end_time,
        ix.deposited_amount,
        ix.total_amount,
        ix.period,
        ix.cliff,
        ix.cliff_amount,
        ix.cancelable_by_sender,
        ix.cancelable_by_recipient,
        ix.withdrawal_public,
        ix.transferable_by_sender,
        ix.transferable_by_recipient,
        ix.release_rate,
        ix.stream_name,
    );
    if partially_funded {
        if !metadata.closable_ready() {
            return Err(StreamError::InvalidArgument);
        }
        metadata.closable_at = metadata.closable();
    }
    let metadata_bytes = serialize_stream_data(&metadata);
    let unpadded: usize = metadata_bytes.len();
    let rem: usize = unpadded % 8;
    let metadata_account_size: u64 = if rem == 0 {
        unpadded as u64
    } else {
        (unpadded + (8 - rem)) as u64
    };
    let tokens_rent: u128 = if acc.recipient_tokens.is_empty() {
        2 * (token_account_rent as u128)
    } else {
        token_account_rent as u128
    };
    if (acc.sender.lamports as u128) < (metadata_rent as u128) + tokens_rent {
        return Err(StreamError::InsufficientFunds);
    }
    if sender_token_info.amount < metadata.ix.deposited_amount {
        return Err(StreamError::InsufficientFunds);
    }
    Ok(
        CreateEffects {
            create_recipient_tokens: acc.recipient_tokens.is_empty(),
            metadata_account_size,
            deposit_amount: metadata.ix.deposited_amount,
            record: metadata,
            metadata_bytes,
            decimals: mint_info.decimals,
        },
    )
}

/// A fresh stream satisfies the stream invariant, and once its deposit
/// lands, the escrow holds exactly the deposit less the (zero) withdrawals.
pub proof fn lemma_create_establishes_invariant(
    acc: InitializeAccounts,
    ix: StreamInstruction,
    now: u64,
    post: TokenStreamData,
)
    requires
        create_step(acc, ix, now, post),
    ensures
        post.withdrawn_amount <= post.ix.deposited_amount,
        post.ix.deposited_amount - post.withdrawn_amount == ix.deposited_amount,
{
}

/// An applied withdrawal keeps the stream invariant: the escrow pays out
/// exactly what is recorded as withdrawn, so the cumulative withdrawal stays
/// within the deposit and the escrow balance stays `deposited - withdrawn`.
/// The host's token ledger enforces the hypothesis that the escrow can cover
/// the transfer; a transfer beyond the balance rolls the transaction back.
pub proof fn lemma_withdraw_preserves_invariant(
    pre: TokenStreamData,
    post: TokenStreamData,
    requested: u64,
    now: u64,
    escrow_balance: u64,
)
    requires
        pre.wf(),
        withdraw_step(pre, post, requested, now),
        escrow_balance == pre.ix.deposited_amount - pre.withdrawn_amount,
        requested <= escrow_balance,
    ensures
        post.wf(),
        escrow_balance - requested == post.ix.deposited_amount - post.withdrawn_amount,
{
}

/// An applied top-up keeps the stream invariant: deposit and escrow balance
/// grow by the same amount.
pub proof fn lemma_topup_preserves_invariant(
    pre: TokenStreamData,
    post: TokenStreamData,
    amount: u64,
    escrow_balance: u64,
)
    requires
        pre.wf(),
        topup_step(pre, post, amount),
        escrow_balance == pre.ix.deposited_amount - pre.withdrawn_amount,
    ensures
        post.wf(),
        escrow_balance + amount == post.ix.deposited_amount - post.withdrawn_amount,
{
}

/// An applied cancellation empties the escrow exactly: what goes to the
/// recipient plus what returns to the sender is the whole balance, and the
/// closed record still satisfies the stream invariant.  The two amounts are
/// the ones `cancel` computes for a record it accepts.
pub proof fn lemma_cancel_empties_escrow(
    pre: TokenStreamData,
    post: TokenStreamData,
    avail: u64,
    now: u64,
    escrow_balance: u64,
)
    requires
        pre.wf(),
        cancel_step(pre, post, avail as int, now),
        escrow_balance == pre.ix.deposited_amount - pre.withdrawn_amount,
        avail <= escrow_balance,
    ensures
        post.wf(),
        post.ix.deposited_amount - post.withdrawn_amount == escrow_balance - avail,
        avail + (pre.ix.deposited_amount - pre.withdrawn_amount - avail) == escrow_balance,
{
}

/// A recipient transfer moves no value: deposit and withdrawals are
/// untouched, so the escrow equation is unchanged.
pub proof fn lemma_transfer_preserves_invariant(
    pre: TokenStreamData,
    post: TokenStreamData,
    new_recipient: Seq<u8>,
    new_recipient_tokens: Seq<u8>,
)
    requires
        pre.wf(),
        transfer_step(pre, post, new_recipient, new_recipient_tokens),
    ensures
        post.wf(),
        post.ix.deposited_amount - post.withdrawn_amount == pre.ix.deposited_amount
            - pre.withdrawn_amount,
{
}

} // verus!
