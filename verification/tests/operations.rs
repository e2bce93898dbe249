//! The five operations on realistic account fixtures.

use streamflow::account::{AccountView, Address};
use streamflow::error::StreamError;
use streamflow::pda::{
    find_escrow_address, get_associated_token_address, rent_sysvar_address,
    spl_token_program_address, system_program_address,
};
use streamflow::state::StreamInstruction;
use streamflow::token::{
    cancel, create, topup_stream, transfer_recipient, withdraw, CancelAccounts, CreateEffects,
    InitializeAccounts, TopUpAccounts, TransferAccounts, WithdrawAccounts,
};

fn addr(tag: u8) -> Address {
    Address { bytes: [tag; 32] }
}

fn account(key: Address, owner: Address, signer: bool, writable: bool, lamports: u64, data: Vec<u8>) -> AccountView {
    AccountView { key, owner, is_signer: signer, is_writable: writable, lamports, data }
}

fn token_account_bytes(mint: &Address, owner: &Address, amount: u64) -> Vec<u8> {
    let mut data = vec![0u8; 165];
    data[0..32].copy_from_slice(&mint.bytes);
    data[32..64].copy_from_slice(&owner.bytes);
    data[64..72].copy_from_slice(&amount.to_le_bytes());
    data[108] = 1;
    data
}

fn mint_bytes(decimals: u8) -> Vec<u8> {
    let mut data = vec![0u8; 82];
    data[44] = decimals;
    data[45] = 1;
    data
}

fn linear_terms() -> StreamInstruction {
    StreamInstruction {
        start_time: 100,
        end_time: 200,
        deposited_amount: 1000,
        total_amount: 1000,
        period: 10,
        cliff: 0,
        cliff_amount: 0,
        cancelable_by_sender: true,
        cancelable_by_recipient: false,
        withdrawal_public: false,
        transferable_by_sender: false,
        transferable_by_recipient: true,
        release_rate: 0,
        stream_name: b"Stream".to_vec(),
    }
}

struct Keys {
    pid: Address,
    sender: Address,
    sender_tokens: Address,
    recipient: Address,
    recipient_tokens: Address,
    metadata: Address,
    escrow: Address,
    mint: Address,
}

fn keys() -> Keys {
    let pid = addr(7);
    let metadata = addr(20);
    let recipient = addr(30);
    let mint = addr(40);
    Keys {
        pid,
        sender: addr(10),
        sender_tokens: addr(11),
        recipient,
        recipient_tokens: get_associated_token_address(&recipient, &mint).unwrap(),
        metadata,
        escrow: find_escrow_address(&metadata, &pid).unwrap(),
        mint,
    }
}

fn create_accounts(k: &Keys) -> InitializeAccounts {
    InitializeAccounts {
        sender: account(k.sender, addr(0), true, true, 10_000, vec![]),
        sender_tokens: account(
            k.sender_tokens,
            spl_token_program_address(),
            false,
            true,
            0,
            token_account_bytes(&k.mint, &k.sender, 5_000),
        ),
        recipient: account(k.recipient, addr(0), false, true, 0, vec![]),
        recipient_tokens: account(k.recipient_tokens, addr(0), false, true, 0, vec![]),
        metadata: account(k.metadata, addr(0), true, true, 0, vec![]),
        escrow_tokens: account(k.escrow, addr(0), false, true, 0, vec![]),
        mint: account(k.mint, spl_token_program_address(), false, false, 0, mint_bytes(6)),
        rent: account(rent_sysvar_address(), addr(0), false, false, 0, vec![]),
        token_program: account(spl_token_program_address(), addr(0), false, false, 0, vec![]),
        associated_token_program: account(addr(50), addr(0), false, false, 0, vec![]),
        system_program: account(system_program_address(), addr(0), false, false, 0, vec![]),
    }
}

fn created(k: &Keys) -> CreateEffects {
    create(&k.pid, create_accounts(k), linear_terms(), 50, 1000, 500).unwrap()
}

fn withdraw_accounts(k: &Keys, metadata_data: Vec<u8>) -> WithdrawAccounts {
    WithdrawAccounts {
        withdraw_authority: account(k.recipient, addr(0), true, false, 0, vec![]),
        sender: account(k.sender, addr(0), false, true, 0, vec![]),
        recipient: account(k.recipient, addr(0), false, true, 0, vec![]),
        recipient_tokens: account(k.recipient_tokens, addr(0), false, true, 0, vec![]),
        metadata: account(k.metadata, k.pid, false, true, 0, metadata_data),
        escrow_tokens: account(
            k.escrow,
            spl_token_program_address(),
            false,
            true,
            0,
            vec![0u8; 165],
        ),
        mint: account(k.mint, spl_token_program_address(), false, false, 0, mint_bytes(6)),
        token_program: account(spl_token_program_address(), addr(0), false, false, 0, vec![]),
    }
}

fn cancel_accounts(k: &Keys, metadata_data: Vec<u8>, sender_signs: bool) -> CancelAccounts {
    CancelAccounts {
        cancel_authority: account(k.sender, addr(0), sender_signs, false, 0, vec![]),
        sender: account(k.sender, addr(0), sender_signs, true, 0, vec![]),
        sender_tokens: account(k.sender_tokens, addr(0), false, true, 0, vec![]),
        recipient: account(k.recipient, addr(0), false, true, 0, vec![]),
        recipient_tokens: account(k.recipient_tokens, addr(0), false, true, 0, vec![]),
        metadata: account(k.metadata, k.pid, false, true, 0, metadata_data),
        escrow_tokens: account(
            k.escrow,
            spl_token_program_address(),
            false,
            true,
            0,
            vec![0u8; 165],
        ),
        mint: account(k.mint, spl_token_program_address(), false, false, 0, mint_bytes(6)),
        token_program: account(spl_token_program_address(), addr(0), false, false, 0, vec![]),
    }
}

fn topup_accounts(k: &Keys, metadata_data: Vec<u8>) -> TopUpAccounts {
    TopUpAccounts {
        sender: account(k.sender, addr(0), true, true, 0, vec![]),
        sender_tokens: account(
            k.sender_tokens,
            spl_token_program_address(),
            false,
            true,
            0,
            token_account_bytes(&k.mint, &k.sender, 5_000),
        ),
        metadata: account(k.metadata, k.pid, false, true, 0, metadata_data),
        escrow_tokens: account(
            k.escrow,
            spl_token_program_address(),
            false,
            true,
            0,
            vec![0u8; 165],
        ),
        mint: account(k.mint, spl_token_program_address(), false, false, 0, mint_bytes(6)),
        token_program: account(spl_token_program_address(), addr(0), false, false, 0, vec![]),
    }
}

#[test]
fn create_lays_out_the_stream() {
    let k = keys();
    let e = created(&k);
    assert!(e.create_recipient_tokens);
    assert_eq!(e.deposit_amount, 1000);
    assert_eq!(e.decimals, 6);
    assert_eq!(e.record.magic, 2);
    assert_eq!(e.record.created_at, 50);
    assert_eq!(e.record.withdrawn_amount, 0);
    // fully funded without a fixed rate: closable at the end of the schedule
    assert_eq!(e.record.closable_at, 200);
    assert_eq!(e.record.sender.bytes, k.sender.bytes);
    assert_eq!(e.record.escrow_tokens.bytes, k.escrow.bytes);
    assert_eq!(e.metadata_bytes.len(), 240 + 73 + 6);
    // storage accounts are sized to the next multiple of 8
    assert_eq!(e.metadata_account_size, 320);
}

#[test]
fn create_partially_funded_recomputes_closable() {
    let k = keys();
    let mut ix = linear_terms();
    ix.deposited_amount = 400;
    let e = create(&k.pid, create_accounts(&k), ix, 50, 1000, 500).unwrap();
    assert_eq!(e.record.closable_at, 141);
}

#[test]
fn create_requires_signatures() {
    let k = keys();
    let mut acc = create_accounts(&k);
    acc.sender.is_signer = false;
    assert_eq!(
        create(&k.pid, acc, linear_terms(), 50, 1000, 500).unwrap_err(),
        StreamError::MissingRequiredSignature
    );
}

#[test]
fn create_rejects_started_schedule() {
    let k = keys();
    assert_eq!(
        create(&k.pid, create_accounts(&k), linear_terms(), 100, 1000, 500).unwrap_err(),
        StreamError::InvalidArgument
    );
}

#[test]
fn create_rejects_long_name() {
    let k = keys();
    let mut ix = linear_terms();
    ix.stream_name = vec![b'x'; 201];
    assert_eq!(
        create(&k.pid, create_accounts(&k), ix, 50, 1000, 500).unwrap_err(),
        StreamError::InvalidArgument
    );
}

#[test]
fn create_rejects_poor_sender() {
    let k = keys();
    let mut ix = linear_terms();
    ix.deposited_amount = 9_999;
    ix.total_amount = 9_999;
    assert_eq!(
        create(&k.pid, create_accounts(&k), ix, 50, 1000, 500).unwrap_err(),
        StreamError::InsufficientFunds
    );
    let mut acc = create_accounts(&k);
    acc.sender.lamports = 100;
    assert_eq!(
        create(&k.pid, acc, linear_terms(), 50, 1000, 500).unwrap_err(),
        StreamError::InsufficientFunds
    );
}

#[test]
fn create_rejects_used_slots() {
    let k = keys();
    let mut acc = create_accounts(&k);
    acc.metadata.data = vec![1, 2, 3];
    assert_eq!(
        create(&k.pid, acc, linear_terms(), 50, 1000, 500).unwrap_err(),
        StreamError::AlreadyInitialized
    );
}

#[test]
fn create_rejects_frozen_accounts() {
    let k = keys();
    let mut acc = create_accounts(&k);
    acc.sender.is_writable = false;
    assert_eq!(
        create(&k.pid, acc, linear_terms(), 50, 1000, 500).unwrap_err(),
        StreamError::AccountsNotWritable
    );
}

#[test]
fn create_rejects_foreign_mint() {
    let k = keys();
    let mut acc = create_accounts(&k);
    acc.sender_tokens.data = token_account_bytes(&addr(99), &k.sender, 5_000);
    assert_eq!(
        create(&k.pid, acc, linear_terms(), 50, 1000, 500).unwrap_err(),
        StreamError::MintMismatch
    );
}

#[test]
fn withdraw_everything_available_midway() {
    let k = keys();
    let e = created(&k);
    let w = withdraw(&k.pid, withdraw_accounts(&k, e.metadata_bytes), 0, 150).unwrap();
    assert_eq!(w.requested, 500);
    assert_eq!(w.record.withdrawn_amount, 500);
    assert_eq!(w.record.last_withdrawn_at, 150);
    assert!(!w.close_escrow);
}

#[test]
fn withdraw_rejects_more_than_available() {
    let k = keys();
    let e = created(&k);
    assert_eq!(
        withdraw(&k.pid, withdraw_accounts(&k, e.metadata_bytes), 501, 150).unwrap_err(),
        StreamError::InvalidArgument
    );
}

#[test]
fn withdraw_emptying_the_stream_closes_escrow() {
    let k = keys();
    let e = created(&k);
    let w = withdraw(&k.pid, withdraw_accounts(&k, e.metadata_bytes), 0, 200).unwrap();
    assert_eq!(w.requested, 1000);
    assert!(w.close_escrow);
}

#[test]
fn withdraw_requires_the_recipient() {
    let k = keys();
    let e = created(&k);
    let mut acc = withdraw_accounts(&k, e.metadata_bytes);
    acc.withdraw_authority.key = k.sender;
    assert_eq!(
        withdraw(&k.pid, acc, 0, 150).unwrap_err(),
        StreamError::InvalidAccountData
    );
    let e2 = created(&k);
    let mut acc2 = withdraw_accounts(&k, e2.metadata_bytes);
    acc2.withdraw_authority.is_signer = false;
    assert_eq!(
        withdraw(&k.pid, acc2, 0, 150).unwrap_err(),
        StreamError::MissingRequiredSignature
    );
}

#[test]
fn withdraw_rejects_unborn_stream() {
    let k = keys();
    let mut acc = withdraw_accounts(&k, vec![]);
    acc.escrow_tokens.data = vec![];
    assert_eq!(
        withdraw(&k.pid, acc, 0, 150).unwrap_err(),
        StreamError::UninitializedAccount
    );
}

#[test]
fn withdraw_rejects_mangled_record() {
    let k = keys();
    let e = created(&k);
    let mut data = e.metadata_bytes;
    data.truncate(100);
    assert_eq!(
        withdraw(&k.pid, withdraw_accounts(&k, data), 0, 150).unwrap_err(),
        StreamError::InvalidMetadata
    );
}

#[test]
fn cancel_midway_splits_the_deposit() {
    let k = keys();
    let e = created(&k);
    let c = cancel(&k.pid, cancel_accounts(&k, e.metadata_bytes, true), 150).unwrap();
    assert_eq!(c.transfer_to_recipient, 500);
    assert_eq!(c.return_to_sender, 500);
    assert_eq!(c.record.withdrawn_amount, 500);
    // canceled before the closable time: the record is stamped
    assert_eq!(c.record.canceled_at, 150);
    assert_eq!(c.record.last_withdrawn_at, 150);
}

#[test]
fn early_cancel_needs_the_senders_signature() {
    let k = keys();
    let e = created(&k);
    assert_eq!(
        cancel(&k.pid, cancel_accounts(&k, e.metadata_bytes, false), 150).unwrap_err(),
        StreamError::MissingRequiredSignature
    );
}

#[test]
fn late_cancel_needs_no_signature() {
    let k = keys();
    let e = created(&k);
    let c = cancel(&k.pid, cancel_accounts(&k, e.metadata_bytes, false), 250).unwrap();
    assert_eq!(c.transfer_to_recipient, 1000);
    assert_eq!(c.return_to_sender, 0);
    // a fully vested cancellation is cleanup: nothing is stamped
    assert_eq!(c.record.canceled_at, 0);
}

#[test]
fn topup_grows_the_deposit() {
    let k = keys();
    let mut ix = linear_terms();
    ix.deposited_amount = 400;
    let e = create(&k.pid, create_accounts(&k), ix, 50, 1000, 500).unwrap();
    let t = topup_stream(&k.pid, topup_accounts(&k, e.metadata_bytes), 300, 120).unwrap();
    assert_eq!(t.amount, 300);
    assert_eq!(t.record.ix.deposited_amount, 700);
    // 10 per second from the start: 700 needs 71 seconds
    assert_eq!(t.record.closable_at, 171);
}

#[test]
fn topup_rejects_zero() {
    let k = keys();
    let e = created(&k);
    assert_eq!(
        topup_stream(&k.pid, topup_accounts(&k, e.metadata_bytes), 0, 150).unwrap_err(),
        StreamError::InvalidArgument
    );
}

#[test]
fn topup_rejects_closed_stream() {
    let k = keys();
    let e = created(&k);
    // the fully funded linear stream is closable at 200
    assert_eq!(
        topup_stream(&k.pid, topup_accounts(&k, e.metadata_bytes), 100, 200).unwrap_err(),
        StreamError::StreamClosed
    );
}

#[test]
fn topup_requires_the_senders_signature() {
    let k = keys();
    let e = created(&k);
    let mut acc = topup_accounts(&k, e.metadata_bytes);
    acc.sender.is_signer = false;
    assert_eq!(
        topup_stream(&k.pid, acc, 100, 150).unwrap_err(),
        StreamError::MissingRequiredSignature
    );
}

fn transfer_accounts(
    k: &Keys,
    metadata_data: Vec<u8>,
    new_recipient: Address,
    wallet: Address,
) -> TransferAccounts {
    let new_tokens = get_associated_token_address(&new_recipient, &k.mint).unwrap();
    TransferAccounts {
        authorized_wallet: account(wallet, addr(0), true, true, 10_000, vec![]),
        new_recipient: account(new_recipient, addr(0), false, false, 0, vec![]),
        new_recipient_tokens: account(new_tokens, addr(0), false, true, 0, vec![]),
        metadata: account(k.metadata, k.pid, false, true, 0, metadata_data),
        escrow_tokens: account(
            k.escrow,
            spl_token_program_address(),
            false,
            true,
            0,
            vec![0u8; 165],
        ),
        mint: account(k.mint, spl_token_program_address(), false, false, 0, mint_bytes(6)),
        rent: account(rent_sysvar_address(), addr(0), false, false, 0, vec![]),
        token_program: account(spl_token_program_address(), addr(0), false, false, 0, vec![]),
        associated_token_program: account(addr(50), addr(0), false, false, 0, vec![]),
        system_program: account(system_program_address(), addr(0), false, false, 0, vec![]),
    }
}

#[test]
fn transfer_rewrites_the_recipient() {
    let k = keys();
    let e = created(&k);
    let new_recipient = addr(60);
    let t = transfer_recipient(
        &k.pid,
        transfer_accounts(&k, e.metadata_bytes, new_recipient, k.recipient),
        500,
    )
    .unwrap();
    // the new recipient's token account does not exist yet: it is created
    assert!(t.create_new_recipient_tokens);
    assert_eq!(t.record.recipient.bytes, new_recipient.bytes);
    assert_eq!(
        t.record.recipient_tokens.bytes,
        get_associated_token_address(&new_recipient, &k.mint).unwrap().bytes
    );
    // no token movement: the deposit bookkeeping is untouched
    assert_eq!(t.record.withdrawn_amount, 0);
    assert_eq!(t.record.ix.deposited_amount, 1000);
}

#[test]
fn transfer_needs_a_permitted_role() {
    let k = keys();
    let mut ix = linear_terms();
    ix.transferable_by_recipient = false;
    let e = create(&k.pid, create_accounts(&k), ix, 50, 1000, 500).unwrap();
    assert_eq!(
        transfer_recipient(
            &k.pid,
            transfer_accounts(&k, e.metadata_bytes, addr(60), k.recipient),
            500,
        )
        .unwrap_err(),
        StreamError::TransferNotAllowed
    );
}

#[test]
fn transfer_rejects_a_stranger() {
    let k = keys();
    let e = created(&k);
    let acc = transfer_accounts(&k, e.metadata_bytes, addr(60), addr(61));
    assert_eq!(
        transfer_recipient(&k.pid, acc, 500).unwrap_err(),
        StreamError::TransferNotAllowed
    );
}

#[test]
fn transfer_by_the_sender_when_permitted() {
    let k = keys();
    let mut ix = linear_terms();
    ix.transferable_by_sender = true;
    ix.transferable_by_recipient = false;
    let e = create(&k.pid, create_accounts(&k), ix, 50, 1000, 500).unwrap();
    let new_recipient = addr(60);
    let t = transfer_recipient(
        &k.pid,
        transfer_accounts(&k, e.metadata_bytes, new_recipient, k.sender),
        500,
    )
    .unwrap();
    assert_eq!(t.record.recipient.bytes, new_recipient.bytes);
}

#[test]
fn transfer_skips_an_existing_token_account() {
    let k = keys();
    let e = created(&k);
    let mut acc = transfer_accounts(&k, e.metadata_bytes, addr(60), k.recipient);
    acc.new_recipient_tokens.data = vec![0u8; 165];
    let t = transfer_recipient(&k.pid, acc, 500).unwrap();
    assert!(!t.create_new_recipient_tokens);
}

#[test]
fn transfer_needs_rent_for_a_new_token_account() {
    let k = keys();
    let e = created(&k);
    let mut acc = transfer_accounts(&k, e.metadata_bytes, addr(60), k.recipient);
    acc.authorized_wallet.lamports = 1;
    assert_eq!(
        transfer_recipient(&k.pid, acc, 500).unwrap_err(),
        StreamError::InsufficientFunds
    );
}

#[test]
fn create_rejects_an_uncoverable_cliff_lump() {
    let k = keys();
    let mut ix = linear_terms();
    ix.cliff = 120;
    ix.cliff_amount = 2_000;
    assert_eq!(
        create(&k.pid, create_accounts(&k), ix, 50, 1000, 500).unwrap_err(),
        StreamError::InvalidArgument
    );
}
