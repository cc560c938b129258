use tipy_net::errors::TipyError;
use tipy_net::holding::{try_deserialize_holding, HOLDING_ACCOUNT_LEN};
use tipy_net::identity::Identity;
use tipy_net::send_transaction::{is_sol, send_tip, SendTip};
use tipy_net::states::NativeAccount;

fn ident(n: u64) -> Identity {
    Identity { w0: n, w1: 0, w2: 0, w3: 0 }
}

fn zero_identity() -> Identity {
    Identity::default()
}

fn put_identity(v: &mut Vec<u8>, off: usize, id: Identity) {
    v[off..off + 8].copy_from_slice(&id.w0.to_le_bytes());
    v[off + 8..off + 16].copy_from_slice(&id.w1.to_le_bytes());
    v[off + 16..off + 24].copy_from_slice(&id.w2.to_le_bytes());
    v[off + 24..off + 32].copy_from_slice(&id.w3.to_le_bytes());
}

/// A well-formed, initialized serialized holding account.
fn holding_bytes(mint: Identity, owner: Identity, amount: u64) -> Vec<u8> {
    let mut v = vec![0u8; HOLDING_ACCOUNT_LEN];
    put_identity(&mut v, 0, mint);
    put_identity(&mut v, 32, owner);
    v[64..72].copy_from_slice(&amount.to_le_bytes());
    v[108] = 1;
    v
}

fn native_ctx(sender_lamports: u64, receiver_lamports: u64) -> SendTip {
    SendTip {
        data_transaction: None,
        token_mint: zero_identity(),
        sender: NativeAccount { key: ident(1), lamports: sender_lamports },
        receiver: NativeAccount { key: ident(2), lamports: receiver_lamports },
        sender_token_account: Vec::new(),
        receiver_token_account: Vec::new(),
    }
}

fn token_ctx(mint: Identity, sender_holding: Vec<u8>, receiver_holding: Vec<u8>) -> SendTip {
    SendTip {
        data_transaction: None,
        token_mint: mint,
        sender: NativeAccount { key: ident(1), lamports: 1_000 },
        receiver: NativeAccount { key: ident(2), lamports: 1_000 },
        sender_token_account: sender_holding,
        receiver_token_account: receiver_holding,
    }
}

#[test]
fn message_over_limit_rejected() {
    let mut ctx = native_ctx(1_000, 0);
    let before = ctx.clone();
    let message = vec![b'x'; 101];
    let r = send_tip(&mut ctx, 10, message, 42);
    assert_eq!(r, Err(TipyError::MessageTooLong));
    assert_eq!(ctx, before);
}

#[test]
fn message_at_limit_accepted() {
    let mut ctx = native_ctx(1_000, 0);
    let message = vec![b'x'; 100];
    let r = send_tip(&mut ctx, 10, message.clone(), 42);
    assert_eq!(r, Ok(()));
    let rec = ctx.data_transaction.expect("record written");
    assert_eq!(rec.message, message);
}

#[test]
fn is_sol_classification() {
    assert!(is_sol(&zero_identity()));
    assert!(!is_sol(&ident(1)));
    assert!(!is_sol(&Identity { w0: 0, w1: 0, w2: 0, w3: 1 }));
}

#[test]
fn native_transfer_end_to_end() {
    let mut ctx = native_ctx(1_000, 200);
    let r = send_tip(&mut ctx, 500, b"thanks!".to_vec(), 1_700_000_000);
    assert_eq!(r, Ok(()));
    assert_eq!(ctx.sender.lamports, 500);
    assert_eq!(ctx.receiver.lamports, 700);
    let rec = ctx.data_transaction.expect("record written");
    assert_eq!(rec.sender, ident(1));
    assert_eq!(rec.receiver, ident(2));
    assert_eq!(rec.amount, 500);
    assert_eq!(rec.message, b"thanks!".to_vec());
    assert_eq!(rec.timestamp, 1_700_000_000);
    assert!(rec.is_sol);
}

#[test]
fn native_insufficient_funds_aborts() {
    let mut ctx = native_ctx(499, 200);
    let before = ctx.clone();
    let r = send_tip(&mut ctx, 500, Vec::new(), 42);
    assert_eq!(r, Err(TipyError::InsufficientFunds));
    assert_eq!(ctx, before);
}

#[test]
fn zero_mint_ignores_token_accounts() {
    // A native transfer never reads the holding accounts: garbage there
    // does not stop it.
    let mut ctx = native_ctx(100, 0);
    ctx.sender_token_account = vec![0xff; 3];
    ctx.receiver_token_account = vec![0xaa; 500];
    let r = send_tip(&mut ctx, 100, Vec::new(), 42);
    assert_eq!(r, Ok(()));
    assert!(ctx.data_transaction.unwrap().is_sol);
}

#[test]
fn token_sender_mint_mismatch_aborts() {
    let mint = ident(9);
    let other = ident(8);
    let mut ctx = token_ctx(
        mint,
        holding_bytes(other, ident(1), 1_000),
        holding_bytes(mint, ident(2), 50),
    );
    let before = ctx.clone();
    let r = send_tip(&mut ctx, 10, Vec::new(), 42);
    assert_eq!(r, Err(TipyError::InvalidTokenAccount));
    assert_eq!(ctx, before);
}

#[test]
fn token_receiver_mint_mismatch_aborts() {
    let mint = ident(9);
    let other = ident(8);
    let mut ctx = token_ctx(
        mint,
        holding_bytes(mint, ident(1), 1_000),
        holding_bytes(other, ident(2), 50),
    );
    let before = ctx.clone();
    let r = send_tip(&mut ctx, 10, Vec::new(), 42);
    assert_eq!(r, Err(TipyError::InvalidTokenAccount));
    assert_eq!(ctx, before);
}

#[test]
fn token_owner_mismatch_aborts() {
    let mint = ident(9);
    let mut ctx = token_ctx(
        mint,
        holding_bytes(mint, ident(3), 1_000),
        holding_bytes(mint, ident(2), 50),
    );
    let before = ctx.clone();
    let r = send_tip(&mut ctx, 10, Vec::new(), 42);
    assert_eq!(r, Err(TipyError::InvalidTokenAccount));
    assert_eq!(ctx, before);
}

#[test]
fn token_transfer_moves_exact_amount() {
    let mint = ident(9);
    let mut ctx = token_ctx(
        mint,
        holding_bytes(mint, ident(1), 1_000),
        holding_bytes(mint, ident(2), 50),
    );
    let r = send_tip(&mut ctx, 600, b"tip".to_vec(), 42);
    assert_eq!(r, Ok(()));
    let src = try_deserialize_holding(&ctx.sender_token_account).unwrap();
    let dst = try_deserialize_holding(&ctx.receiver_token_account).unwrap();
    assert_eq!(src.amount, 400);
    assert_eq!(dst.amount, 650);
    assert_eq!(src.mint, mint);
    assert_eq!(dst.mint, mint);
    assert_eq!(src.owner, ident(1));
    // Native balances stay untouched on the token path.
    assert_eq!(ctx.sender.lamports, 1_000);
    assert_eq!(ctx.receiver.lamports, 1_000);
    let rec = ctx.data_transaction.expect("record written");
    assert_eq!(rec.amount, 600);
    assert!(!rec.is_sol);
}

#[test]
fn token_insufficient_balance_aborts() {
    let mint = ident(9);
    let mut ctx = token_ctx(
        mint,
        holding_bytes(mint, ident(1), 599),
        holding_bytes(mint, ident(2), 50),
    );
    let before = ctx.clone();
    let r = send_tip(&mut ctx, 600, Vec::new(), 42);
    assert_eq!(r, Err(TipyError::InsufficientFunds));
    assert_eq!(ctx, before);
}

#[test]
fn second_tip_same_pair_fails() {
    let mut ctx = native_ctx(1_000, 0);
    let r1 = send_tip(&mut ctx, 100, Vec::new(), 42);
    assert_eq!(r1, Ok(()));
    let after_first = ctx.clone();
    // The record slot for the (sender, receiver) pair is now occupied: the
    // derived address admits one record per ordered pair.
    let r2 = send_tip(&mut ctx, 100, Vec::new(), 43);
    assert_eq!(r2, Err(TipyError::RecordAlreadyExists));
    assert_eq!(ctx, after_first);
}

#[test]
fn holding_account_deserializes() {
    let mint = Identity { w0: 1, w1: 2, w2: 3, w3: 4 };
    let owner = Identity { w0: 5, w1: 6, w2: 7, w3: 8 };
    let bytes = holding_bytes(mint, owner, 0xdead_beef_0102_0304);
    let h = try_deserialize_holding(&bytes).unwrap();
    assert_eq!(h.mint, mint);
    assert_eq!(h.owner, owner);
    assert_eq!(h.amount, 0xdead_beef_0102_0304);
}

#[test]
fn holding_account_frozen_state_deserializes() {
    let mut bytes = holding_bytes(ident(9), ident(1), 7);
    bytes[108] = 2;
    let h = try_deserialize_holding(&bytes).unwrap();
    assert_eq!(h.amount, 7);
}

#[test]
fn holding_account_rejects_malformed() {
    let good = holding_bytes(ident(9), ident(1), 7);

    let mut short = good.clone();
    short.pop();
    assert_eq!(try_deserialize_holding(&short), Err(TipyError::InvalidTokenAccount));

    let mut long = good.clone();
    long.push(0);
    assert_eq!(try_deserialize_holding(&long), Err(TipyError::InvalidTokenAccount));

    let mut uninitialized = good.clone();
    uninitialized[108] = 0;
    assert_eq!(try_deserialize_holding(&uninitialized), Err(TipyError::InvalidTokenAccount));

    let mut bad_state = good.clone();
    bad_state[108] = 3;
    assert_eq!(try_deserialize_holding(&bad_state), Err(TipyError::InvalidTokenAccount));

    let mut bad_delegate_tag = good.clone();
    bad_delegate_tag[72] = 2;
    assert_eq!(try_deserialize_holding(&bad_delegate_tag), Err(TipyError::InvalidTokenAccount));

    let mut bad_native_tag = good.clone();
    bad_native_tag[110] = 1;
    assert_eq!(try_deserialize_holding(&bad_native_tag), Err(TipyError::InvalidTokenAccount));

    let mut bad_close_tag = good.clone();
    bad_close_tag[129] = 9;
    assert_eq!(try_deserialize_holding(&bad_close_tag), Err(TipyError::InvalidTokenAccount));
}

#[test]
fn malformed_sender_holding_aborts_token_transfer() {
    let mint = ident(9);
    let mut garbage = holding_bytes(mint, ident(1), 1_000);
    garbage[108] = 0;
    let mut ctx = token_ctx(mint, garbage, holding_bytes(mint, ident(2), 50));
    let before = ctx.clone();
    let r = send_tip(&mut ctx, 10, Vec::new(), 42);
    assert_eq!(r, Err(TipyError::InvalidTokenAccount));
    assert_eq!(ctx, before);
}
