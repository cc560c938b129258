use vstd::prelude::*;

use crate::capabilities::{create_record, native_transfer, token_transfer};
use crate::errors::TipyError;
use crate::holding::{holding_bytes_valid, holding_of, try_deserialize_holding, TokenHoldingAccount};
use crate::identity::Identity;
use crate::states::{DataTransaction, NativeAccount, MAX_MESSAGE_LEN};

verus! {

/// The account references one invocation of the tip-settlement instruction
/// works on, resolved by the host runtime and handed in as plain state:
/// the record slot at the address derived from the (sender, receiver) pair,
/// the asset-identity descriptor, the two native accounts, and the raw bytes
/// of the two token holding accounts.
#[derive(Clone, Debug, PartialEq, Eq)]
pub struct SendTip {
    /// Record account at the derived address; `None` until this instruction
    /// creates it.
    pub data_transaction: Option<DataTransaction>,
    /// Asset-identity descriptor: the zero identity selects the native path.
    pub token_mint: Identity,
    /// Payer; the host has already checked this identity's signature.
    pub sender: NativeAccount,
    /// Payee; the receiver does not need to sign.
    pub receiver: NativeAccount,
    /// Raw bytes of the payer's token holding account; validated manually.
    pub sender_token_account: Vec<u8>,
    /// Raw bytes of the payee's token holding account; validated manually.
    pub receiver_token_account: Vec<u8>,
}

/// Transfer classification: native exactly when the asset-identity
/// descriptor is the zero/default identity.
pub open spec fn is_sol_of(mint: Identity) -> bool {
    mint == Identity::zero()
}

/// Classify the transfer from the supplied asset-identity descriptor.
pub fn is_sol(mint: &Identity) -> (r: bool)
    ensures
        r == is_sol_of(*mint),
{
    mint.is_zero()
}

/// The token branch's four trust checks, in order: the descriptor is not the
/// zero identity, both holding accounts hold the described asset, and the
/// sender's holding account is owned by the sender.
pub open spec fn token_checks_pass(
    mint: Identity,
    sender_key: Identity,
    src: TokenHoldingAccount,
    dst: TokenHoldingAccount,
) -> bool {
    &&& mint != Identity::zero()
    &&& src.mint == mint
    &&& dst.mint == mint
    &&& src.owner == sender_key
}

/// Which failure, if any, one invocation of the instruction ends in, checked
/// in the instruction's own order: message length, record uniqueness, then
/// the branch selected by the asset-identity descriptor.
pub open spec fn tip_error(c: SendTip, amount: u64, message: Seq<u8>) -> Option<TipyError> {
    if message.len() > MAX_MESSAGE_LEN {
        Some(TipyError::MessageTooLong)
    } else if c.data_transaction is Some {
        Some(TipyError::RecordAlreadyExists)
    } else if is_sol_of(c.token_mint) {
        if c.sender.lamports < amount {
            Some(TipyError::InsufficientFunds)
        } else {
            None
        }
    } else {
        let src = c.sender_token_account@;
        let dst = c.receiver_token_account@;
        if !holding_bytes_valid(src) || !holding_bytes_valid(dst) {
            Some(TipyError::InvalidTokenAccount)
        } else if !token_checks_pass(c.token_mint, c.sender.key, holding_of(src), holding_of(dst)) {
            Some(TipyError::InvalidTokenAccount)
        } else if holding_of(src).amount < amount {
            Some(TipyError::InsufficientFunds)
        } else {
            None
        }
    }
}

/// What machine limits force on an invocation: the credited balance must fit
/// a 64-bit word on the path the instruction will take.
pub open spec fn tip_requires(c: SendTip, amount: u64) -> bool {
    if is_sol_of(c.token_mint) {
        c.receiver.lamports + amount <= u64::MAX
    } else {
        let src = c.sender_token_account@;
        let dst = c.receiver_token_account@;
        (holding_bytes_valid(src) && holding_bytes_valid(dst) && token_checks_pass(
            c.token_mint,
            c.sender.key,
            holding_of(src),
            holding_of(dst),
        ) && holding_of(src).amount >= amount) ==> holding_of(dst).amount + amount <= u64::MAX
    }
}

/// The tip-settlement instruction: validate the message, classify the
/// transfer, run the selected transfer capability, and create the record at
/// the derived address — or abort with every account exactly as it was.
///
/// `timestamp` is the ledger's current time, read by the host runtime's
/// clock before the instruction runs; it is recorded, never interpreted.
pub fn send_tip(ctx: &mut SendTip, amount: u64, message: Vec<u8>, timestamp: i64) -> (r: Result<
    (),
    TipyError,
>)
    requires
        tip_requires(*old(ctx), amount),
    ensures
        match r {
            Ok(_) => tip_error(*old(ctx), amount, message@) is None,
            Err(e) => tip_error(*old(ctx), amount, message@) == Some(e),
        },
        r is Err ==> *final(ctx) == *old(ctx),
        r is Ok ==> ({
            &&& final(ctx).data_transaction matches Some(rec)
            &&& rec.sender == old(ctx).sender.key
            &&& rec.receiver == old(ctx).receiver.key
            &&& rec.amount == amount
            &&& rec.message == message
            &&& rec.timestamp == timestamp
            &&& rec.is_sol == is_sol_of(old(ctx).token_mint)
            &&& rec.wf()
        }),
        r is Ok ==> ({
            &&& final(ctx).token_mint == old(ctx).token_mint
            &&& final(ctx).sender.key == old(ctx).sender.key
            &&& final(ctx).receiver.key == old(ctx).receiver.key
        }),
        r is Ok && is_sol_of(old(ctx).token_mint) ==> ({
            &&& final(ctx).sender.lamports == old(ctx).sender.lamports - amount
            &&& final(ctx).receiver.lamports == old(ctx).receiver.lamports + amount
            &&& final(ctx).sender_token_account == old(ctx).sender_token_account
            &&& final(ctx).receiver_token_account == old(ctx).receiver_token_account
        }),
        r is Ok && !is_sol_of(old(ctx).token_mint) ==> ({
            let old_src = holding_of(old(ctx).sender_token_account@);
            let old_dst = holding_of(old(ctx).receiver_token_account@);
            &&& final(ctx).sender.lamports == old(ctx).sender.lamports
            &&& final(ctx).receiver.lamports == old(ctx).receiver.lamports
            &&& holding_bytes_valid(final(ctx).sender_token_account@)
            &&& holding_of(final(ctx).sender_token_account@) == (TokenHoldingAccount {
                amount: (old_src.amount - amount) as u64,
                ..old_src
            })
            &&& holding_bytes_valid(final(ctx).receiver_token_account@)
            &&& holding_of(final(ctx).receiver_token_account@) == (TokenHoldingAccount {
                amount: (old_dst.amount + amount) as u64,
                ..old_dst
            })
        }),
{
    if message.len() > MAX_MESSAGE_LEN {
        return Err(TipyError::MessageTooLong);
    }
    if ctx.data_transaction.is_some() {
        return Err(TipyError::RecordAlreadyExists);
    }

    let is_sol_transfer: bool = is_sol(&ctx.token_mint);

    if is_sol_transfer {
        // Native branch: the capability itself enforces sufficient balance.
        match native_transfer(&mut ctx.sender, &mut ctx.receiver, amount) {
            Ok(_) => (),
            Err(e) => { return Err(e) },
        }
    } else {
        // Token branch: re-validate both holding accounts from their raw
        // bytes before any transfer is attempted.
        let src_account: TokenHoldingAccount = match try_deserialize_holding(
            &ctx.sender_token_account,
        ) {
            Ok(h) => h,
            Err(e) => { return Err(e) },
        };
        let dst_account: TokenHoldingAccount = match try_deserialize_holding(
            &ctx.receiver_token_account,
        ) {
            Ok(h) => h,
            Err(e) => { return Err(e) },
        };
        if ctx.token_mint.is_zero() {
            return Err(TipyError::InvalidTokenAccount);
        }
        if src_account.mint != ctx.token_mint {
            return Err(TipyError::InvalidTokenAccount);
        }
        if dst_account.mint != ctx.token_mint {
            return Err(TipyError::InvalidTokenAccount);
        }
        if src_account.owner != ctx.sender.key {
            return Err(TipyError::InvalidTokenAccount);
        }
        match token_transfer(
            &mut ctx.sender_token_account,
            &mut ctx.receiver_token_account,
            ctx.sender.key,
            amount,
        ) {
            Ok(_) => (),
            Err(e) => { return Err(e) },
        }
    }

    let record = DataTransaction {
        sender: ctx.sender.key,
        receiver: ctx.receiver.key,
        amount,
        message,
        timestamp,
        is_sol: is_sol_transfer,
    };
    match create_record(&mut ctx.data_transaction, record) {
        Ok(_) => Ok(()),
        Err(e) => Err(e),
    }
}

/// Message validation comes first: a message over the byte limit fails the
/// instruction with `MessageTooLong` whatever the rest of the request holds,
/// and one within the limit never produces that kind. Combined with
/// [`send_tip`]'s abort clause, a too-long message leaves every account and
/// the record slot untouched.
pub proof fn lemma_message_validation(c: SendTip, amount: u64, message: Seq<u8>)
    ensures
        message.len() > MAX_MESSAGE_LEN ==> tip_error(c, amount, message) == Some(
            TipyError::MessageTooLong,
        ),
        message.len() <= MAX_MESSAGE_LEN ==> tip_error(c, amount, message) != Some(
            TipyError::MessageTooLong,
        ),
{
}

/// The transfer classification is the comparison against the zero identity
/// and nothing else: `is_sol` holds exactly of the zero/default descriptor.
pub proof fn lemma_is_sol_characterization(mint: Identity)
    ensures
        is_sol_of(mint) <==> mint == Identity::zero(),
{
}

/// Native branch: once the request passes message validation and finds the
/// record slot empty on a native transfer, the only remaining question is the
/// sender's balance — enough covers the amount, a shortfall is an
/// `InsufficientFunds` abort. [`send_tip`]'s success clauses then move the
/// balances by exactly the amount; its abort clause changes nothing.
pub proof fn lemma_native_branch(c: SendTip, amount: u64, message: Seq<u8>)
    requires
        message.len() <= MAX_MESSAGE_LEN,
        c.data_transaction is None,
        is_sol_of(c.token_mint),
    ensures
        c.sender.lamports >= amount ==> tip_error(c, amount, message) is None,
        c.sender.lamports < amount ==> tip_error(c, amount, message) == Some(
            TipyError::InsufficientFunds,
        ),
{
}

/// Token branch, mint mismatch: if the sender's holding account names a
/// different asset than the descriptor, the instruction aborts with
/// `InvalidTokenAccount` — regardless of the amount and of anything about
/// the receiver's account. [`send_tip`]'s abort clause keeps every balance.
pub proof fn lemma_token_mint_mismatch(c: SendTip, amount: u64, message: Seq<u8>)
    requires
        message.len() <= MAX_MESSAGE_LEN,
        c.data_transaction is None,
        !is_sol_of(c.token_mint),
        holding_bytes_valid(c.sender_token_account@),
        holding_of(c.sender_token_account@).mint != c.token_mint,
    ensures
        tip_error(c, amount, message) == Some(TipyError::InvalidTokenAccount),
{
}

/// Token branch, success: when both holding accounts deserialize, all four
/// trust checks pass and the sender's token balance covers the amount, the
/// instruction succeeds; [`send_tip`]'s success clauses then move exactly
/// the amount between the holding accounts and write a record with
/// `is_sol` false.
pub proof fn lemma_token_success(c: SendTip, amount: u64, message: Seq<u8>)
    requires
        message.len() <= MAX_MESSAGE_LEN,
        c.data_transaction is None,
        !is_sol_of(c.token_mint),
        holding_bytes_valid(c.sender_token_account@),
        holding_bytes_valid(c.receiver_token_account@),
        token_checks_pass(
            c.token_mint,
            c.sender.key,
            holding_of(c.sender_token_account@),
            holding_of(c.receiver_token_account@),
        ),
        holding_of(c.sender_token_account@).amount >= amount,
    ensures
        tip_error(c, amount, message) is None,
{
}

/// One record per ordered (sender, receiver) pair: the record address is
/// derived from the pair alone, so a second invocation finds the slot
/// occupied and fails — as `RecordAlreadyExists` once its message passes
/// validation. Together with [`send_tip`]'s clause that success fills the
/// slot, two invocations on the same pair can never both succeed.
pub proof fn lemma_record_uniqueness(c: SendTip, amount: u64, message: Seq<u8>)
    requires
        c.data_transaction is Some,
    ensures
        tip_error(c, amount, message) is Some,
        message.len() <= MAX_MESSAGE_LEN ==> tip_error(c, amount, message) == Some(
            TipyError::RecordAlreadyExists,
        ),
{
}

} // verus!
