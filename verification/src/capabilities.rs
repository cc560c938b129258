use vstd::prelude::*;

use crate::errors::TipyError;
use crate::holding::{holding_bytes_valid, holding_of, store_amount, TokenHoldingAccount};
use crate::identity::Identity;
use crate::states::{DataTransaction, NativeAccount};

verus! {

/// The native-transfer capability, against the modeled account state: move
/// `amount` base units from `sender` to `receiver`, or fail on a balance
/// shortfall with nothing changed.
pub fn native_transfer(sender: &mut NativeAccount, receiver: &mut NativeAccount, amount: u64) -> (r:
    Result<(), TipyError>)
    requires
        old(receiver).lamports + amount <= u64::MAX,
    ensures
        r is Ok <==> old(sender).lamports >= amount,
        r is Ok ==> *final(sender) == (NativeAccount {
            lamports: (old(sender).lamports - amount) as u64,
            ..*old(sender)
        }),
        r is Ok ==> *final(receiver) == (NativeAccount {
            lamports: (old(receiver).lamports + amount) as u64,
            ..*old(receiver)
        }),
        r is Err ==> *final(sender) == *old(sender) && *final(receiver) == *old(receiver) && r
            == Err::<(), TipyError>(TipyError::InsufficientFunds),
{
    if sender.lamports < amount {
        return Err(TipyError::InsufficientFunds);
    }
    sender.lamports = sender.lamports - amount;
    receiver.lamports = receiver.lamports + amount;
    Ok(())
}

/// When the token-transfer capability rejects a request, and with which kind:
/// either holding account fails to deserialize, the source is not owned by
/// the authorizing identity, the two accounts hold different assets, or the
/// source balance falls short.
pub open spec fn token_transfer_error(
    src: Seq<u8>,
    dst: Seq<u8>,
    authority: Identity,
    amount: u64,
) -> Option<TipyError> {
    if !holding_bytes_valid(src) || !holding_bytes_valid(dst) {
        Some(TipyError::InvalidTokenAccount)
    } else if holding_of(src).owner != authority {
        Some(TipyError::InvalidTokenAccount)
    } else if holding_of(src).mint != holding_of(dst).mint {
        Some(TipyError::InvalidTokenAccount)
    } else if holding_of(src).amount < amount {
        Some(TipyError::InsufficientFunds)
    } else {
        None
    }
}

/// The token-transfer capability, against the modeled account state: debit
/// `amount` from the holding account serialized in `src` and credit it to the
/// one in `dst`, authorized by `authority`. It re-validates both accounts
/// itself; any failure leaves both untouched.
pub fn token_transfer(src: &mut Vec<u8>, dst: &mut Vec<u8>, authority: Identity, amount: u64) -> (r:
    Result<(), TipyError>)
    requires
        token_transfer_error(old(src)@, old(dst)@, authority, amount) is None ==> holding_of(
            old(dst)@,
        ).amount + amount <= u64::MAX,
    ensures
        match r {
            Ok(_) => token_transfer_error(old(src)@, old(dst)@, authority, amount) is None,
            Err(e) => token_transfer_error(old(src)@, old(dst)@, authority, amount) == Some(e),
        },
        r is Err ==> *final(src) == *old(src) && *final(dst) == *old(dst),
        r is Ok ==> holding_bytes_valid(final(src)@) && holding_of(final(src)@)
            == (TokenHoldingAccount {
            amount: (holding_of(old(src)@).amount - amount) as u64,
            ..holding_of(old(src)@)
        }),
        r is Ok ==> holding_bytes_valid(final(dst)@) && holding_of(final(dst)@)
            == (TokenHoldingAccount {
            amount: (holding_of(old(dst)@).amount + amount) as u64,
            ..holding_of(old(dst)@)
        }),
{
    let src_account: TokenHoldingAccount = match crate::holding::try_deserialize_holding(src) {
        Ok(h) => h,
        Err(e) => { return Err(e) },
    };
    let dst_account: TokenHoldingAccount = match crate::holding::try_deserialize_holding(dst) {
        Ok(h) => h,
        Err(e) => { return Err(e) },
    };
    if src_account.owner != authority {
        return Err(TipyError::InvalidTokenAccount);
    }
    if src_account.mint != dst_account.mint {
        return Err(TipyError::InvalidTokenAccount);
    }
    if src_account.amount < amount {
        return Err(TipyError::InsufficientFunds);
    }
    store_amount(src, src_account.amount - amount);
    store_amount(dst, dst_account.amount + amount);
    Ok(())
}

/// The account-creation capability for the record account: the host resolves
/// the address derived from the (sender, receiver) pair to `slot`; creation
/// writes the record there once and fails if the address is already
/// initialized, so at most one record exists per ordered pair.
pub fn create_record(slot: &mut Option<DataTransaction>, record: DataTransaction) -> (r: Result<
    (),
    TipyError,
>)
    ensures
        r is Ok <==> (*old(slot)) is None,
        r is Ok ==> *final(slot) == Some(record),
        r is Err ==> *final(slot) == *old(slot) && r == Err::<(), TipyError>(
            TipyError::RecordAlreadyExists,
        ),
{
    if slot.is_some() {
        return Err(TipyError::RecordAlreadyExists);
    }
    *slot = Some(record);
    Ok(())
}

} // verus!
