use vstd::prelude::*;

use crate::errors::TipyError;
use crate::identity::Identity;

verus! {

/// Byte length of a serialized token holding account.
pub const HOLDING_ACCOUNT_LEN: usize = 165;

/// What the instruction reads from a token holding account: the asset it
/// holds, the identity authorized to debit it, and its balance.
#[derive(Clone, Copy, Debug, PartialEq, Eq, Structural)]
pub struct TokenHoldingAccount {
    pub mint: Identity,
    pub owner: Identity,
    pub amount: u64,
}

/// The unsigned 64-bit integer stored little-endian at `s[off..off + 8]`.
pub open spec fn le64_at(s: Seq<u8>, off: int) -> u64 {
    (s[off] as u64) | ((s[off + 1] as u64) << 8) | ((s[off + 2] as u64) << 16) | ((s[off + 3]
        as u64) << 24) | ((s[off + 4] as u64) << 32) | ((s[off + 5] as u64) << 40) | ((s[off + 6]
        as u64) << 48) | ((s[off + 7] as u64) << 56)
}

/// The identity whose 32 key bytes stand at `s[off..off + 32]`.
pub open spec fn identity_at(s: Seq<u8>, off: int) -> Identity {
    Identity {
        w0: le64_at(s, off),
        w1: le64_at(s, off + 8),
        w2: le64_at(s, off + 16),
        w3: le64_at(s, off + 24),
    }
}

/// A serialized optional field's 4-byte presence tag at `s[off..off + 4]`:
/// only 0 ("absent") and 1 ("present"), stored little-endian, deserialize;
/// any other tag makes the whole account malformed.
pub open spec fn option_tag_ok(s: Seq<u8>, off: int) -> bool {
    &&& (s[off] == 0u8 || s[off] == 1u8)
    &&& s[off + 1] == 0u8
    &&& s[off + 2] == 0u8
    &&& s[off + 3] == 0u8
}

/// The serialized holding-account layout:
/// mint at 0..32, owner at 32..64, amount at 64..72, an optional delegate
/// at 72..108 (tag then key), the account state byte at 108, an optional
/// native-balance marker at 109..121, the delegated amount at 121..129, and
/// an optional close authority at 129..165.
///
/// Raw bytes deserialize into a [`TokenHoldingAccount`] exactly when the
/// length matches, every optional field carries a well-formed tag, and the
/// state byte shows an initialized (1) or frozen (2) account.
pub open spec fn holding_bytes_valid(s: Seq<u8>) -> bool {
    &&& s.len() == HOLDING_ACCOUNT_LEN
    &&& option_tag_ok(s, 72)
    &&& (s[108] == 1u8 || s[108] == 2u8)
    &&& option_tag_ok(s, 109)
    &&& option_tag_ok(s, 129)
}

/// The fields the instruction reads, taken from a serialized holding account.
pub open spec fn holding_of(s: Seq<u8>) -> TokenHoldingAccount {
    TokenHoldingAccount {
        mint: identity_at(s, 0),
        owner: identity_at(s, 32),
        amount: le64_at(s, 64),
    }
}

/// Deserialization as a whole: the parsed account, or nothing for bytes that
/// are not a well-formed, initialized holding account.
pub open spec fn parse_holding(s: Seq<u8>) -> Option<TokenHoldingAccount> {
    if holding_bytes_valid(s) {
        Some(holding_of(s))
    } else {
        None
    }
}

fn read_le_u64(v: &Vec<u8>, off: usize) -> (r: u64)
    requires
        off + 8 <= v.len(),
    ensures
        r == le64_at(v@, off as int),
{
    (v[off] as u64) | ((v[off + 1] as u64) << 8u64) | ((v[off + 2] as u64) << 16u64) | ((v[off + 3]
        as u64) << 24u64) | ((v[off + 4] as u64) << 32u64) | ((v[off + 5] as u64) << 40u64) | ((v[off
        + 6] as u64) << 48u64) | ((v[off + 7] as u64) << 56u64)
}

fn read_identity(v: &Vec<u8>, off: usize) -> (r: Identity)
    requires
        off + 32 <= v.len(),
    ensures
        r == identity_at(v@, off as int),
{
    Identity {
        w0: read_le_u64(v, off),
        w1: read_le_u64(v, off + 8),
        w2: read_le_u64(v, off + 16),
        w3: read_le_u64(v, off + 24),
    }
}

fn check_option_tag(v: &Vec<u8>, off: usize) -> (r: bool)
    requires
        off + 4 <= v.len(),
    ensures
        r == option_tag_ok(v@, off as int),
{
    (v[off] == 0 || v[off] == 1) && v[off + 1] == 0 && v[off + 2] == 0 && v[off + 3] == 0
}

/// Deserialize the raw bytes of a holding account into the
/// [`TokenHoldingAccount`] shape, validating the layout as it goes. This is
/// the manual, trust-establishing read the token branch relies on: nothing
/// about the account is believed that these bytes do not show.
pub fn try_deserialize_holding(data: &Vec<u8>) -> (r: Result<TokenHoldingAccount, TipyError>)
    ensures
        match r {
            Ok(h) => parse_holding(data@) == Some(h),
            Err(e) => parse_holding(data@) is None && e == TipyError::InvalidTokenAccount,
        },
{
    if data.len() != HOLDING_ACCOUNT_LEN {
        return Err(TipyError::InvalidTokenAccount);
    }
    if !check_option_tag(data, 72) {
        return Err(TipyError::InvalidTokenAccount);
    }
    let state: u8 = data[108];
    if !(state == 1 || state == 2) {
        return Err(TipyError::InvalidTokenAccount);
    }
    if !check_option_tag(data, 109) {
        return Err(TipyError::InvalidTokenAccount);
    }
    if !check_option_tag(data, 129) {
        return Err(TipyError::InvalidTokenAccount);
    }
    Ok(
        TokenHoldingAccount {
            mint: read_identity(data, 0),
            owner: read_identity(data, 32),
            amount: read_le_u64(data, 64),
        },
    )
}

/// Overwrite the amount field at `s[64..72]` with `amount`, little-endian,
/// leaving every other byte as it was. This is the only write a transfer
/// performs on a holding account.
pub fn store_amount(v: &mut Vec<u8>, amount: u64)
    requires
        holding_bytes_valid(old(v)@),
    ensures
        holding_bytes_valid(final(v)@),
        holding_of(final(v)@) == (TokenHoldingAccount { amount, ..holding_of(old(v)@) }),
        forall|i: int|
            0 <= i < final(v)@.len() && !(64 <= i < 72) ==> final(v)@[i] == old(v)@[i],
        final(v)@.len() == old(v)@.len(),
{
    let b0: u8 = #[verifier::truncate] (amount as u8);
    let b1: u8 = #[verifier::truncate] ((amount >> 8u64) as u8);
    let b2: u8 = #[verifier::truncate] ((amount >> 16u64) as u8);
    let b3: u8 = #[verifier::truncate] ((amount >> 24u64) as u8);
    let b4: u8 = #[verifier::truncate] ((amount >> 32u64) as u8);
    let b5: u8 = #[verifier::truncate] ((amount >> 40u64) as u8);
    let b6: u8 = #[verifier::truncate] ((amount >> 48u64) as u8);
    let b7: u8 = #[verifier::truncate] ((amount >> 56u64) as u8);
    v[64] = b0;
    v[65] = b1;
    v[66] = b2;
    v[67] = b3;
    v[68] = b4;
    v[69] = b5;
    v[70] = b6;
    v[71] = b7;
    proof {
        assert(((amount as u8) as u64) | (((amount >> 8u64) as u8 as u64) << 8) | (((amount
            >> 16u64) as u8 as u64) << 16) | (((amount >> 24u64) as u8 as u64) << 24) | (((amount
            >> 32u64) as u8 as u64) << 32) | (((amount >> 40u64) as u8 as u64) << 40) | (((amount
            >> 48u64) as u8 as u64) << 48) | (((amount >> 56u64) as u8 as u64) << 56) == amount)
            by (bit_vector);
    }
}

} // verus!
