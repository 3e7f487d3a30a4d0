use vstd::prelude::*;

use anchor_lang::AccountDeserialize;

use crate::error::ErrorCode;
use crate::pubkey::Pubkey;

verus! {

/// The error type of the account framework, carried through unread.
#[verifier::external_type_specification]
#[verifier::external_body]
pub struct ExAnchorError(anchor_lang::error::Error);

/// Size in bytes of a stored token account.
pub const TOKEN_ACCOUNT_LEN: usize = 165;

/// The value of `s` read as an unsigned little-endian number.
pub open spec fn le_value(s: Seq<u8>) -> nat
    decreases s.len(),
{
    if s.len() == 0 {
        0
    } else {
        s[0] as nat + 256 * le_value(s.drop_first())
    }
}

/// What the engine reads of a token account: which mint it holds, who owns
/// it, and how many tokens are in it.
#[derive(Clone, Copy, Debug)]
pub struct TokenAccount {
    pub mint: Pubkey,
    pub owner: Pubkey,
    pub amount: u64,
}

/// The four bytes at `at` tag an optional field as absent or present.
pub open spec fn option_tag_valid(data: Seq<u8>, at: int) -> bool {
    &&& data[at] == 0 || data[at] == 1
    &&& data[at + 1] == 0
    &&& data[at + 2] == 0
    &&& data[at + 3] == 0
}

/// `data` holds an initialized token account: it has the right length, its
/// state byte says initialized or frozen, and the tags of its optional
/// delegate, native amount and close authority are well formed.
pub open spec fn unpacks(data: Seq<u8>) -> bool {
    &&& data.len() == TOKEN_ACCOUNT_LEN
    &&& data[108] == 1 || data[108] == 2
    &&& option_tag_valid(data, 72)
    &&& option_tag_valid(data, 109)
    &&& option_tag_valid(data, 129)
}

/// `t` holds the mint, owner and amount stored in the token account `data`.
pub open spec fn read_from(t: TokenAccount, data: Seq<u8>) -> bool {
    &&& data.len() == TOKEN_ACCOUNT_LEN
    &&& t.mint.bytes@ == data.subrange(0, 32)
    &&& t.owner.bytes@ == data.subrange(32, 64)
    &&& t.amount as nat == le_value(data.subrange(64, 72))
}

/// Relies on anchor_spl's `TokenAccount::try_deserialize`, which unpacks an
/// spl-token account: it succeeds exactly when `data` is 165 bytes long, the
/// state byte 108 is 1 (initialized) or 2 (frozen), and the option tags at
/// 72..76, 109..113 and 129..133 are each `[0, 0, 0, 0]` or `[1, 0, 0, 0]`;
/// it reads the mint from bytes 0..32, the owner from bytes 32..64 and the
/// amount, little-endian, from bytes 64..72.
#[verifier::external_body]
fn try_deserialize_token_account(data: &[u8]) -> (r: Result<TokenAccount, anchor_lang::error::Error>)
    ensures
        r is Ok <==> unpacks(data@),
        r matches Ok(t) ==> read_from(t, data@),
{
    let mut buf: &[u8] = data;
    match anchor_spl::token::TokenAccount::try_deserialize(&mut buf) {
        Ok(t) => Ok(TokenAccount {
            mint: Pubkey { bytes: t.mint.to_bytes() },
            owner: Pubkey { bytes: t.owner.to_bytes() },
            amount: t.amount,
        }),
        Err(e) => Err(e),
    }
}

impl TokenAccount {
    /// Reads a token account from its stored bytes.
    pub fn unpack(data: &[u8]) -> (r: Result<TokenAccount, ErrorCode>)
        ensures
            r is Ok <==> unpacks(data@),
            r matches Err(e) ==> e == ErrorCode::AccountDidNotDeserialize,
            r matches Ok(t) ==> read_from(t, data@),
    {
        match try_deserialize_token_account(data) {
            Ok(t) => Ok(t),
            Err(_) => Err(ErrorCode::AccountDidNotDeserialize),
        }
    }
}

/// The fields read from token-account bytes are fixed by those bytes.
pub(crate) proof fn lemma_read_unique(data: Seq<u8>)
    ensures
        forall|a: TokenAccount, b: TokenAccount|
            read_from(a, data) && read_from(b, data) ==> a == b,
{
    assert forall|a: TokenAccount, b: TokenAccount|
        read_from(a, data) && read_from(b, data) implies a == b by {
        assert(a.mint.bytes =~= b.mint.bytes);
        assert(a.owner.bytes =~= b.owner.bytes);
    }
}

} // verus!
