//! Textual form of account keys and signatures.
//!
//! Keys and signatures are written in base58. The encoding itself is the
//! key library's; this module gives its results names that contracts can
//! speak of, and holds the calls.

use vstd::prelude::*;
use crate::transaction::azcz_parser::AZCZ_PROGRAM_ID;
use crate::transaction::pump_parser::PUMP_PROGRAM_ID;

verus! {

/// The text that `solana_sdk::pubkey::Pubkey` displays for the 32 bytes `key`.
pub uninterp spec fn pubkey_text(key: Seq<u8>) -> Seq<char>;

/// The text that `solana_sdk::signature::Signature` displays for the 64 bytes
/// `signature`.
pub uninterp spec fn signature_text(signature: Seq<u8>) -> Seq<char>;

/// The 32 bytes that `solana_sdk::pubkey::Pubkey::from_str_const` decodes the
/// address `text` to.
pub uninterp spec fn program_key(text: Seq<char>) -> Seq<u8>;

/// Whether `text` is the address of one of the supported programs.
pub open spec fn is_program_id(text: Seq<char>) -> bool {
    text == PUMP_PROGRAM_ID@ || text == AZCZ_PROGRAM_ID@
}

/// Calls `to_string` on the `solana_sdk::pubkey::Pubkey` made of `key`. Not
/// proved: that the result is the text named [`pubkey_text`], which is to say
/// that it depends on the bytes of the key alone.
#[verifier::external_body]
pub(crate) fn pubkey_to_string(key: &[u8; 32]) -> (text: String)
    ensures
        text@ == pubkey_text(key@),
{
    solana_sdk::pubkey::Pubkey::new_from_array(*key).to_string()
}

/// Calls `to_string` on the `solana_sdk::signature::Signature` made of
/// `signature`. Not proved: that the result is the text named
/// [`signature_text`], which is to say that it depends on the bytes of the
/// signature alone.
#[verifier::external_body]
pub(crate) fn signature_to_string(signature: &[u8; 64]) -> (text: String)
    ensures
        text@ == signature_text(signature@),
{
    solana_sdk::signature::Signature::from(*signature).to_string()
}

/// Calls `solana_sdk::pubkey::Pubkey::from_str_const`, which panics on text
/// that is no base58 address of 32 bytes; the addresses of the supported
/// programs are such addresses. Not proved: that the result is the key named
/// [`program_key`], which is to say that it depends on the text alone.
#[verifier::external_body]
pub(crate) fn decode_program_id(text: &'static str) -> (key: [u8; 32])
    requires
        is_program_id(text@),
    ensures
        key@ == program_key(text@),
{
    solana_sdk::pubkey::Pubkey::from_str_const(text).to_bytes()
}

/// Whether two keys hold the same bytes.
pub fn same_key(a: &[u8; 32], b: &[u8; 32]) -> (same: bool)
    ensures
        same == (a@ == b@),
{
    let mut i: usize = 0;
    while i < 32
        invariant
            i <= 32,
            forall|j: int| 0 <= j < i ==> a@[j] == b@[j],
        decreases 32 - i,
    {
        if a[i] != b[i] {
            return false;
        }
        i += 1;
    }
    assert(a@ =~= b@);
    true
}

} // verus!
