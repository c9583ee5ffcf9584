//! Display encodings of fixed-width binary identifiers, as the ledger's SDK
//! renders them.
use vstd::prelude::*;

verus! {

/// The display text of a 32-byte account address.
pub uninterp spec fn pubkey_text_of(b: Seq<u8>) -> Seq<char>;

/// The display text of a 32-byte hash.
pub uninterp spec fn hash_text_of(b: Seq<u8>) -> Seq<char>;

/// The display text of a 64-byte signature.
pub uninterp spec fn signature_text_of(b: Seq<u8>) -> Seq<char>;

pub const PUBKEY_BYTES: usize = 32;

pub const HASH_BYTES: usize = 32;

pub const SIGNATURE_BYTES: usize = 64;

/// Relies on `Pubkey::try_from(&[u8])`, which accepts exactly 32 bytes, and on
/// `Pubkey`'s `Display`: the text depends on the bytes alone.
#[verifier::external_body]
pub(crate) fn pubkey_text(b: &Vec<u8>) -> (r: String)
    requires
        b@.len() == PUBKEY_BYTES,
    ensures
        r@ == pubkey_text_of(b@),
{
    solana_sdk::pubkey::Pubkey::try_from(b.as_slice()).unwrap().to_string()
}

/// Relies on `Hash::new`, which accepts exactly 32 bytes, and on `Hash`'s
/// `Display`: the text depends on the bytes alone.
#[verifier::external_body]
pub(crate) fn hash_text(b: &Vec<u8>) -> (r: String)
    requires
        b@.len() == HASH_BYTES,
    ensures
        r@ == hash_text_of(b@),
{
    solana_sdk::hash::Hash::new(b.as_slice()).to_string()
}

/// Relies on `Signature::try_from(&[u8])`, which accepts exactly 64 bytes, and
/// on `Signature`'s `Display`: the text depends on the bytes alone.
#[verifier::external_body]
pub(crate) fn signature_text(b: &Vec<u8>) -> (r: String)
    requires
        b@.len() == SIGNATURE_BYTES,
    ensures
        r@ == signature_text_of(b@),
{
    solana_sdk::signature::Signature::try_from(b.as_slice()).unwrap().to_string()
}

/// Byte-wise equality of two buffers.
pub fn bytes_equal(a: &Vec<u8>, b: &Vec<u8>) -> (r: bool)
    ensures
        r == (a@ == b@),
{
    if a.len() != b.len() {
        return false;
    }
    let mut i: usize = 0;
    while i < a.len()
        invariant
            a@.len() == b@.len(),
            i <= a@.len(),
            forall|j: int| 0 <= j < i ==> a@[j] == b@[j],
        decreases a@.len() - i,
    {
        if a[i] != b[i] {
            return false;
        }
        i = i + 1;
    }
    assert(a@ =~= b@);
    true
}

} // verus!
