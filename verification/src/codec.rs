//! Base58 text of signatures and public keys, as the Solana crates read and
//! write it. The encoding itself is the outside crates' work; this module only
//! names what they return so that the rest of the library can speak of it.
use vstd::prelude::*;

verus! {

/// What `solana_signature::Signature::from_str` makes of a text: the 64 bytes
/// of the signature it decodes, or `None` where it refuses the text.
pub uninterp spec fn signature_from_base58(text: Seq<char>) -> Option<Seq<u8>>;

/// The UTF-8 bytes of the text that `Display` writes for the signature with
/// the given 64 bytes (its base58 form).
pub uninterp spec fn signature_base58(bytes: Seq<u8>) -> Seq<u8>;

/// What `solana_sdk::pubkey::Pubkey::from_str` makes of a text: the 32 bytes
/// of the key it decodes, or `None` where it refuses the text.
pub uninterp spec fn pubkey_from_base58(text: Seq<char>) -> Option<Seq<u8>>;

/// Parses a base58 signature with `Signature::from_str` and hands back its
/// bytes. Claimed: the result is exactly what the name
/// `signature_from_base58` gives for the text.
#[verifier::external_body]
pub(crate) fn parse_signature(text: &str) -> (parsed: Option<[u8; 64]>)
    ensures
        match parsed {
            Some(bytes) => signature_from_base58(text@) == Some(bytes@),
            None => signature_from_base58(text@) is None,
        },
{
    match <solana_signature::Signature as std::str::FromStr>::from_str(text) {
        Ok(sig) => Some(<[u8; 64]>::from(sig)),
        Err(_) => None,
    }
}

/// Writes a signature as text with `Signature`'s `Display` (base58) and hands
/// back the bytes of that text. Claimed: they are `signature_base58` of the
/// signature's bytes.
#[verifier::external_body]
pub(crate) fn signature_text(sig: &[u8; 64]) -> (text: Vec<u8>)
    ensures
        text@ == signature_base58(sig@),
{
    solana_signature::Signature::from(*sig).to_string().into_bytes()
}

/// Parses a base58 public key with `Pubkey::from_str` and hands back its
/// bytes. Claimed: the result is exactly what the name `pubkey_from_base58`
/// gives for the text.
#[verifier::external_body]
pub(crate) fn parse_pubkey(text: &str) -> (parsed: Option<[u8; 32]>)
    ensures
        match parsed {
            Some(bytes) => pubkey_from_base58(text@) == Some(bytes@),
            None => pubkey_from_base58(text@) is None,
        },
{
    match <solana_sdk::pubkey::Pubkey as std::str::FromStr>::from_str(text) {
        Ok(key) => Some(key.to_bytes()),
        Err(_) => None,
    }
}

} // verus!
