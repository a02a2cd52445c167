//! Syntax checks of Solana addresses and transaction signatures, by the
//! parsers of `solana_sdk`.

use vstd::prelude::*;
use vstd::string::StringSliceAdditionalSpecFns;

verus! {

/// Whether `solana_sdk`'s `Pubkey::from_str` accepts the text.
pub uninterp spec fn spec_pubkey_parses(s: Seq<char>) -> bool;

/// Whether `solana_sdk`'s `Signature::from_str` accepts the text.
pub uninterp spec fn spec_signature_parses(s: Seq<char>) -> bool;

/// Calls `solana_sdk::pubkey::Pubkey::from_str` and reports whether it
/// succeeded. The answer is named, not described; the source rejects any
/// text longer than 44 bytes before decoding, and that fact is stated.
#[verifier::external_body]
pub(crate) fn pubkey_parses(s: &str) -> (b: bool)
    ensures
        b == spec_pubkey_parses(s@),
        s.spec_bytes().len() > 44 ==> !b,
{
    <solana_sdk::pubkey::Pubkey as std::str::FromStr>::from_str(s).is_ok()
}

/// Calls `solana_sdk::signature::Signature::from_str` and reports whether it
/// succeeded. The answer is named, not described; the source rejects any
/// text longer than 88 bytes before decoding, and that fact is stated.
#[verifier::external_body]
pub(crate) fn signature_parses(s: &str) -> (b: bool)
    ensures
        b == spec_signature_parses(s@),
        s.spec_bytes().len() > 88 ==> !b,
{
    <solana_sdk::signature::Signature as std::str::FromStr>::from_str(s).is_ok()
}

} // verus!
