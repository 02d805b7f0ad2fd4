use vstd::prelude::*;

verus! {

/// The error of the bech32 decoder.
#[verifier::external_type_specification]
#[verifier::external_body]
pub struct ExBech32Error(bech32::Error);

/// Whether the bech32 decoder accepts a string: a human-readable part, the
/// separator, a data part in the bech32 alphabet and a matching checksum.
pub uninterp spec fn bech32_decodes(s: Seq<char>) -> bool;

/// Runs `bech32::decode` on `s` and drops the decoded parts. The decoder reads
/// nothing but the string, so its verdict is a function of the characters; it
/// is named by [`bech32_decodes`] and not described further.
#[verifier::external_body]
fn bech32_decode(s: &str) -> (decoded: Result<(), bech32::Error>)
    ensures
        decoded.is_ok() == bech32_decodes(s@),
{
    bech32::decode(s).map(|_| ())
}

/// Whether `to` is a well-formed address of the foreign chain.
pub fn validate_address(to: &str) -> (valid: bool)
    ensures
        valid == bech32_decodes(to@),
{
    match bech32_decode(to) {
        Ok(_) => true,
        Err(_) => false,
    }
}

} // verus!
