use vstd::prelude::*;

use crate::text::{hex_lower_spec, is_hex_byte, lemma_hex_text_bytes, unhex_bytes};
use vstd::utf8::encode_utf8;
use vstd::string::StringSliceAdditionalSpecFns;

verus! {

/// The error type of the `hex` crate.
#[verifier::external_type_specification]
#[verifier::external_body]
pub struct ExFromHexError(hex::FromHexError);

/// What `hex::decode` makes of the bytes of its input: `None` for an odd
/// length or a byte that is not a hex digit (either case), else the digit
/// pairs, most significant first.
pub open spec fn hex_decode_spec(digits: Seq<u8>) -> Option<Seq<u8>> {
    if digits.len() % 2 != 0 {
        None
    } else if forall|i: int| 0 <= i < digits.len() ==> is_hex_byte(#[trigger] digits[i]) {
        Some(unhex_bytes(digits))
    } else {
        None
    }
}

/// `hex::encode`.
///
/// Trusted: the contract claims that the result is the lower-case hex of the
/// bytes, two digits per byte, which is what the crate's source writes.
#[verifier::external_body]
pub(crate) fn hex_encode(data: &[u8]) -> (s: String)
    ensures
        s@ == hex_lower_spec(data@),
{
    hex::encode(data)
}

/// `hex::decode`.
///
/// Trusted: the contract claims that the call succeeds exactly when the
/// input's bytes have even length and are all hex digits, and then returns
/// their digit pairs; which error variant a failure carries is left unsaid.
#[verifier::external_body]
pub(crate) fn hex_decode(s: &str) -> (r: Result<Vec<u8>, hex::FromHexError>)
    ensures
        match r {
            Ok(v) => hex_decode_spec(s.spec_bytes()) == Some(v@),
            Err(_) => hex_decode_spec(s.spec_bytes()) is None,
        },
{
    hex::decode(s)
}

/// Law: decoding what `hex::encode` writes gives the bytes back.
pub proof fn law_hex_encode_decode(bytes: Seq<u8>)
    ensures
        hex_decode_spec(encode_utf8(hex_lower_spec(bytes))) == Some(bytes),
{
    lemma_hex_text_bytes(bytes, hex_lower_spec(bytes), false);
}

} // verus!
