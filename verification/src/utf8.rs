//! Reading bytes as text.

use vstd::prelude::*;
use vstd::string::*;
use vstd::utf8::*;

verus! {

/// `core::str::from_utf8`, taken on trust: the bytes are text exactly where
/// they are valid UTF-8, and the text is then made of these very bytes.
#[verifier::external_body]
pub(crate) fn str_from_utf8(bytes: &[u8]) -> (text: Option<&str>)
    ensures
        text is Some <==> valid_utf8(bytes@),
        text matches Some(s) ==> s.spec_bytes() == bytes@,
{
    core::str::from_utf8(bytes).ok()
}

/// The text that `bytes` encode, or the empty text where they are not valid
/// UTF-8.
pub open spec fn text_or_empty(bytes: Seq<u8>) -> Seq<char> {
    if valid_utf8(bytes) {
        decode_utf8(bytes)
    } else {
        Seq::empty()
    }
}

/// Reads `bytes` as UTF-8 text; bytes that are not valid UTF-8 give the
/// empty text.
pub fn decode_or_empty(bytes: &[u8]) -> (text: String)
    ensures
        text@ == text_or_empty(bytes@),
{
    match str_from_utf8(bytes) {
        Some(s) => {
            proof {
                encode_utf8_decode_utf8(s@);
            }
            String::from_str(s)
        },
        None => String::new(),
    }
}

/// Text that is written as bytes and read back is unchanged.
pub proof fn lemma_text_round_trip(text: Seq<char>)
    ensures
        text_or_empty(encode_utf8(text)) == text,
{
    encode_utf8_valid_utf8(text);
    encode_utf8_decode_utf8(text);
}

} // verus!
