//! The two crossings: text on its way to the native side, and bytes that
//! come back from it.

use vstd::prelude::*;
use vstd::string::StringSliceAdditionalSpecFns;
use vstd::utf8::{decode_utf8, encode_utf8, valid_utf8};
use crate::error::{nul_message, Error};
use crate::native_string::{first_nul, lemma_first_nul_is_unique, nul_free, NativeString};
use crate::nul_char::lemma_nul_free_text;

verus! {

/// Makes `text` ready for the native side, or says in words where the
/// nul byte stands that keeps it from crossing.
pub fn to_native(text: &str) -> (crossed: Result<NativeString, Error>)
    ensures
        crossed is Ok <==> !text@.contains('\0'),
        crossed is Ok <==> nul_free(text.spec_bytes()),
        match crossed {
            Ok(native) => native@ == text.spec_bytes(),
            Err(e) => e@ == nul_message(first_nul(text.spec_bytes()) as nat),
        },
{
    proof {
        lemma_nul_free_text(text@);
    }
    match NativeString::new(text) {
        Ok(native) => Ok(native),
        Err(e) => {
            proof {
                lemma_first_nul_is_unique(text.spec_bytes(), e.position() as int);
            }
            Err(Error::from(e))
        },
    }
}

/// What `String::from_utf8_lossy` makes of `bytes`.
pub uninterp spec fn lossy_utf8(bytes: Seq<u8>) -> Seq<char>;

/// The text that `bytes` stand for: the text that they encode where they
/// are UTF-8, and else what lossy decoding makes of them.
pub open spec fn text_of(bytes: Seq<u8>) -> Seq<char> {
    if valid_utf8(bytes) {
        decode_utf8(bytes)
    } else {
        lossy_utf8(bytes)
    }
}

/// Calls `String::from_utf8_lossy` and takes the result as an owned
/// string. Trusted: the result depends on the bytes alone, and bytes that
/// are UTF-8 already give the very text that they encode.
#[verifier::external_body]
fn from_utf8_lossy(bytes: &[u8]) -> (text: String)
    ensures
        text@ == lossy_utf8(bytes@),
        valid_utf8(bytes@) ==> text@ == decode_utf8(bytes@),
{
    String::from_utf8_lossy(bytes).into_owned()
}

/// Reads bytes that the native side gave as text. No input is refused:
/// what is not UTF-8 is decoded lossily.
pub fn to_text(bytes: &[u8]) -> (text: String)
    ensures
        text@ == text_of(bytes@),
{
    from_utf8_lossy(bytes)
}

/// Text that crossed to the native side reads back as it was.
pub proof fn lemma_text_round_trip(text: Seq<char>)
    ensures
        text_of(encode_utf8(text)) == text,
{
    vstd::utf8::encode_utf8_valid_utf8(text);
    vstd::utf8::encode_utf8_decode_utf8(text);
}

} // verus!
