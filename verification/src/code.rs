//! Verification codes: fixed-length, random, single-use tokens.

use crate::constants::VERIFICATION_CODE_LENGTH;
use rand::distr::{Alphanumeric, SampleString};
use vstd::prelude::*;
use vstd::utf8::{encode_utf8, is_ascii_chars, is_ascii_chars_encode_utf8};

verus! {

/// ASCII letters and digits.
pub open spec fn is_alphanumeric(c: char) -> bool {
    ||| 'A' <= c <= 'Z'
    ||| 'a' <= c <= 'z'
    ||| '0' <= c <= '9'
}

/// Whether every character of `text` is an ASCII letter or digit.
pub open spec fn is_alphanumeric_text(text: Seq<char>) -> bool {
    forall|i: int| 0 <= i < text.len() ==> is_alphanumeric(#[trigger] text[i])
}

/// The shape of a verification code: the fixed number of ASCII letters and digits.
pub open spec fn is_verification_code(code: Seq<char>) -> bool {
    code.len() == VERIFICATION_CODE_LENGTH && is_alphanumeric_text(code)
}

/// The length that the confirm step tests: the number of bytes of the text.
pub open spec fn byte_len(text: Seq<char>) -> nat {
    encode_utf8(text).len()
}

/// Calls `SampleString::sample_string` of `rand`'s `Alphanumeric` on the
/// thread's generator. Trusted: the string has `length` characters, each an
/// ASCII letter or digit. Nothing is claimed of which.
#[verifier::external_body]
pub(crate) fn generate_random_string(length: usize) -> (text: String)
    ensures
        text@.len() == length,
        is_alphanumeric_text(text@),
{
    Alphanumeric.sample_string(&mut rand::rng(), length)
}

/// A fresh verification code.
pub fn generate_verification_code() -> (code: String)
    ensures
        is_verification_code(code@),
{
    generate_random_string(VERIFICATION_CODE_LENGTH)
}

/// Every text of the shape of a verification code has the length that the
/// confirm step asks for.
pub proof fn lemma_code_has_required_length(code: Seq<char>)
    requires
        is_verification_code(code),
    ensures
        byte_len(code) == VERIFICATION_CODE_LENGTH,
{
    assert(is_ascii_chars(code)) by {
        assert forall|i: int| 0 <= i < code.len() implies '\0' <= #[trigger] code[i] <= '\u{7f}' by {
            assert(is_alphanumeric(code[i]));
        }
    }
    is_ascii_chars_encode_utf8(code);
}

} // verus!
