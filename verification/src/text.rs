//! Byte strings on their way to the native loader and back.

use vstd::prelude::*;
use vstd::utf8::*;

verus! {

/// True when `s` is a string as the native loader reads one: it ends with a
/// zero byte and holds no other.
pub open spec fn is_c_string(s: Seq<u8>) -> bool {
    &&& s.len() > 0
    &&& s[s.len() - 1] == 0
    &&& forall|i: int| 0 <= i < s.len() - 1 ==> s[i] != 0
}

/// A byte string without a zero byte becomes a native string when one is
/// appended.
pub proof fn lemma_terminated_is_c_string(bytes: Seq<u8>)
    requires
        !bytes.contains(0u8),
    ensures
        is_c_string(bytes.push(0u8)),
{
    let s = bytes.push(0u8);
    assert forall|i: int| 0 <= i < s.len() - 1 implies s[i] != 0 by {
        assert(s[i] == bytes[i]);
    }
}

/// Encodes `bytes` for the native loader by appending the terminating zero
/// byte. There is no encoding when `bytes` itself holds a zero byte: the
/// loader would read only what stands before it.
pub fn encode_c_string(bytes: Vec<u8>) -> (encoded: Option<Vec<u8>>)
    ensures
        encoded is None <==> bytes@.contains(0u8),
        encoded matches Some(c) ==> c@ == bytes@.push(0u8) && is_c_string(c@),
{
    let mut i: usize = 0;
    while i < bytes.len()
        invariant
            i <= bytes.len(),
            forall|j: int| 0 <= j < i ==> bytes@[j] != 0,
        decreases bytes.len() - i,
    {
        if bytes[i] == 0 {
            return None;
        }
        i += 1;
    }
    proof {
        lemma_terminated_is_c_string(bytes@);
    }
    let mut encoded = bytes;
    encoded.push(0);
    Some(encoded)
}

/// `String::from_utf8` of the standard library: it accepts exactly the byte
/// strings that are well-formed UTF-8, and the string it gives holds the same
/// bytes.
///
/// This contract is taken on trust from the documentation of the standard
/// library: the body is not verified.
#[verifier::external_body]
fn string_from_utf8(bytes: Vec<u8>) -> (text: Option<String>)
    ensures
        text is Some <==> valid_utf8(bytes@),
        text matches Some(s) ==> encode_utf8(s@) == bytes@,
{
    match String::from_utf8(bytes) {
        Ok(text) => Some(text),
        Err(_) => None,
    }
}

/// The characters that `bytes` spell, where they are well-formed UTF-8.
pub open spec fn decoded(bytes: Seq<u8>) -> Option<Seq<char>> {
    if valid_utf8(bytes) {
        Some(decode_utf8(bytes))
    } else {
        None
    }
}

/// Reads `bytes` as UTF-8 text.
pub fn decode_text(bytes: Vec<u8>) -> (text: Option<String>)
    ensures
        text is Some <==> decoded(bytes@) is Some,
        text matches Some(s) ==> Some(s@) == decoded(bytes@),
{
    let text = string_from_utf8(bytes);
    proof {
        if let Some(s) = &text {
            encode_utf8_decode_utf8(s@);
        }
    }
    text
}

} // verus!
