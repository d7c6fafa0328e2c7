//! Conversion between the byte strings that foreign callers pass and host
//! text. A null pointer arrives here as `None`; the bytes of a non-null one
//! are those before its terminating NUL.

use crate::protocol::{BoundaryError, ErrorKind};
use vstd::prelude::*;
use vstd::utf8::{
    decode_utf8, encode_utf8, encode_utf8_decode_utf8, encode_utf8_valid_utf8, valid_utf8,
};

verus! {

/// The bytes behind an optional pointer, as a sequence.
pub open spec fn raw_view(raw: Option<Vec<u8>>) -> Option<Seq<u8>> {
    match raw {
        Some(v) => Some(v@),
        None => None,
    }
}

/// What decoding a required argument gives.
pub open spec fn decode_spec(raw: Option<Seq<u8>>) -> Result<Seq<char>, ErrorKind> {
    match raw {
        None => Err(ErrorKind::NullInput),
        Some(b) => if valid_utf8(b) {
            Ok(decode_utf8(b))
        } else {
            Err(ErrorKind::InvalidUtf8)
        },
    }
}

/// What decoding an optional argument gives: null and undecodable bytes are
/// both absent.
pub open spec fn decode_optional_spec(raw: Option<Seq<u8>>) -> Option<Seq<char>> {
    match raw {
        Some(b) => if valid_utf8(b) {
            Some(decode_utf8(b))
        } else {
            None
        },
        None => None,
    }
}

/// What encoding text as a C string gives: its UTF-8 bytes and a NUL, unless
/// those bytes already hold a NUL.
pub open spec fn encode_spec(s: Seq<char>) -> Result<Seq<u8>, ErrorKind> {
    if encode_utf8(s).contains(0u8) {
        Err(ErrorKind::EncodingError)
    } else {
        Ok(encode_utf8(s).push(0u8))
    }
}

/// The text of an optional string, as a sequence.
pub open spec fn text_view(s: Option<String>) -> Option<Seq<char>> {
    match s {
        Some(t) => Some(t@),
        None => None,
    }
}

/// Relies on `String::from_utf8`: it accepts exactly the well-formed UTF-8
/// byte sequences, and the string it returns holds the text they encode.
#[verifier::external_body]
fn text_from_utf8(bytes: Vec<u8>) -> (r: Option<String>)
    ensures
        r is Some <==> valid_utf8(bytes@),
        r matches Some(s) ==> s@ == decode_utf8(bytes@),
{
    String::from_utf8(bytes).ok()
}

/// Decodes a required argument.
pub fn decode(raw: Option<Vec<u8>>) -> (r: Result<String, BoundaryError>)
    ensures
        match r {
            Ok(s) => decode_spec(raw_view(raw)) == Ok::<Seq<char>, ErrorKind>(s@),
            Err(e) => decode_spec(raw_view(raw)) == Err::<Seq<char>, ErrorKind>(e.kind),
        },
{
    match raw {
        None => Err(
            BoundaryError::new(
                ErrorKind::NullInput,
                "required argument was a null pointer".to_owned(),
            ),
        ),
        Some(bytes) => match text_from_utf8(bytes) {
            Some(s) => Ok(s),
            None => Err(
                BoundaryError::new(
                    ErrorKind::InvalidUtf8,
                    "argument is not valid UTF-8".to_owned(),
                ),
            ),
        },
    }
}

/// Decodes an optional argument; this never fails.
pub fn decode_optional(raw: Option<Vec<u8>>) -> (r: Option<String>)
    ensures
        text_view(r) == decode_optional_spec(raw_view(raw)),
{
    match raw {
        None => None,
        Some(bytes) => text_from_utf8(bytes),
    }
}

/// Encodes text as the bytes of a C string, NUL included.
pub fn encode(s: &str) -> (r: Result<Vec<u8>, BoundaryError>)
    ensures
        match r {
            Ok(v) => encode_spec(s@) == Ok::<Seq<u8>, ErrorKind>(v@),
            Err(e) => encode_spec(s@) == Err::<Seq<u8>, ErrorKind>(e.kind),
        },
{
    let bytes = s.as_bytes();
    let mut out: Vec<u8> = Vec::new();
    let mut i: usize = 0;
    while i < bytes.len()
        invariant
            bytes@ == encode_utf8(s@),
            0 <= i <= bytes@.len(),
            out@ == bytes@.subrange(0, i as int),
            forall|j: int| 0 <= j < i ==> bytes@[j] != 0u8,
        decreases bytes@.len() - i,
    {
        if bytes[i] == 0u8 {
            assert(bytes@[i as int] == 0u8);
            return Err(
                BoundaryError::new(
                    ErrorKind::EncodingError,
                    "text holds a NUL byte".to_owned(),
                ),
            );
        }
        out.push(bytes[i]);
        i = i + 1;
    }
    assert(bytes@.subrange(0, i as int) =~= bytes@);
    out.push(0u8);
    Ok(out)
}

/// Text that a C string can carry comes back unchanged: the bytes before
/// the terminator decode to the text that was encoded.
pub proof fn lemma_encode_then_decode(s: Seq<char>)
    requires
        !encode_utf8(s).contains(0u8),
    ensures
        encode_spec(s) matches Ok(b) && b.last() == 0u8 && decode_spec(
            Some(b.drop_last()),
        ) == Ok::<Seq<char>, ErrorKind>(s),
{
    encode_utf8_valid_utf8(s);
    encode_utf8_decode_utf8(s);
    assert(encode_utf8(s).push(0u8).drop_last() =~= encode_utf8(s));
}

} // verus!
