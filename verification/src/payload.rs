//! The bytes that travel to and from the storage.

use bytes::Bytes;
use vstd::prelude::*;
use vstd::string::*;
use vstd::utf8::*;

verus! {

/// `bytes::Bytes`, the storage's own byte string.
#[verifier::external_type_specification]
#[verifier::external_body]
pub struct ExBytes(bytes::Bytes);

/// The bytes that a `bytes::Bytes` holds, in order.
pub uninterp spec fn contents(data: bytes::Bytes) -> Seq<u8>;

/// Calls `Bytes::from` on a vector: the result holds the vector's bytes.
#[verifier::external_body]
fn bytes_from_vec(bytes: Vec<u8>) -> (data: Bytes)
    ensures
        contents(data) == bytes@,
{
    Bytes::from(bytes)
}

/// Calls `to_vec` on a `Bytes`: a vector with the same bytes.
#[verifier::external_body]
fn bytes_to_vec(data: &Bytes) -> (bytes: Vec<u8>)
    ensures
        bytes@ == contents(*data),
{
    data.to_vec()
}

/// `Bytes::len` counts the bytes held.
pub assume_specification[ bytes::Bytes::len ](data: &bytes::Bytes) -> (len: usize)
    ensures
        len == contents(*data).len(),
;

/// Calls `String::from_utf8`: the text whose UTF-8 encoding the bytes are, if they are
/// the encoding of any text.
#[verifier::external_body]
fn text_from_utf8(bytes: Vec<u8>) -> (text: Option<String>)
    ensures
        text is Some <==> valid_utf8(bytes@),
        text matches Some(string) ==> string@ == decode_utf8(bytes@),
{
    String::from_utf8(bytes).ok()
}

/// Hands bytes over as a payload.
pub fn payload(bytes: Vec<u8>) -> (data: Bytes)
    ensures
        contents(data) == bytes@,
{
    bytes_from_vec(bytes)
}

/// The bytes of a payload.
pub fn payload_bytes(data: &Bytes) -> (bytes: Vec<u8>)
    ensures
        bytes@ == contents(*data),
{
    bytes_to_vec(data)
}

/// A text as a payload: its UTF-8 encoding.
pub fn text_payload(text: &str) -> (data: Bytes)
    ensures
        contents(data) == encode_utf8(text@),
{
    bytes_from_vec(text.as_bytes_vec())
}

/// The text of which a payload is the UTF-8 encoding, if there is one.
pub open spec fn payload_text_view(bytes: Seq<u8>) -> Option<Seq<char>> {
    if valid_utf8(bytes) {
        Some(decode_utf8(bytes))
    } else {
        None
    }
}

/// Reads a payload as text.
pub fn payload_text(data: &Bytes) -> (text: Option<String>)
    ensures
        text is Some <==> payload_text_view(contents(*data)) is Some,
        text matches Some(string) ==> payload_text_view(contents(*data)) == Some(string@),
{
    text_from_utf8(bytes_to_vec(data))
}

} // verus!
