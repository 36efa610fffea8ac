//! Values that can be converted as a whole: bytes and text to another encoding, bytes
//! of another encoding to text.

use crate::bulk::{convert_bytes, BulkConversion, BulkView};
use vstd::prelude::*;
use vstd::utf8::{decode_utf8, encode_utf8, valid_utf8};

verus! {

/// Can be encoded to bytes of another encoding.
pub trait IconvEncodable {
    /// The UTF-8 bytes that the value stands for.
    spec fn utf8_bytes(&self) -> Seq<u8>;

    /// Sets up the conversion of the value's bytes from UTF-8 to `encoding`.
    fn encode_with_encoding<'b>(&'b self, encoding: &str) -> (job: BulkConversion<'b>)
        ensures
            job.wf(),
            job@ == BulkView::fresh(self.utf8_bytes(), "UTF-8"@, encoding@),
    ;
}

impl<'a> IconvEncodable for &'a [u8] {
    open spec fn utf8_bytes(&self) -> Seq<u8> {
        self@
    }

    fn encode_with_encoding<'b>(&'b self, encoding: &str) -> (job: BulkConversion<'b>) {
        convert_bytes(*self, "UTF-8", encoding)
    }
}

impl IconvEncodable for Vec<u8> {
    open spec fn utf8_bytes(&self) -> Seq<u8> {
        self@
    }

    fn encode_with_encoding<'b>(&'b self, encoding: &str) -> (job: BulkConversion<'b>) {
        convert_bytes(self.as_slice(), "UTF-8", encoding)
    }
}

impl<'a> IconvEncodable for &'a str {
    open spec fn utf8_bytes(&self) -> Seq<u8> {
        encode_utf8(self@)
    }

    fn encode_with_encoding<'b>(&'b self, encoding: &str) -> (job: BulkConversion<'b>) {
        convert_bytes(self.as_bytes(), "UTF-8", encoding)
    }
}

impl IconvEncodable for String {
    open spec fn utf8_bytes(&self) -> Seq<u8> {
        encode_utf8(self@)
    }

    fn encode_with_encoding<'b>(&'b self, encoding: &str) -> (job: BulkConversion<'b>) {
        convert_bytes(self.as_str().as_bytes(), "UTF-8", encoding)
    }
}

/// Can be decoded to text from another encoding.
pub trait IconvDecodable {
    /// The bytes that the value holds.
    spec fn encoded_bytes(&self) -> Seq<u8>;

    /// Sets up the conversion of the value's bytes from `encoding` to UTF-8. The text
    /// is `decoded_text` of the conversion's output.
    fn decode_with_encoding<'b>(&'b self, encoding: &str) -> (job: BulkConversion<'b>)
        ensures
            job.wf(),
            job@ == BulkView::fresh(self.encoded_bytes(), encoding@, "UTF-8"@),
    ;
}

impl<'a> IconvDecodable for &'a [u8] {
    open spec fn encoded_bytes(&self) -> Seq<u8> {
        self@
    }

    fn decode_with_encoding<'b>(&'b self, encoding: &str) -> (job: BulkConversion<'b>) {
        convert_bytes(*self, encoding, "UTF-8")
    }
}

impl IconvDecodable for Vec<u8> {
    open spec fn encoded_bytes(&self) -> Seq<u8> {
        self@
    }

    fn decode_with_encoding<'b>(&'b self, encoding: &str) -> (job: BulkConversion<'b>) {
        convert_bytes(self.as_slice(), encoding, "UTF-8")
    }
}

/// `String::from_utf8`: the text that UTF-8 bytes spell.
/// Trusted: the call succeeds exactly on well-formed UTF-8, and the string then holds
/// the characters that the bytes encode.
#[verifier::external_body]
fn string_from_utf8(bytes: Vec<u8>) -> (text: Option<String>)
    ensures
        text is Some <==> valid_utf8(bytes@),
        text matches Some(s) ==> s@ == decode_utf8(bytes@),
{
    match String::from_utf8(bytes) {
        Ok(s) => Some(s),
        Err(_) => None,
    }
}

/// The text of a finished conversion to UTF-8: none where the conversion gave no
/// output, and none where its output is not well-formed UTF-8.
pub fn decoded_text(output: Option<Vec<u8>>) -> (text: Option<String>)
    ensures
        text is Some <==> (output matches Some(bytes) && valid_utf8(bytes@)),
        text matches Some(s) ==> (output matches Some(bytes) && s@ == decode_utf8(bytes@)),
{
    match output {
        Some(bytes) => string_from_utf8(bytes),
        None => None,
    }
}

} // verus!
