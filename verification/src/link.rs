//! The trusted boundary to outside code: the HDLC byte-stuffing transport
//! codec and UTF-8 string conversion.  Everything else in the crate is
//! verified against the contracts stated here.

use vstd::prelude::*;

verus! {

/// The byte-stuffed wire encoding that `hdlc::encode` produces for a byte
/// sequence under the default special characters.
pub uninterp spec fn stuffed_of(s: Seq<u8>) -> Seq<u8>;

/// The unstuffed byte sequence that `hdlc::decode` recovers from a wire
/// frame under the default special characters.
pub uninterp spec fn destuffed_of(s: Seq<u8>) -> Seq<u8>;

/// Relies on `hdlc::encode` with `hdlc::SpecialChars::default()`: the four
/// default special characters are distinct, so encoding cannot fail, and
/// the stuffed result is a function of the input bytes alone.
#[verifier::external_body]
pub(crate) fn hdlc_stuff(data: &[u8]) -> (r: Vec<u8>)
    ensures
        r@ == stuffed_of(data@),
{
    hdlc::encode(data, hdlc::SpecialChars::default()).unwrap()
}

/// Relies on `hdlc::decode` with `hdlc::SpecialChars::default()`: it either
/// rejects a malformed wire frame or recovers the unstuffed bytes, a
/// function of the input bytes alone.
#[verifier::external_body]
pub(crate) fn hdlc_destuff(raw: &[u8]) -> (r: Option<Vec<u8>>)
    ensures
        r is Some ==> r->Some_0@ == destuffed_of(raw@),
{
    hdlc::decode(raw, hdlc::SpecialChars::default()).ok()
}

/// Relies on `String::from_utf8`: it accepts exactly the valid UTF-8 byte
/// sequences and returns their character decoding.
#[verifier::external_body]
pub(crate) fn utf8_to_string(bytes: &Vec<u8>) -> (r: Option<String>)
    ensures
        r is Some <==> vstd::utf8::valid_utf8(bytes@),
        r is Some ==> r->Some_0@ == vstd::utf8::decode_utf8(bytes@),
{
    String::from_utf8(bytes.clone()).ok()
}

} // verus!
