//! Raw header data enters the library here: lossy text decoding of header
//! values, and the bridge from `http::HeaderMap` to plain name/value pairs.

use vstd::prelude::*;

verus! {

/// The text that lossy UTF-8 decoding produces for a byte sequence: invalid
/// sequences are replaced with U+FFFD, so decoding never fails.
pub uninterp spec fn lossy_text(bytes: Seq<u8>) -> Seq<char>;

/// Relies on `String::from_utf8_lossy`: the result is a function of the bytes
/// alone; valid UTF-8 decodes exactly, and invalid sequences become U+FFFD.
#[verifier::external_body]
pub(crate) fn lossy_decode(bytes: &Vec<u8>) -> (r: String)
    ensures
        r@ == lossy_text(bytes@),
        vstd::utf8::valid_utf8(bytes@) ==> r@ == vstd::utf8::decode_utf8(bytes@),
        bytes@.len() == 0 ==> r@.len() == 0,
{
    String::from_utf8_lossy(bytes).into_owned()
}

#[verifier::external_type_specification]
#[verifier::external_body]
pub struct ExHeaderValue(http::HeaderValue);

#[verifier::external_type_specification]
#[verifier::external_body]
#[verifier::reject_recursive_types(T)]
pub struct ExHeaderMap<T>(http::HeaderMap<T>);

/// The name/value pairs a header map yields, in iteration order. The order
/// is arbitrary, but `http` documents it as consistent: a function of the
/// map's contents alone.
pub uninterp spec fn header_entries(m: http::HeaderMap) -> Seq<(Seq<char>, Seq<u8>)>;

/// Relies on `http::HeaderMap::iter`, which yields each name once per
/// associated value, together with `HeaderName::as_str` and
/// `HeaderValue::as_bytes`, which expose the name's text and the value's raw
/// bytes.
#[verifier::external_body]
pub(crate) fn collect_headers(m: &http::HeaderMap) -> (r: Vec<(String, Vec<u8>)>)
    ensures
        crate::context::header_views(r@) == header_entries(*m),
{
    let mut out: Vec<(String, Vec<u8>)> = Vec::new();
    for (name, value) in m.iter() {
        out.push((name.as_str().to_owned(), value.as_bytes().to_vec()));
    }
    out
}

} // verus!
