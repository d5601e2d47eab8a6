//! Data in base64, decoded with the `base64` crate.

use vstd::prelude::*;

use base64::engine::Engine;

verus! {

/// What `base64::engine::general_purpose::STANDARD` decodes `text` to, if it is valid
/// in that encoding.
pub uninterp spec fn base64_decoded(text: Seq<u8>) -> Option<Seq<u8>>;

/// A bound on the number of bytes that `n` symbols decode to: three for each group of
/// four symbols, begun groups included.
pub open spec fn decoded_len_bound(n: int) -> int {
    (n + 3) / 4 * 3
}

/// `base64::decoded_len_estimate`: three bytes for each group of four symbols, begun
/// groups included.
#[verifier::external_body]
fn decoded_len_estimate(n: usize) -> (r: usize)
    ensures
        r == decoded_len_bound(n as int),
{
    base64::decoded_len_estimate(n)
}

/// `Engine::decode_slice` of `base64::engine::general_purpose::STANDARD`: writes the
/// decoded bytes at the beginning of `output` and returns how many they are, or fails
/// where `text` is not valid. It also fails where `output` is shorter than the bound
/// on the decoded length.
#[verifier::external_body]
fn decode_slice(text: &[u8], output: &mut Vec<u8>) -> (r: Option<usize>)
    requires
        old(output)@.len() >= decoded_len_bound(text@.len() as int),
    ensures
        final(output)@.len() == old(output)@.len(),
        r is Some <==> base64_decoded(text@) is Some,
        r matches Some(n) ==> n <= final(output)@.len() && final(output)@.take(n as int)
            == base64_decoded(text@)->0,
{
    base64::engine::general_purpose::STANDARD.decode_slice(text, output.as_mut_slice()).ok()
}

/// Decodes `data_base64`, or `None` if it is not valid base64.
pub fn decode_base64(data_base64: &str) -> (r: Option<Vec<u8>>)
    ensures
        match base64_decoded(vstd::utf8::encode_utf8(data_base64@)) {
            Some(data) => r matches Some(bytes) && bytes@ == data,
            None => r is None,
        },
{
    let text = data_base64.as_bytes();
    let buf_size: usize = decoded_len_estimate(text.len());
    let mut buffer: Vec<u8> = vec![0u8; buf_size];
    match decode_slice(text, &mut buffer) {
        Some(length) => {
            buffer.truncate(length);
            Some(buffer)
        },
        None => None,
    }
}

/// A text is decoded exactly where its bytes are valid, and to all the bytes that they
/// decode to; two texts of the same bytes are decoded alike.
pub proof fn law_text_is_decoded_by_its_bytes(
    a: &str,
    b: &str,
    r: Option<Vec<u8>>,
    s: Option<Vec<u8>>,
)
    requires
        call_ensures(decode_base64, (a,), r),
        call_ensures(decode_base64, (b,), s),
    ensures
        r is Some <==> base64_decoded(vstd::utf8::encode_utf8(a@)) is Some,
        r matches Some(bytes) ==> bytes@ == base64_decoded(vstd::utf8::encode_utf8(a@))->0,
        vstd::utf8::encode_utf8(a@) == vstd::utf8::encode_utf8(b@) ==> {
            &&& r is Some <==> s is Some
            &&& r matches Some(bytes) ==> bytes@ == s->0@
        },
{
}

} // verus!
