//! The text encoding of diagram GET URLs: zlib deflate, then base64 in the
//! URL-safe alphabet without padding.
use crate::conversion::starts_with;
use crate::text::join2;
use vstd::prelude::*;
use vstd::string::*;
use vstd::utf8::*;

verus! {

/// What flate2's `ZlibEncoder` at the default level makes of `data`; `None`
/// where it reports an error.
pub uninterp spec fn zlib_compressed(data: Seq<u8>) -> Option<Seq<u8>>;

/// What flate2's `ZlibDecoder` reads out of `data`; `None` where it reports
/// an error.
pub uninterp spec fn zlib_inflated(data: Seq<u8>) -> Option<Seq<u8>>;

/// The base64 text of `data` in the URL-safe alphabet, without padding.
pub uninterp spec fn base64_url_nopad(data: Seq<u8>) -> Seq<char>;

/// What the URL-safe, unpadded base64 engine decodes `text` to; `None`
/// where it refuses `text`.
pub uninterp spec fn base64_url_nopad_decoded(text: Seq<char>) -> Option<Seq<u8>>;

/// What the URL-safe, padded base64 engine decodes `text` to; `None` where
/// it refuses `text`.
pub uninterp spec fn base64_url_decoded(text: Seq<char>) -> Option<Seq<u8>>;

/// What the standard base64 engine decodes `text` to; `None` where it
/// refuses `text`.
pub uninterp spec fn base64_standard_decoded(text: Seq<char>) -> Option<Seq<u8>>;

/// The encoded form of a text: its UTF-8 bytes compressed, then in base64;
/// `None` where compression fails.
pub open spec fn encoded_form(text: Seq<char>) -> Option<Seq<char>> {
    match zlib_compressed(encode_utf8(text)) {
        Some(c) => Some(base64_url_nopad(c)),
        None => None,
    }
}

/// The compressed bytes an encoded text stands for: the first of the three
/// base64 engines (URL-safe unpadded, URL-safe padded, standard) that takes
/// it.
pub open spec fn base64_any_decoded(text: Seq<char>) -> Option<Seq<u8>> {
    if base64_url_nopad_decoded(text) is Some {
        base64_url_nopad_decoded(text)
    } else if base64_url_decoded(text) is Some {
        base64_url_decoded(text)
    } else {
        base64_standard_decoded(text)
    }
}

/// The text that compressed bytes decompress to, where they decompress to
/// UTF-8.
pub open spec fn inflated_text(data: Seq<u8>) -> Option<Seq<char>> {
    match zlib_inflated(data) {
        Some(b) => if valid_utf8(b) {
            Some(decode_utf8(b))
        } else {
            None
        },
        None => None,
    }
}

/// Whether `r` gives back the UTF-8 text that was compressed to `data`,
/// whatever text that was.
pub open spec fn inflates_back(data: Seq<u8>, r: Result<String, String>) -> bool {
    forall|plain: Seq<u8>|
        #![trigger zlib_compressed(plain)]
        zlib_compressed(plain) == Some(data) && valid_utf8(plain) ==> (r matches Ok(s) && s@
            == decode_utf8(plain))
}

/// Whether `r` gives back the bytes whose unpadded URL-safe base64 text is
/// `text`, whatever bytes they were.
pub open spec fn decodes_back(text: Seq<char>, r: Result<Vec<u8>, String>) -> bool {
    forall|data: Seq<u8>|
        #![trigger base64_url_nopad(data)]
        base64_url_nopad(data) == text ==> (r matches Ok(b) && b@ == data)
}

/// Writes `data` into flate2's `ZlibEncoder` at the default level and
/// finishes it; the bytes are named by `zlib_compressed`. Nothing is stated
/// of the error's text.
#[verifier::external_body]
fn zlib_compress(data: &[u8]) -> (r: Result<Vec<u8>, String>)
    ensures
        r is Ok <==> zlib_compressed(data@) is Some,
        r matches Ok(c) ==> zlib_compressed(data@) == Some(c@),
{
    let mut encoder = flate2::write::ZlibEncoder::new(Vec::new(), flate2::Compression::default());
    std::io::Write::write_all(&mut encoder, data).map_err(|err| err.to_string())?;
    encoder.finish().map_err(|err| err.to_string())
}

/// Reads flate2's `ZlibDecoder` over `data` into a `String`: `Ok` exactly
/// where the decompressed bytes (named `zlib_inflated`) are UTF-8, and the
/// decoder gives back what the encoder was given. Nothing is stated of the
/// error's text.
#[verifier::external_body]
fn zlib_inflate_text(data: &[u8]) -> (r: Result<String, String>)
    ensures
        r is Ok <==> (zlib_inflated(data@) matches Some(b) && valid_utf8(b)),
        r matches Ok(s) ==> (zlib_inflated(data@) matches Some(b) && s@ == decode_utf8(b)),
        inflates_back(data@, r),
{
    let mut decoder = flate2::read::ZlibDecoder::new(data);
    let mut output = String::new();
    std::io::Read::read_to_string(&mut decoder, &mut output).map_err(|err| err.to_string())?;
    Ok(output)
}

/// Calls `encode` of base64's `URL_SAFE_NO_PAD` engine; the text is named by
/// `base64_url_nopad`.
#[verifier::external_body]
fn base64_encode_url_nopad(data: &[u8]) -> (r: String)
    ensures
        r@ == base64_url_nopad(data@),
{
    base64::Engine::encode(&base64::engine::general_purpose::URL_SAFE_NO_PAD, data)
}

/// Calls `decode` of base64's `URL_SAFE_NO_PAD` engine, named by
/// `base64_url_nopad_decoded`; it takes back what its `encode` gave. Nothing
/// is stated of the error's text.
#[verifier::external_body]
fn base64_decode_url_nopad(text: &str) -> (r: Result<Vec<u8>, String>)
    ensures
        r is Ok <==> base64_url_nopad_decoded(text@) is Some,
        r matches Ok(b) ==> base64_url_nopad_decoded(text@) == Some(b@),
        decodes_back(text@, r),
{
    base64::Engine::decode(&base64::engine::general_purpose::URL_SAFE_NO_PAD, text).map_err(|err| err.to_string())
}

/// Calls `decode` of base64's `URL_SAFE` engine, named by
/// `base64_url_decoded`. Nothing is stated of the error's text.
#[verifier::external_body]
fn base64_decode_url(text: &str) -> (r: Result<Vec<u8>, String>)
    ensures
        r is Ok <==> base64_url_decoded(text@) is Some,
        r matches Ok(b) ==> base64_url_decoded(text@) == Some(b@),
{
    base64::Engine::decode(&base64::engine::general_purpose::URL_SAFE, text).map_err(|err| err.to_string())
}

/// Calls `decode` of base64's `STANDARD` engine, named by
/// `base64_standard_decoded`. Nothing is stated of the error's text.
#[verifier::external_body]
fn base64_decode_standard(text: &str) -> (r: Result<Vec<u8>, String>)
    ensures
        r is Ok <==> base64_standard_decoded(text@) is Some,
        r matches Ok(b) ==> base64_standard_decoded(text@) == Some(b@),
{
    base64::Engine::decode(&base64::engine::general_purpose::STANDARD, text).map_err(|err| err.to_string())
}

/// Encodes a diagram source for a GET URL: zlib deflate of its UTF-8 bytes,
/// then URL-safe base64 without padding.
pub fn encode_text(text: &str) -> (r: Result<String, String>)
    ensures
        r is Ok <==> encoded_form(text@) is Some,
        r matches Ok(e) ==> encoded_form(text@) == Some(e@),
{
    let bytes = text.as_bytes();
    let compressed = zlib_compress(bytes)?;
    Ok(base64_encode_url_nopad(compressed.as_slice()))
}

/// Decodes a GET URL encoding back to the diagram source. The base64 text is
/// tried with the URL-safe unpadded, the URL-safe padded and the standard
/// engine in turn. Whatever `encode_text` gives, this gives back the text
/// it was given.
pub fn decode_text(encoded: &str) -> (r: Result<String, String>)
    ensures
        base64_any_decoded(encoded@) is None ==> (r matches Err(m) && starts_with(
            m@,
            "invalid base64: "@,
        )),
        base64_any_decoded(encoded@) matches Some(c) ==> (r is Ok <==> inflated_text(c) is Some),
        r matches Ok(s) ==> (base64_any_decoded(encoded@) matches Some(c) && inflated_text(c)
            == Some(s@)),
        forall|text: Seq<char>|
            #![trigger encoded_form(text)]
            encoded_form(text) == Some(encoded@) ==> (r matches Ok(s) && s@ == text),
{
    let compressed = match base64_decode_url_nopad(encoded) {
        Ok(c) => c,
        Err(_) => match base64_decode_url(encoded) {
            Ok(c) => c,
            Err(_) => match base64_decode_standard(encoded) {
                Ok(c) => c,
                Err(detail) => {
                    let m = join2("invalid base64: ", detail.as_str());
                    assert(m@.subrange(0, "invalid base64: "@.len() as int) =~= "invalid base64: "@);
                    return Err(m);
                },
            },
        },
    };
    let r = zlib_inflate_text(compressed.as_slice());
    proof {
        assert forall|text: Seq<char>|
            #![trigger encoded_form(text)]
            encoded_form(text) == Some(encoded@) implies (r matches Ok(s) && s@ == text) by {
            let plain = encode_utf8(text);
            let c = zlib_compressed(plain)->0;
            assert(base64_url_nopad(c) == encoded@);
            assert(compressed@ == c);
            encode_utf8_valid_utf8(text);
            encode_utf8_decode_utf8(text);
        }
    }
    r
}

} // verus!
