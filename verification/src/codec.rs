//! Frame codec: turns one decoded RGB8 frame into a transport-ready
//! `data:image/jpeg;base64,` payload string at a caller-chosen quality.

use vstd::prelude::*;
use vstd::string::StringExecFns;
use std::io::Cursor;

verus! {

/// The JPEG stream that the `image` crate's baseline encoder produces for an
/// RGB8 buffer of the given dimensions at the given quality. The encoder is a
/// pure function of these arguments, so the stream only gets a name here.
pub uninterp spec fn jpeg_of(pixels: Seq<u8>, width: u32, height: u32, quality: u8) -> Seq<u8>;

/// The standard padded base64 rendering of a byte sequence, as the `base64`
/// crate's STANDARD engine produces it.
pub uninterp spec fn base64_of(bytes: Seq<u8>) -> Seq<char>;

/// The inverse direction: what the STANDARD engine decodes a well-formed
/// base64 text (given as bytes) into.
pub uninterp spec fn base64_decoded_of(text: Seq<u8>) -> Seq<u8>;

/// Inputs above this length are not handed to the base64 encoder; it stays
/// comfortably below the point where the encoder's output-size arithmetic
/// would abort on overflow.
pub const MAX_ENCODABLE_LEN: usize = 0x4000_0000;

/// The baseline JPEG encoder accepts only dimensions in this range.
pub open spec fn jpeg_dims_ok(width: u32, height: u32) -> bool {
    1 <= width <= 65535 && 1 <= height <= 65535
}

/// Relies on image::codecs::jpeg::JpegEncoder::{new_with_quality, encode}:
/// for an Rgb8 buffer of exactly 3*width*height bytes it writes the baseline
/// JPEG stream into the Vec (infallible writer) and fails exactly when a
/// dimension is 0 or above 65535; quality is clamped internally, so every
/// u8 is accepted.
#[verifier::external_body]
fn jpeg_encode_rgb(pixels: &Vec<u8>, width: u32, height: u32, quality: u8) -> (r: Result<
    Vec<u8>,
    String,
>)
    requires
        pixels@.len() == 3 * width * height,
    ensures
        r is Ok <==> jpeg_dims_ok(width, height),
        r matches Ok(jpeg) ==> jpeg@ == jpeg_of(pixels@, width, height, quality),
{
    let mut out = Cursor::new(Vec::new());
    let mut encoder = image::codecs::jpeg::JpegEncoder::new_with_quality(&mut out, quality);
    match encoder.encode(pixels, width, height, image::ExtendedColorType::Rgb8) {
        Ok(()) => Ok(out.into_inner()),
        Err(e) => Err(format!("Failed to encode JPEG: {}", e)),
    }
}

/// Relies on base64::Engine::encode with the STANDARD engine: standard
/// alphabet, padded output of length 4*ceil(n/3); it aborts only when that
/// length overflows, which the bound on the input rules out.
#[verifier::external_body]
fn base64_encode(bytes: &Vec<u8>) -> (r: String)
    requires
        bytes@.len() <= MAX_ENCODABLE_LEN,
    ensures
        r@ == base64_of(bytes@),
        r@.len() == 4 * ((bytes@.len() + 2) / 3),
{
    base64::Engine::encode(&base64::engine::general_purpose::STANDARD, bytes)
}

/// Relies on base64::Engine::decode with the STANDARD engine: returns the
/// decoded bytes of a well-formed padded base64 text and an error otherwise.
#[verifier::external_body]
pub(crate) fn base64_decode(text: &Vec<u8>) -> (r: Result<Vec<u8>, String>)
    ensures
        r matches Ok(b) ==> b@ == base64_decoded_of(text@),
{
    base64::Engine::decode(&base64::engine::general_purpose::STANDARD, text).map_err(
        |e| format!("Failed to decode base64: {}", e),
    )
}

/// The payload string a successful capture returns: a self-describing
/// data URL holding the base64 of the JPEG stream.
pub open spec fn data_url_spec(jpeg: Seq<u8>) -> Seq<char> {
    "data:image/jpeg;base64,"@ + base64_of(jpeg)
}

/// Encode one decoded RGB8 frame as a JPEG data URL at the given quality.
///
/// Fails exactly on dimensions the JPEG encoder refuses, or on a JPEG stream
/// too large to pass to the base64 encoder.
pub fn encode_frame(pixels: &Vec<u8>, width: u32, height: u32, quality: u8) -> (r: Result<
    String,
    String,
>)
    requires
        pixels@.len() == 3 * width * height,
    ensures
        r is Ok <==> (jpeg_dims_ok(width, height) && jpeg_of(pixels@, width, height, quality).len()
            <= MAX_ENCODABLE_LEN),
        r matches Ok(url) ==> url@ == data_url_spec(jpeg_of(pixels@, width, height, quality)),
{
    let jpeg = match jpeg_encode_rgb(pixels, width, height, quality) {
        Ok(jpeg) => jpeg,
        Err(e) => {
            return Err(e);
        },
    };
    if jpeg.len() > MAX_ENCODABLE_LEN {
        return Err("Failed to encode JPEG: stream too large".to_owned());
    }
    let b64 = base64_encode(&jpeg);
    Ok("data:image/jpeg;base64,".to_owned().concat(b64.as_str()))
}

/// Every successful capture payload is non-empty and begins with the
/// self-describing image-type marker, whatever the frame held.
pub proof fn lemma_data_url_tagged(jpeg: Seq<u8>)
    ensures
        data_url_spec(jpeg).len() >= "data:image/jpeg;base64,"@.len() > 0,
        data_url_spec(jpeg).subrange(0, "data:image/jpeg;base64,"@.len() as int)
            == "data:image/jpeg;base64,"@,
{
    reveal_strlit("data:image/jpeg;base64,");
    assert(data_url_spec(jpeg).subrange(0, "data:image/jpeg;base64,"@.len() as int)
        =~= "data:image/jpeg;base64,"@);
}

/// Decode a base64 text, given as bytes, into the bytes it stands for.
///
/// This is the verified entry to the STANDARD engine's decoder; file-saving
/// callers hand it the payload a front end uploaded.
pub fn decode_base64(text: &Vec<u8>) -> (r: Result<Vec<u8>, String>)
    ensures
        r matches Ok(b) ==> b@ == base64_decoded_of(text@),
{
    base64_decode(text)
}

} // verus!
