//! The preview transport: losslessly encode the composed canvas as a PNG
//! data URI so the interactive surface can render it. This is a one-shot
//! encode for on-screen preview, never used for the final output file.

use vstd::prelude::*;
use vstd::string::StringExecFns;
use crate::errors::EncodeError;
use crate::image_data::Image;

verus! {

/// What PNG-encoding an RGBA buffer of the given dimensions returns: a
/// function of the pixel bytes and the dimensions alone.
pub uninterp spec fn png_encoding(data: Seq<u8>, width: int, height: int) -> Seq<u8>;

/// What the standard-alphabet, padded base64 encoding of a byte string is: a
/// function of the input bytes alone.
pub uninterp spec fn base64_encoding(bytes: Seq<u8>) -> Seq<char>;

/// Relies on `image::codecs::png::PngEncoder::write_image`: on success the
/// output is the PNG (lossless, alpha-preserving) encoding of the RGBA
/// buffer, determined by the pixel bytes and the dimensions. The encoder
/// rejects exactly the zero-width and zero-height images; for a matching
/// RGBA8 buffer written into memory no other failure exists (the buffer
/// length check is settled by `well_formed`, and the image data is split
/// into chunks below the format's chunk-size limit).
#[verifier::external_body]
fn encode_png(img: &Image) -> (r: Result<Vec<u8>, EncodeError>)
    requires
        img.well_formed(),
    ensures
        img.width > 0 && img.height > 0 ==> r is Ok,
        img.width == 0 || img.height == 0 ==> r is Err,
        r matches Ok(b) ==> b@ == png_encoding(img.data@, img.width as int, img.height as int),
{
    let mut buf: Vec<u8> = Vec::new();
    let encoder = image::codecs::png::PngEncoder::new(&mut buf);
    let outcome = image::ImageEncoder::write_image(
        encoder,
        img.data.as_slice(),
        img.width,
        img.height,
        image::ExtendedColorType::Rgba8,
    );
    match outcome {
        Ok(()) => Ok(buf),
        Err(_) => Err(EncodeError::PngFailure),
    }
}

/// Relies on `base64::Engine::encode` with the `STANDARD` engine (standard
/// alphabet, padded): the result is determined by the input bytes alone.
#[verifier::external_body]
fn base64_encode(bytes: &Vec<u8>) -> (r: String)
    ensures
        r@ == base64_encoding(bytes@),
{
    base64::Engine::encode(&base64::engine::general_purpose::STANDARD, bytes.as_slice())
}

/// Encode the image as a `data:image/png;base64,` URI for the interactive
/// surface's preview. Succeeds on every image with pixels; only a zero-width
/// or zero-height image, which the lossless codec rejects, fails.
pub fn image_to_base64_png(img: &Image) -> (r: Result<String, EncodeError>)
    requires
        img.well_formed(),
    ensures
        img.width > 0 && img.height > 0 ==> r is Ok,
        img.width == 0 || img.height == 0 ==> r is Err,
        r matches Ok(s) ==> s@ == "data:image/png;base64,"@ + base64_encoding(
            png_encoding(img.data@, img.width as int, img.height as int),
        ),
        r is Err ==> r == Err::<String, EncodeError>(EncodeError::PngFailure),
{
    let png = match encode_png(img) {
        Ok(b) => b,
        Err(e) => { return Err(e); },
    };
    let b64 = base64_encode(&png);
    let prefix = String::from_str("data:image/png;base64,");
    Ok(prefix.concat(b64.as_str()))
}

} // verus!
