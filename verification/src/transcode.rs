use vstd::prelude::*;

verus! {

/// The fixed quality at which captures are re-encoded.
pub const JPEG_QUALITY: u8 = 90;

/// Errors of the transcoder: decoding the bitmap input failed, or
/// re-encoding the decoded pixel grid failed.
#[derive(Clone, Copy, PartialEq, Eq, Structural, Debug)]
pub enum TranscodeError {
    /// The input was not a well-formed bitmap of the serializer's format.
    DecodeFailed,
    /// The decoded pixel grid cannot be encoded (its dimensions are zero
    /// or exceed the compressed format's 16-bit limit).
    EncodeFailed,
}

/// Error type of the image codec library.
#[verifier::external_type_specification]
#[verifier::external_body]
pub struct ExImageError(image::ImageError);

/// What decoding a byte string as a bitmap yields: `None` when the bytes
/// are not a well-formed bitmap, otherwise the image's width, height and
/// its pixels as one red-green-blue byte triple per pixel, row by row.
pub uninterp spec fn bmp_decoding(s: Seq<u8>) -> Option<(nat, nat, Seq<u8>)>;

/// The compressed image that encoding a pixel grid at a quality yields.
pub uninterp spec fn jpeg_encoding(pixels: Seq<u8>, width: nat, height: nat, quality: nat) -> Seq<
    u8,
>;

/// Relies on `image::load_from_memory_with_format` with the fixed bitmap
/// format tag (no format sniffing), and on `DynamicImage::width`, `height`
/// and `to_rgb8`: decoding is a function of the input bytes alone, and
/// `to_rgb8` hands back exactly one red-green-blue byte triple per pixel.
#[verifier::external_body]
fn decode_bmp(bytes: &[u8]) -> (r: Result<(u32, u32, Vec<u8>), image::ImageError>)
    ensures
        (r is Ok) == (bmp_decoding(bytes@) is Some),
        r matches Ok(t) ==> bmp_decoding(bytes@) == Some((t.0 as nat, t.1 as nat, t.2@)),
        r matches Ok(t) ==> t.2@.len() == 3 * (t.0 as int) * (t.1 as int),
{
    let img = image::load_from_memory_with_format(bytes, image::ImageFormat::Bmp)?;
    let width = img.width();
    let height = img.height();
    Ok((width, height, img.to_rgb8().into_raw()))
}

/// Relies on `image::codecs::jpeg::JpegEncoder::new_with_quality` writing
/// to an in-memory vector, whose writes cannot fail, and on
/// `JpegEncoder::encode` with the red-green-blue byte layout: the output
/// is a function of the pixels, dimensions and quality alone, and encoding
/// succeeds exactly when both dimensions are nonzero and fit the format's
/// 16-bit limit. `encode` panics unless the buffer holds exactly three
/// bytes per pixel, which `requires` rules out.
#[verifier::external_body]
fn encode_jpeg(pixels: &[u8], width: u32, height: u32, quality: u8) -> (r: Result<
    Vec<u8>,
    image::ImageError,
>)
    requires
        pixels@.len() == 3 * (width as int) * (height as int),
    ensures
        (r is Ok) == (1 <= width <= 0xffff && 1 <= height <= 0xffff),
        r matches Ok(v) ==> v@ == jpeg_encoding(
            pixels@,
            width as nat,
            height as nat,
            quality as nat,
        ),
{
    let mut out: Vec<u8> = Vec::new();
    let mut encoder = image::codecs::jpeg::JpegEncoder::new_with_quality(&mut out, quality);
    encoder.encode(pixels, width, height, image::ExtendedColorType::Rgb8)?;
    Ok(out)
}

/// The exact outcome of one transcoding pass over a byte string: decode
/// failure, encode failure on out-of-range dimensions, or the compressed
/// bytes.
pub open spec fn transcode_result(s: Seq<u8>, quality: u8) -> Result<Seq<u8>, TranscodeError> {
    match bmp_decoding(s) {
        Option::None => Err(TranscodeError::DecodeFailed),
        Option::Some(t) => if 1 <= t.0 && t.0 <= 0xffff && 1 <= t.1 && t.1 <= 0xffff {
            Ok(jpeg_encoding(t.2, t.0, t.1, quality as nat))
        } else {
            Err(TranscodeError::EncodeFailed)
        },
    }
}

/// Decode the input strictly as the bitmap format the serializer produces
/// and re-encode the pixel grid as a compressed image at the given
/// quality, in one synchronous pass with no retry. The input is never
/// mutated; the output is a new independently owned buffer.
pub fn transcode(bitmap: &[u8], quality: u8) -> (r: Result<Vec<u8>, TranscodeError>)
    ensures
        r matches Ok(v) ==> transcode_result(bitmap@, quality) == Ok::<
            Seq<u8>,
            TranscodeError,
        >(v@),
        r matches Err(e) ==> transcode_result(bitmap@, quality) == Err::<
            Seq<u8>,
            TranscodeError,
        >(e),
{
    match decode_bmp(bitmap) {
        Err(_) => Err(TranscodeError::DecodeFailed),
        Ok((width, height, pixels)) => match encode_jpeg(
            pixels.as_slice(),
            width,
            height,
            quality,
        ) {
            Ok(out) => Ok(out),
            Err(_) => Err(TranscodeError::EncodeFailed),
        },
    }
}

} // verus!
