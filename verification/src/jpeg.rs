//! JPEG encoding of decoded pixels, done by the `image` crate.

use image::codecs::jpeg::JpegEncoder;
use image::ColorType;
use image::ImageError;
use vstd::prelude::*;

verus! {

/// The error type of the `image` crate.
#[verifier::external_type_specification]
#[verifier::external_body]
pub struct ExImageError(ImageError);

/// The quality every image is encoded with: the best there is.
pub const JPEG_QUALITY: u8 = 100;

/// The longest side a JPEG image can have.
pub const MAX_JPEG_SIDE: usize = 65535;

/// An image as a RAW decoder hands it over: 8-bit RGB pixels, row by row.
#[derive(Clone, Debug, PartialEq, Eq)]
pub struct DecodedImage {
    pub width: usize,
    pub height: usize,
    pub data: Vec<u8>,
}

/// Why an image was not encoded.
#[derive(Clone, Copy, Debug, PartialEq, Eq, Structural)]
pub enum EncodeError {
    /// The buffer holds fewer than three bytes for each pixel.
    PixelsMissing,
    /// A side is longer than a JPEG image can be.
    TooLarge,
}

/// The JPEG file that the `image` crate's encoder writes for the RGB pixels
/// `pixels` of an image `width` wide and `height` high, at quality `quality`.
pub uninterp spec fn jpeg_encoding(pixels: Seq<u8>, width: u32, height: u32, quality: u8) -> Seq<u8>;

/// Whether `len` bytes hold an RGB image of the given size.
pub open spec fn holds_pixels(width: int, height: int, len: int) -> bool {
    3 * width * height <= len
}

/// Whether both sides fit a JPEG image.
pub open spec fn fits_jpeg(width: int, height: int) -> bool {
    width <= MAX_JPEG_SIDE && height <= MAX_JPEG_SIDE
}

/// Runs `image::codecs::jpeg::JpegEncoder::new_with_quality` over a fresh
/// vector and then `JpegEncoder::encode` with `ColorType::Rgb8`.
///
/// Trusted: on a buffer that holds the image (on a shorter one the encoder
/// panics), the encoder succeeds exactly when neither side exceeds 65535, a
/// vector being a writer that never fails, and the bytes it wrote are a
/// function of the pixels, the size and the quality.
#[verifier::external_body]
fn encode_rgb8(
    pixels: &Vec<u8>,
    width: u32,
    height: u32,
    quality: u8,
) -> (r: Result<Vec<u8>, ImageError>)
    requires
        holds_pixels(width as int, height as int, pixels@.len() as int),
    ensures
        r is Ok <==> fits_jpeg(width as int, height as int),
        r matches Ok(bytes) ==> bytes@ == jpeg_encoding(pixels@, width, height, quality),
{
    let mut bytes: Vec<u8> = Vec::new();
    let done = JpegEncoder::new_with_quality(&mut bytes, quality).encode(
        pixels,
        width,
        height,
        ColorType::Rgb8,
    );
    done.map(|_| bytes)
}

/// What `encode_jpeg` makes of an image of the given size and pixels.
pub open spec fn encoded(width: int, height: int, pixels: Seq<u8>) -> Result<Seq<u8>, EncodeError> {
    if width > u32::MAX || height > u32::MAX {
        Err(EncodeError::TooLarge)
    } else if !holds_pixels(width, height, pixels.len() as int) {
        Err(EncodeError::PixelsMissing)
    } else if !fits_jpeg(width, height) {
        Err(EncodeError::TooLarge)
    } else {
        Ok(jpeg_encoding(pixels, width as u32, height as u32, JPEG_QUALITY))
    }
}

/// Encodes a decoded image as a JPEG file of the best quality.
pub fn encode_jpeg(image: &DecodedImage) -> (r: Result<Vec<u8>, EncodeError>)
    ensures
        encoded(image.width as int, image.height as int, image.data@) == match r {
            Ok(bytes) => Ok::<Seq<u8>, EncodeError>(bytes@),
            Err(error) => Err(error),
        },
{
    if image.width > u32::MAX as usize || image.height > u32::MAX as usize {
        return Err(EncodeError::TooLarge);
    }
    let width: u32 = image.width as u32;
    let height: u32 = image.height as u32;
    assert(3 * width * height <= 3 * 0xFFFF_FFFF * 0xFFFF_FFFF) by (nonlinear_arith)
        requires
            width <= 0xFFFF_FFFF,
            height <= 0xFFFF_FFFF,
    ;
    assert(width * height <= 0xFFFF_FFFF * 0xFFFF_FFFF) by (nonlinear_arith)
        requires
            width <= 0xFFFF_FFFF,
            height <= 0xFFFF_FFFF,
    ;
    let needed: u128 = 3 * (width as u128 * height as u128);
    assert(needed == 3 * width * height) by (nonlinear_arith)
        requires
            needed == 3 * (width * height),
    ;
    if needed > image.data.len() as u128 {
        return Err(EncodeError::PixelsMissing);
    }
    match encode_rgb8(&image.data, width, height, JPEG_QUALITY) {
        Ok(bytes) => Ok(bytes),
        Err(_) => Err(EncodeError::TooLarge),
    }
}

} // verus!
