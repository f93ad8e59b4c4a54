//! Raster image payloads: decoding an image byte stream to plain RGBA
//! pixels, encoding pixels back to PNG, and the pipelines that turn a data
//! URI into the bytes a paste or a save needs.
//!
//! Decoding and encoding are done by outside code behind trusted wrappers;
//! the pipelines around them are verified and say exactly which error each
//! malformed input produces.

use vstd::prelude::*;
use crate::codec;

verus! {

/// An RGBA raster image as plain values: row-major pixel bytes, four bytes
/// per pixel in red, green, blue, alpha order.
#[derive(Debug)]
pub struct RgbaBuffer {
    pub width: u32,
    pub height: u32,
    pub bytes: Vec<u8>,
}

impl RgbaBuffer {
    /// The pixel buffer holds exactly four bytes for every pixel.
    pub open spec fn wf(self) -> bool {
        self.bytes@.len() == 4 * (self.width as int) * (self.height as int)
    }
}

/// What decoding an image byte stream (any container format the decoder
/// recognises, PNG included) to RGBA yields: width, height and pixel bytes,
/// or `None` where the bytes are not a readable image.
pub uninterp spec fn image_decoding_of(bytes: Seq<u8>) -> Option<(int, int, Seq<u8>)>;

/// The PNG encoding of an RGBA image with the given dimensions and pixels.
pub uninterp spec fn png_encoding_of(width: int, height: int, pixels: Seq<u8>) -> Seq<u8>;

/// Relies on `image::ImageReader` (format guessed from the bytes, the
/// reader's default allocation policy disabled) and
/// `image::DynamicImage::to_rgba8`: both are functions of the input bytes
/// alone, and the buffer they produce holds four bytes per pixel for the
/// reported dimensions. The allocation policy is disabled so that success
/// depends on the bytes alone, with no size threshold: the encoder below
/// accepts images of any size, and what it produces must decode back.
/// With the decoders compiled into this build (PNG), a stream with a zero
/// dimension is rejected, so a decoded image's dimensions are positive.
#[verifier::external_body]
pub(crate) fn image_decode(bytes: &Vec<u8>) -> (r: Option<RgbaBuffer>)
    ensures
        r is Some <==> image_decoding_of(bytes@) is Some,
        r is Some ==> image_decoding_of(bytes@) == Some(
            (((r->0).width as int), ((r->0).height as int), (r->0).bytes@),
        ),
        r is Some ==> (r->0).wf(),
        r is Some ==> 1 <= (r->0).width && 1 <= (r->0).height,
{
    let mut reader = image::ImageReader::new(std::io::Cursor::new(bytes));
    reader.no_limits();
    let reader = match reader.with_guessed_format() {
        Ok(rd) => rd,
        Err(_) => return None,
    };
    let img = match reader.decode() {
        Ok(i) => i,
        Err(_) => return None,
    };
    let rgba = img.to_rgba8();
    let (width, height) = rgba.dimensions();
    Some(RgbaBuffer { width, height, bytes: rgba.into_raw() })
}

/// Relies on `image::RgbaImage::from_raw` and
/// `image::DynamicImage::write_to` with the PNG format: the encoding is a
/// function of the dimensions and pixel bytes alone, and PNG stores RGBA
/// pixels losslessly, so decoding the produced bytes yields the same image
/// back under the limit-free decoding named above, whatever the image's
/// size. On a buffer of exactly four bytes per pixel, writing to memory,
/// the encoder refuses only a zero width or height, so encoding succeeds
/// exactly when both dimensions are positive.
#[verifier::external_body]
pub(crate) fn png_encode(img: &RgbaBuffer) -> (r: Option<Vec<u8>>)
    requires
        img.wf(),
    ensures
        r is Some <==> (1 <= img.width && 1 <= img.height),
        r is Some ==> (r->0)@ == png_encoding_of(
            img.width as int,
            img.height as int,
            img.bytes@,
        ),
        r is Some ==> image_decoding_of((r->0)@) == Some(
            (img.width as int, img.height as int, img.bytes@),
        ),
{
    let rgba = match image::RgbaImage::from_raw(img.width, img.height, img.bytes.clone()) {
        Some(b) => b,
        None => return None,
    };
    let mut out: Vec<u8> = Vec::new();
    let dyn_img = image::DynamicImage::ImageRgba8(rgba);
    match dyn_img.write_to(&mut std::io::Cursor::new(&mut out), image::ImageFormat::Png) {
        Ok(_) => Some(out),
        Err(_) => None,
    }
}

/// Why an image command rejected its data URI input.
#[derive(Debug, PartialEq, Eq, Structural, Clone, Copy)]
pub enum UriImageError {
    /// The input has no comma, so it is not a data URI.
    NotADataUri,
    /// The payload after the comma is not valid base64.
    InvalidBase64,
    /// The decoded payload is not a readable image.
    UnreadableImage,
    /// The pixels could not be re-encoded as PNG. The decoder only
    /// produces images the encoder accepts, so the pipelines here prove
    /// this case unreachable; the variant guards the encode step all the
    /// same.
    EncodeFailed,
}

/// The image a data URI carries: the payload after the first comma, base64
/// decoded, then decoded as an image to RGBA; or the exact error for each
/// way the input can be malformed.
pub open spec fn spec_decode_image_data_uri(uri: Seq<u8>) -> Result<
    (int, int, Seq<u8>),
    UriImageError,
> {
    match codec::spec_split_data_uri(uri) {
        None => Err(UriImageError::NotADataUri),
        Some((meta, payload)) => match codec::b64_decoding_of(payload) {
            None => Err(UriImageError::InvalidBase64),
            Some(bytes) => match image_decoding_of(bytes) {
                None => Err(UriImageError::UnreadableImage),
                Some(img) => Ok(img),
            },
        },
    }
}

/// Decodes the image carried by a data URI into plain RGBA pixels: the step
/// a paste of an image performs before handing pixels to the clipboard.
pub fn decode_image_data_uri(uri: &[u8]) -> (r: Result<RgbaBuffer, UriImageError>)
    ensures
        r is Ok <==> spec_decode_image_data_uri(uri@) is Ok,
        r is Ok ==> spec_decode_image_data_uri(uri@) == Ok::<_, UriImageError>(
            (((r->Ok_0).width as int), ((r->Ok_0).height as int), (r->Ok_0).bytes@),
        ),
        r is Ok ==> (r->Ok_0).wf(),
        r is Ok ==> 1 <= (r->Ok_0).width && 1 <= (r->Ok_0).height,
        r is Err ==> spec_decode_image_data_uri(uri@) == Err::<(int, int, Seq<u8>), _>(
            r->Err_0,
        ),
{
    let parts = match codec::split_data_uri(uri) {
        Some(p) => p,
        None => return Err(UriImageError::NotADataUri),
    };
    let bytes = match codec::b64_decode(&parts.1) {
        Some(b) => b,
        None => return Err(UriImageError::InvalidBase64),
    };
    match image_decode(&bytes) {
        Some(img) => Ok(img),
        None => Err(UriImageError::UnreadableImage),
    }
}

/// Re-encodes the image carried by a data URI as self-contained PNG bytes:
/// what a save or a file-drop paste writes to disk. The decoding steps fail
/// exactly as in `spec_decode_image_data_uri`; whenever they succeed the
/// re-encoding succeeds too — the decoder only produces images with
/// positive dimensions, which the encoder accepts — and the bytes are the
/// PNG encoding of the decoded pixels, which decode back to them.
pub fn reencode_png_from_data_uri(uri: &[u8]) -> (r: Result<Vec<u8>, UriImageError>)
    ensures
        r is Ok <==> spec_decode_image_data_uri(uri@) is Ok,
        spec_decode_image_data_uri(uri@) is Err ==> r == Err::<Vec<u8>, _>(
            spec_decode_image_data_uri(uri@)->Err_0,
        ),
        r is Ok ==> (r->Ok_0)@ == png_encoding_of(
            spec_decode_image_data_uri(uri@)->Ok_0.0,
            spec_decode_image_data_uri(uri@)->Ok_0.1,
            spec_decode_image_data_uri(uri@)->Ok_0.2,
        ),
        r is Ok ==> image_decoding_of((r->Ok_0)@) == Some(
            spec_decode_image_data_uri(uri@)->Ok_0,
        ),
{
    let img = match decode_image_data_uri(uri) {
        Ok(i) => i,
        Err(e) => return Err(e),
    };
    match png_encode(&img) {
        Some(png) => Ok(png),
        None => Err(UriImageError::EncodeFailed),
    }
}

} // verus!
