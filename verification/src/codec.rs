//! Trusted boundary to the image codec.
//!
//! Encoding a pixel buffer into a container format is delegated to the
//! `image` crate; its results are named by uninterpreted functions, and the
//! wrappers below carry the library's contracts across the boundary.

use vstd::prelude::*;
use crate::storage::ImageStorageError;

verus! {

/// Whether the codec recognizes a file extension ("png", "exr", ...) as
/// naming an image format.
pub uninterp spec fn known_image_format(ext: Seq<char>) -> bool;

/// The container-format encoding of an 8-bit RGBA pixel buffer of the given
/// size, in the format the extension names.
pub uninterp spec fn encoded_image(ext: Seq<char>, pixels: Seq<u8>, width: nat, height: nat) -> Seq<
    u8,
>;

/// The OpenEXR encoding of a 32-bit-float RGBA pixel buffer of the given
/// size, the floats given by the bytes of the readback buffer.
pub uninterp spec fn encoded_exr_image(pixels: Seq<u8>, width: nat, height: nat) -> Seq<u8>;

/// Whether encoding an 8-bit RGBA image with this extension and these
/// dimensions succeeds.  Writing goes to memory, so in this codec success
/// depends on the extension and the dimensions alone, never on the pixel
/// bytes.
pub uninterp spec fn rgba8_encoding_succeeds(ext: Seq<char>, width: nat, height: nat) -> bool;

/// Whether the OpenEXR encoding of a 32-bit-float RGBA image of these
/// dimensions succeeds.  Writing goes to memory, so success depends on the
/// dimensions alone, never on the pixel bytes.
pub uninterp spec fn exr_encoding_succeeds(width: nat, height: nat) -> bool;

/// Relies on `image::ImageFormat::from_extension`, `image::RgbaImage::from_raw`
/// and `image::ImageBuffer::write_to`: encodes an 8-bit RGBA pixel buffer, in
/// memory, into the container format named by the file extension.  The
/// format lookup fails exactly on extensions the codec does not know, and a
/// buffer of exactly four bytes per pixel is never rejected for its size.
#[verifier::external_body]
pub(crate) fn encode_rgba8(pixels: Vec<u8>, width: u32, height: u32, extension: &str) -> (r: Result<
    Vec<u8>,
    ImageStorageError,
>)
    requires
        pixels@.len() == 4 * width * height,
    ensures
        (r matches Ok(v) ==> v@ == encoded_image(extension@, pixels@, width as nat, height as nat)),
        (r is Ok <==> rgba8_encoding_succeeds(extension@, width as nat, height as nat)),
        (!known_image_format(extension@) ==> r == Err::<Vec<u8>, ImageStorageError>(
            ImageStorageError::SaveImageBuffer,
        )),
        (r matches Err(e) ==> e == ImageStorageError::SaveImageBuffer),
{
    let format = match image::ImageFormat::from_extension(extension) {
        Some(f) => f,
        None => return Err(ImageStorageError::SaveImageBuffer),
    };
    let buffer = match image::RgbaImage::from_raw(width, height, pixels) {
        Some(b) => b,
        None => return Err(ImageStorageError::BufferCreation),
    };
    let mut out = std::io::Cursor::new(Vec::new());
    match buffer.write_to(&mut out, format) {
        Ok(()) => Ok(out.into_inner()),
        Err(_) => Err(ImageStorageError::SaveImageBuffer),
    }
}

/// Relies on `image::Rgba32FImage::from_raw` and
/// `image::ImageBuffer::write_to`, with `bytemuck::pod_collect_to_vec`
/// reinterpreting the raw readback bytes as float channels: encodes a
/// 32-bit-float RGBA pixel buffer as an OpenEXR file, in memory.  A buffer
/// of exactly sixteen bytes per pixel is never rejected for its size.
#[verifier::external_body]
pub(crate) fn encode_rgba32f(pixels: &Vec<u8>, width: u32, height: u32) -> (r: Result<
    Vec<u8>,
    ImageStorageError,
>)
    requires
        pixels@.len() == 16 * width * height,
    ensures
        (r matches Ok(v) ==> v@ == encoded_exr_image(pixels@, width as nat, height as nat)),
        (r is Ok <==> exr_encoding_succeeds(width as nat, height as nat)),
        (r matches Err(e) ==> e == ImageStorageError::SaveImageBuffer),
{
    let buffer = match image::Rgba32FImage::from_raw(
        width,
        height,
        bytemuck::pod_collect_to_vec(pixels.as_slice()),
    ) {
        Some(b) => b,
        None => return Err(ImageStorageError::BufferCreation),
    };
    let mut out = std::io::Cursor::new(Vec::new());
    match buffer.write_to(&mut out, image::ImageFormat::OpenExr) {
        Ok(()) => Ok(out.into_inner()),
        Err(_) => Err(ImageStorageError::SaveImageBuffer),
    }
}

} // verus!
