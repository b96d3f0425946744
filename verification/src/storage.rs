//! Preparing one captured frame for disk: depad the readback rows, pick the
//! pixel encoding from the file extension, encode the image in memory, and
//! name the file.  Writing the encoded bytes to the file system is the
//! caller's step.

use vstd::prelude::*;
use crate::codec::{encode_rgba32f, encode_rgba8, encoded_exr_image, encoded_image,
    exr_encoding_succeeds, known_image_format, rgba8_encoding_succeeds};
use crate::naming::{frame_file_name, spec_frame_path, str_eq};
use crate::pixels::{depad_rows, row_prefixes, UVec2};

verus! {

/// Why a frame could not be saved.
#[derive(Clone, Copy, PartialEq, Eq, Structural, Debug)]
pub enum ImageStorageError {
    /// The output directory could not be created.
    CreateDir,
    /// The codec failed to encode or save the image.
    SaveImageBuffer,
    /// The pixel buffer does not fit the image dimensions.
    BufferCreation,
}

impl ImageStorageError {
    /// A human-readable description of the failure.
    pub fn describe(&self) -> (r: String)
        ensures
            *self == ImageStorageError::CreateDir ==> r@ == "Failed to create directory"@,
            *self == ImageStorageError::SaveImageBuffer ==> r@ == "Failed to save image buffer"@,
            *self == ImageStorageError::BufferCreation ==> r@ == "Failed to create image buffer"@,
    {
        match self {
            ImageStorageError::CreateDir => String::from_str("Failed to create directory"),
            ImageStorageError::SaveImageBuffer => String::from_str("Failed to save image buffer"),
            ImageStorageError::BufferCreation => String::from_str("Failed to create image buffer"),
        }
    }
}

/// One frame, encoded and named, ready to be written to disk.
#[derive(Debug)]
pub struct EncodedFrame {
    /// The path the frame belongs at: `{output_dir}/{frame_id:05}.{extension}`.
    pub path: String,
    /// The encoded file contents.
    pub bytes: Vec<u8>,
}

/// The pixel rows as the encoder sees them: the readback buffer with its row
/// padding stripped, or the buffer itself when the strides already agree.
pub open spec fn spec_prepared(bytes: Seq<u8>, padded: nat, bpr: nat, rows: nat) -> Seq<u8> {
    if bpr == padded {
        bytes
    } else {
        row_prefixes(bytes, padded, bpr, rows)
    }
}

/// Whether a pixel buffer's length fits an image of the given size.
fn rgba_len_matches(n: usize, width: u32, height: u32, bytes_per_texel: u32) -> (r: bool)
    ensures
        r == (n == bytes_per_texel * width * height),
{
    proof {
        assert((bytes_per_texel as int) * (width as int) <= u64::MAX && (bytes_per_texel as int) * (
        width as int) * (height as int) <= u128::MAX) by (nonlinear_arith)
            requires
                bytes_per_texel <= u32::MAX,
                width <= u32::MAX,
                height <= u32::MAX,
        ;
    }
    (n as u128) == (bytes_per_texel as u128) * (width as u128) * (height as u128)
}

/// Turns one captured frame into its encoded file and file name.
///
/// The row padding is stripped if the strides differ; the extension then
/// selects the pixel encoding: "exr" reads the buffer as 32-bit-float RGBA,
/// anything else as 8-bit RGBA in the container format the extension names.
/// A buffer that does not fit the dimensions is rejected as
/// `BufferCreation`; whether a fitting buffer encodes depends on the
/// extension and the dimensions alone, and when it does not, the failure is
/// `SaveImageBuffer`.
#[allow(clippy::too_many_arguments)]
pub fn save_image(
    output_dir: &str,
    extension: &str,
    image_bytes: Vec<u8>,
    bytes_per_row: usize,
    padded_bytes_per_row: usize,
    width: u32,
    height: u32,
    frame_id: u64,
) -> (r: Result<EncodedFrame, ImageStorageError>)
    requires
        0 < bytes_per_row <= padded_bytes_per_row,
        image_bytes@.len() == (height as nat) * (padded_bytes_per_row as nat),
    ensures
        (r matches Ok(f) ==> f.path@ == spec_frame_path(output_dir@, frame_id as nat, extension@)),
        (r matches Err(e) ==> e == ImageStorageError::BufferCreation || e
            == ImageStorageError::SaveImageBuffer),
        extension@ == "exr"@ ==> {
            let d = spec_prepared(
                image_bytes@,
                padded_bytes_per_row as nat,
                bytes_per_row as nat,
                height as nat,
            );
            &&& d.len() != 16 * width * height <==> r == Err::<EncodedFrame, ImageStorageError>(
                ImageStorageError::BufferCreation,
            )
            &&& (r matches Ok(f) ==> f.bytes@ == encoded_exr_image(
                d,
                width as nat,
                height as nat,
            ))
            &&& d.len() == 16 * width * height ==> (r is Ok <==> exr_encoding_succeeds(
                width as nat,
                height as nat,
            ))
        },
        extension@ != "exr"@ ==> {
            let d = spec_prepared(
                image_bytes@,
                padded_bytes_per_row as nat,
                bytes_per_row as nat,
                height as nat,
            );
            &&& d.len() != 4 * width * height <==> r == Err::<EncodedFrame, ImageStorageError>(
                ImageStorageError::BufferCreation,
            )
            &&& (r matches Ok(f) ==> f.bytes@ == encoded_image(
                extension@,
                d,
                width as nat,
                height as nat,
            ))
            &&& d.len() == 4 * width * height && !known_image_format(extension@) ==> r
                == Err::<EncodedFrame, ImageStorageError>(ImageStorageError::SaveImageBuffer)
            &&& d.len() == 4 * width * height ==> (r is Ok <==> rgba8_encoding_succeeds(
                extension@,
                width as nat,
                height as nat,
            ))
        },
{
    let prepared: Vec<u8> = if bytes_per_row != padded_bytes_per_row {
        depad_rows(&image_bytes, padded_bytes_per_row, bytes_per_row, height as usize)
    } else {
        image_bytes
    };
    let path = frame_file_name(output_dir, frame_id, extension);
    let n = prepared.len();
    if str_eq(extension, "exr") {
        if rgba_len_matches(n, width, height, 16) {
            match encode_rgba32f(&prepared, width, height) {
                Ok(bytes) => Ok(EncodedFrame { path, bytes }),
                Err(e) => Err(e),
            }
        } else {
            Err(ImageStorageError::BufferCreation)
        }
    } else {
        if rgba_len_matches(n, width, height, 4) {
            match encode_rgba8(prepared, width, height, extension) {
                Ok(bytes) => Ok(EncodedFrame { path, bytes }),
                Err(e) => Err(e),
            }
        } else {
            Err(ImageStorageError::BufferCreation)
        }
    }
}

/// What one background write receives: the pixel bytes of a frame and where
/// the resulting file belongs.
pub struct SaveImageDescriptor<'a> {
    /// The frame's pixel data, 8-bit RGBA, already depadded.
    pub data: Vec<u8>,
    /// The frame's size in pixels.
    pub resolution: UVec2,
    /// The index of the frame in its target's sequence, starting at 1.
    pub frame_id: u32,
    /// The directory that image files are saved to.
    pub output_dir: &'a str,
    /// The image file extension.
    pub extension: &'a str,
}

/// Encodes one 8-bit RGBA frame and names its file, as a background write
/// task does: the container format follows the extension, a buffer that does
/// not fit the resolution is rejected, a fitting one encodes exactly when
/// the extension and resolution admit it, and a codec failure is reported
/// rather than crashing the task.
pub fn save_image_file(desc: SaveImageDescriptor<'_>) -> (r: Result<
    EncodedFrame,
    ImageStorageError,
>)
    ensures
        (r matches Ok(f) ==> f.path@ == spec_frame_path(
            desc.output_dir@,
            desc.frame_id as nat,
            desc.extension@,
        )),
        (r matches Err(e) ==> e == ImageStorageError::BufferCreation || e
            == ImageStorageError::SaveImageBuffer),
        desc.data@.len() != 4 * desc.resolution.x * desc.resolution.y <==> r == Err::<
            EncodedFrame,
            ImageStorageError,
        >(ImageStorageError::BufferCreation),
        desc.data@.len() == 4 * desc.resolution.x * desc.resolution.y ==> (r is Ok
            <==> rgba8_encoding_succeeds(
            desc.extension@,
            desc.resolution.x as nat,
            desc.resolution.y as nat,
        )),
        (r matches Ok(f) ==> f.bytes@ == encoded_image(
            desc.extension@,
            desc.data@,
            desc.resolution.x as nat,
            desc.resolution.y as nat,
        )),
        desc.data@.len() == 4 * desc.resolution.x * desc.resolution.y && !known_image_format(
            desc.extension@,
        ) ==> r == Err::<EncodedFrame, ImageStorageError>(ImageStorageError::SaveImageBuffer),
{
    let path = frame_file_name(desc.output_dir, desc.frame_id as u64, desc.extension);
    let n = desc.data.len();
    if rgba_len_matches(n, desc.resolution.x, desc.resolution.y, 4) {
        match encode_rgba8(desc.data, desc.resolution.x, desc.resolution.y, desc.extension) {
            Ok(bytes) => Ok(EncodedFrame { path, bytes }),
            Err(e) => Err(e),
        }
    } else {
        Err(ImageStorageError::BufferCreation)
    }
}

} // verus!
