//! Export sources: the per-target readback buffer layout, and the per-frame
//! step that turns one target's readback bytes into an encoded, named frame
//! while keeping the write-pool counter balanced.

use vstd::prelude::*;
use crate::codec::{encoded_exr_image, encoded_image, exr_encoding_succeeds, known_image_format,
    rgba8_encoding_succeeds};
use crate::frames::{file_frame_id, spec_file_frame_id, ImageExportStartFrame};
use crate::layout::{align_up, padded_bytes_per_row, readback_buffer_size, unpadded_bytes_per_row,
    COPY_BYTES_PER_ROW_ALIGNMENT};
use crate::naming::spec_frame_path;
use crate::pixels::UVec2;
use crate::storage::{save_image, spec_prepared, EncodedFrame, ImageStorageError};
use crate::threads::ExportThreads;

verus! {

/// Handle of the image asset a camera renders into, referenced by stable id.
#[derive(Clone, Copy, PartialEq, Eq, Structural, Debug)]
pub struct ImageExportSource(pub u64);

impl From<u64> for ImageExportSource {
    /// Wraps the id of an image asset.
    fn from(value: u64) -> (r: ImageExportSource)
        ensures
            r == ImageExportSource(value),
    {
        ImageExportSource(value)
    }
}

impl vstd::std_specs::convert::FromSpecImpl<u64> for ImageExportSource {
    open spec fn obeys_from_spec() -> bool {
        true
    }

    open spec fn from_spec(value: u64) -> ImageExportSource {
        ImageExportSource(value)
    }
}

/// Marks an entity for export: the handle of its export source.
#[derive(Clone, Copy, PartialEq, Eq, Structural, Debug)]
pub struct ImageExport(pub u64);

/// Where and how a target's frames are written.
#[derive(Clone, Debug)]
pub struct ImageExportSettings {
    /// The directory that image files will be saved to.
    pub output_dir: String,
    /// The image file extension. E.g. "png", "jpeg", or "exr".
    pub extension: String,
}

impl Default for ImageExportSettings {
    /// The stock settings: files `out/*.png`.
    fn default() -> (r: ImageExportSettings)
        ensures
            r.output_dir@ == "out"@,
            r.extension@ == "png"@,
    {
        ImageExportSettings {
            output_dir: String::from_str("out"),
            extension: String::from_str("png"),
        }
    }
}

/// The texel layout of an exported texture.
#[derive(Clone, Copy, PartialEq, Eq, Structural, Debug)]
pub enum PixelFormat {
    /// Four 8-bit channels per texel.
    Rgba8,
    /// Four 32-bit-float channels per texel.
    Rgba32Float,
}

impl PixelFormat {
    /// Bytes one texel occupies.
    pub open spec fn spec_bytes_per_texel(self) -> nat {
        match self {
            PixelFormat::Rgba8 => 4,
            PixelFormat::Rgba32Float => 16,
        }
    }

    /// Bytes one texel occupies.
    pub fn bytes_per_texel(self) -> (r: u32)
        ensures
            r == self.spec_bytes_per_texel(),
    {
        match self {
            PixelFormat::Rgba8 => 4,
            PixelFormat::Rgba32Float => 16,
        }
    }
}

/// The GPU-side half of one export target: the source texture (by id), its
/// size, and the row layout of the readback buffer allocated for it.
#[derive(Clone, Copy, PartialEq, Eq, Structural, Debug)]
pub struct GpuImageExportSource {
    /// Length in bytes of the readback buffer.
    pub buffer_size: u64,
    /// Id of the source texture asset.
    pub source_id: u64,
    /// The texture's size in pixels.
    pub source_size: UVec2,
    /// Bytes of pixel data per row, before padding.
    pub bytes_per_row: u32,
    /// Row stride in the readback buffer, padded to the copy alignment.
    pub padded_bytes_per_row: u32,
}

impl GpuImageExportSource {
    /// The layout invariant: the padded stride is the unpadded stride
    /// rounded up to the copy alignment, and the buffer holds exactly one
    /// padded row per row of the texture.
    pub open spec fn wf(self) -> bool {
        &&& 0 < self.bytes_per_row
        &&& self.padded_bytes_per_row == align_up(
            self.bytes_per_row as nat,
            COPY_BYTES_PER_ROW_ALIGNMENT as nat,
        )
        &&& self.bytes_per_row <= self.padded_bytes_per_row
        &&& self.buffer_size == self.source_size.y * self.padded_bytes_per_row
    }

    /// Computes the readback layout for a texture: the unpadded and padded
    /// row strides and the buffer size the device must allocate.
    pub fn prepare_asset(source_id: u64, size: UVec2, format: PixelFormat) -> (r:
        GpuImageExportSource)
        requires
            0 < size.x,
            size.x * format.spec_bytes_per_texel() + COPY_BYTES_PER_ROW_ALIGNMENT - 1 <= u32::MAX,
        ensures
            r.wf(),
            r.source_id == source_id,
            r.source_size == size,
            r.bytes_per_row == size.x * format.spec_bytes_per_texel(),
            r.buffer_size == r.padded_bytes_per_row * size.y,
    {
        let bytes_per_row = unpadded_bytes_per_row(size.x, format.bytes_per_texel());
        proof {
            assert((size.x as int) * (format.spec_bytes_per_texel() as int) > 0)
                by (nonlinear_arith)
                requires
                    size.x > 0,
                    format.spec_bytes_per_texel() > 0,
            ;
        }
        let padded = padded_bytes_per_row(bytes_per_row);
        let buffer_size = readback_buffer_size(padded, size.y);
        proof {
            vstd::arithmetic::mul::lemma_mul_is_commutative(padded as int, size.y as int);
        }
        GpuImageExportSource {
            buffer_size,
            source_id,
            source_size: size,
            bytes_per_row,
            padded_bytes_per_row: padded,
        }
    }
}

/// The exporter subsystem as the host installs it: it owns the write-pool
/// tracker that the shutdown barrier polls.  The host's scheduler wiring —
/// running registration before the camera update and the copy node after the
/// camera driver — belongs to the application shell, which Verus does not
/// see.
pub struct ImageExportPlugin {
    /// The tracker of in-flight background writes.
    pub threads: ExportThreads,
}

impl Default for ImageExportPlugin {
    /// A fresh subsystem with no writes in flight.
    fn default() -> (r: ImageExportPlugin)
        ensures
            r.threads.wf(),
            r.threads.count == 0,
            r.threads.spawned@ == 0,
            r.threads.completed@ == 0,
    {
        ImageExportPlugin { threads: ExportThreads::new() }
    }
}

/// One target's per-frame save step: numbers the frame from the global tick
/// and the target's start frame, records the write as in flight, strips the
/// row padding and encodes the frame under its file name.
///
/// The caller persists the returned `EncodedFrame` on a background task and
/// releases the counter with `end_write` when that task finishes, whether
/// the write succeeded or not.
pub fn save_buffer_to_disk(
    gpu_source: &GpuImageExportSource,
    settings: &ImageExportSettings,
    start_frame: ImageExportStartFrame,
    global_tick: u64,
    image_bytes: Vec<u8>,
    threads: &mut ExportThreads,
) -> (r: Result<EncodedFrame, ImageStorageError>)
    requires
        gpu_source.wf(),
        1 <= start_frame.0 <= global_tick,
        image_bytes@.len() == gpu_source.source_size.y * gpu_source.padded_bytes_per_row,
        old(threads).wf(),
        old(threads).count < usize::MAX,
    ensures
        final(threads).wf(),
        final(threads).count == old(threads).count + 1,
        final(threads).spawned@ == old(threads).spawned@ + 1,
        final(threads).completed@ == old(threads).completed@,
        (r matches Ok(f) ==> f.path@ == spec_frame_path(
            settings.output_dir@,
            spec_file_frame_id(global_tick, start_frame.0) as nat,
            settings.extension@,
        )),
        (r matches Err(e) ==> e == ImageStorageError::BufferCreation || e
            == ImageStorageError::SaveImageBuffer),
        settings.extension@ == "exr"@ ==> {
            let d = spec_prepared(
                image_bytes@,
                gpu_source.padded_bytes_per_row as nat,
                gpu_source.bytes_per_row as nat,
                gpu_source.source_size.y as nat,
            );
            &&& d.len() != 16 * gpu_source.source_size.x * gpu_source.source_size.y ==> r
                == Err::<EncodedFrame, ImageStorageError>(ImageStorageError::BufferCreation)
            &&& (r matches Ok(f) ==> f.bytes@ == encoded_exr_image(
                d,
                gpu_source.source_size.x as nat,
                gpu_source.source_size.y as nat,
            ))
            &&& d.len() == 16 * gpu_source.source_size.x * gpu_source.source_size.y ==> (r is Ok
                <==> exr_encoding_succeeds(
                gpu_source.source_size.x as nat,
                gpu_source.source_size.y as nat,
            ))
        },
        settings.extension@ != "exr"@ ==> {
            let d = spec_prepared(
                image_bytes@,
                gpu_source.padded_bytes_per_row as nat,
                gpu_source.bytes_per_row as nat,
                gpu_source.source_size.y as nat,
            );
            &&& d.len() != 4 * gpu_source.source_size.x * gpu_source.source_size.y ==> r
                == Err::<EncodedFrame, ImageStorageError>(ImageStorageError::BufferCreation)
            &&& (r matches Ok(f) ==> f.bytes@ == encoded_image(
                settings.extension@,
                d,
                gpu_source.source_size.x as nat,
                gpu_source.source_size.y as nat,
            ))
            &&& d.len() == 4 * gpu_source.source_size.x * gpu_source.source_size.y
                && !known_image_format(settings.extension@) ==> r == Err::<
                EncodedFrame,
                ImageStorageError,
            >(ImageStorageError::SaveImageBuffer)
            &&& d.len() == 4 * gpu_source.source_size.x * gpu_source.source_size.y ==> (r is Ok
                <==> rgba8_encoding_succeeds(
                settings.extension@,
                gpu_source.source_size.x as nat,
                gpu_source.source_size.y as nat,
            ))
        },
{
    let frame_id = file_frame_id(global_tick, start_frame);
    threads.begin_write();
    save_image(
        settings.output_dir.as_str(),
        settings.extension.as_str(),
        image_bytes,
        gpu_source.bytes_per_row as usize,
        gpu_source.padded_bytes_per_row as usize,
        gpu_source.source_size.x,
        gpu_source.source_size.y,
        frame_id,
    )
}

} // verus!
