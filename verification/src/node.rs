//! The render-graph step that copies each target's rendered texture into its
//! readback buffer.  The device call itself is the host's; the node decides
//! the copy's layout: destination offset zero, the padded row stride, and
//! the texture's full extent.

use vstd::prelude::*;
use crate::export::GpuImageExportSource;
use crate::pixels::UVec2;

verus! {

/// Label under which the export node hangs in the render graph, ordered
/// after the camera driver.
#[derive(Clone, Copy, PartialEq, Eq, Structural, Debug, Hash)]
pub struct ImageExportLabel;

/// The render-graph node that schedules one texture-to-buffer copy per
/// export target each frame.
#[derive(Clone, Copy, Debug)]
pub struct ImageExportNode;

/// The layout of one texture-to-buffer copy command.
#[derive(Clone, Copy, PartialEq, Eq, Structural, Debug)]
pub struct TexelCopyDescriptor {
    /// Id of the texture to copy from.
    pub source_id: u64,
    /// Byte offset in the destination buffer.
    pub offset: u64,
    /// Row stride in the destination buffer.
    pub bytes_per_row: u32,
    /// The extent to copy, the texture's full size.
    pub extent: UVec2,
}

impl ImageExportNode {
    /// The copy this node records for one target: the whole source texture,
    /// into the target's buffer at offset zero, with the padded row stride
    /// the buffer was allocated for.
    pub fn run(&self, source: &GpuImageExportSource) -> (r: TexelCopyDescriptor)
        ensures
            r.source_id == source.source_id,
            r.offset == 0,
            r.bytes_per_row == source.padded_bytes_per_row,
            r.extent == source.source_size,
    {
        TexelCopyDescriptor {
            source_id: source.source_id,
            offset: 0,
            bytes_per_row: source.padded_bytes_per_row,
            extent: source.source_size,
        }
    }
}

} // verus!
