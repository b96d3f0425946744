//! Frame-export pipeline for a real-time renderer: row-layout arithmetic for
//! GPU readback buffers, per-target frame numbering, row depadding and
//! cropping, image encoding, and completion tracking for background writes.

mod codec;
mod ecs;
mod export;
mod frames;
mod layout;
mod naming;
mod node;
mod pixels;
mod readback;
mod storage;
mod threads;

pub use codec::encoded_exr_image;
pub use codec::encoded_image;
pub use codec::exr_encoding_succeeds;
pub use codec::known_image_format;
pub use codec::rgba8_encoding_succeeds;

pub use storage::save_image;
pub use storage::save_image_file;
pub use storage::spec_prepared;
pub use storage::EncodedFrame;
pub use storage::ImageStorageError;
pub use storage::SaveImageDescriptor;

pub use ecs::export_image;
pub use ecs::extract_image_export_tasks;
pub use ecs::extracted_tasks;
pub use ecs::lemma_stamped_entry_starts_at_one;
pub use ecs::provisioned;
pub use ecs::stamped;
pub use ecs::ticked;
pub use ecs::ExportEntry;
pub use ecs::ExportRegistry;
pub use ecs::ImageExportCamera;
pub use ecs::ImageExportSystems;
pub use ecs::ImageExportTask;

pub use export::save_buffer_to_disk;
pub use export::GpuImageExportSource;
pub use export::ImageExport;
pub use export::ImageExportPlugin;
pub use export::ImageExportSettings;
pub use export::ImageExportSource;
pub use export::PixelFormat;

pub use node::ImageExportLabel;
pub use node::ImageExportNode;
pub use node::TexelCopyDescriptor;

pub use frames::file_frame_id;
pub use frames::lemma_nth_frame_id;
pub use frames::lemma_nth_frame_name;
pub use frames::lemma_sequences_start_at_one;
pub use frames::spec_file_frame_id;
pub use frames::ImageExportStartFrame;

pub use readback::readback_step;
pub use readback::ReadbackAction;
pub use readback::ReadbackEvent;
pub use readback::ReadbackState;

pub use threads::lemma_idle_after_all_writes_finish;
pub use threads::ExportThreads;

pub use naming::dec_digits;
pub use naming::digit_char;
pub use naming::frame_file_name;
pub use naming::spec_frame_path;
pub use naming::zero_padded5;

pub use pixels::bgra_swapped;
pub use pixels::bgra_to_rgba;
pub use pixels::crop_image_width;
pub use pixels::depad_rows;
pub use pixels::row_prefixes;
pub use pixels::UVec2;

pub use layout::align_up;
pub use layout::lemma_align_up;
pub use layout::lemma_padded_row_bound;
pub use layout::padded_bytes_per_row;
pub use layout::readback_buffer_size;
pub use layout::unpadded_bytes_per_row;
pub use layout::COPY_BYTES_PER_ROW_ALIGNMENT;
