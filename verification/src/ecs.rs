//! The export-target registry and its per-tick bookkeeping.
//!
//! Cameras flagged for export are held in a registry of entries under stable
//! ids; render textures are referenced by id rather than owned.  Once per
//! tick, entries that report a resolution but still lack a readback task get
//! one allocated, new entries capture the current tick as their start frame,
//! and every live task's frame counter advances.

use vstd::prelude::*;
use crate::frames::spec_file_frame_id;
use crate::pixels::{bgra_swapped, bgra_to_rgba, UVec2};
use crate::storage::SaveImageDescriptor;
use crate::threads::ExportThreads;

verus! {

/// Settings of a camera whose view is exported to an image sequence.
#[derive(Clone, Copy, Debug)]
pub struct ImageExportCamera {
    /// The directory that image files will be saved to.
    pub output_dir: &'static str,
    /// The image file extension, e.g. "png" or "exr".
    pub extension: &'static str,
}

impl Default for ImageExportCamera {
    /// The stock settings: files `out/*.png`.
    fn default() -> (r: ImageExportCamera)
        ensures
            r.output_dir@ == "out"@,
            r.extension@ == "png"@,
    {
        ImageExportCamera { output_dir: "out", extension: "png" }
    }
}

/// The readback bookkeeping attached to one export camera: which texture it
/// renders to, how large the readback buffer is, and its frame counter.
#[derive(Clone, Copy, Debug)]
pub struct ImageExportTask {
    /// Id of the render texture the camera was redirected to.
    pub render_target: u64,
    /// Length in bytes of the readback buffer, one 4-byte texel per pixel.
    pub buffer_size: u64,
    /// The texture's size in pixels.
    pub size: UVec2,
    /// Counter of the frames captured so far; starts at 1.
    pub frame_id: u32,
}

impl ImageExportTask {
    /// The task that `new` builds: a fresh counter at 1 and a buffer of four
    /// bytes per pixel.
    pub open spec fn spec_new(render_target: u64, size: UVec2) -> ImageExportTask {
        ImageExportTask {
            render_target,
            buffer_size: (4 * size.x * size.y) as u64,
            size,
            frame_id: 1,
        }
    }

    /// Sizes the readback buffer for a texture of `size` 4-byte texels and
    /// starts the frame counter at 1.
    pub fn new(render_target: u64, size: UVec2) -> (r: ImageExportTask)
        requires
            4 * size.x * size.y <= u64::MAX,
        ensures
            r == ImageExportTask::spec_new(render_target, size),
    {
        proof {
            assert(4 * (size.x as int) * (size.y as int) == (4 * (size.x as u64)) as int * (
            size.y as int)) by (nonlinear_arith);
        }
        ImageExportTask {
            render_target,
            buffer_size: (4 * (size.x as u64)) * (size.y as u64),
            size,
            frame_id: 1,
        }
    }
}

/// One camera in the registry: its stable id, the resolution it reports (if
/// it is ready), its readback task (once allocated), and the tick at which
/// its export began.
#[derive(Clone, Copy, Debug)]
pub struct ExportEntry {
    /// Stable id of the camera entity; its render texture is referenced by
    /// this id as well.
    pub id: u64,
    /// The camera's physical target size, not yet known while the camera is
    /// still initializing.
    pub resolution: Option<UVec2>,
    /// The readback task, once the resolution is known.
    pub task: Option<ImageExportTask>,
    /// The global tick at which this entry was first seen by the exporter.
    pub start_frame: Option<u64>,
}

/// `e` after registration ran at tick `tick`: an entry without a start frame
/// captures the tick, every other entry is untouched.
pub open spec fn stamped(e: ExportEntry, tick: u64) -> ExportEntry {
    if e.start_frame is None {
        ExportEntry { id: e.id, resolution: e.resolution, task: e.task, start_frame: Some(tick) }
    } else {
        e
    }
}

/// `e` after task allocation ran: an entry that reports a resolution but has
/// no task gets one sized for that resolution, every other entry is
/// untouched.
pub open spec fn provisioned(e: ExportEntry) -> ExportEntry {
    if e.task is None && e.resolution is Some {
        ExportEntry {
            id: e.id,
            resolution: e.resolution,
            task: Some(ImageExportTask::spec_new(e.id, e.resolution->0)),
            start_frame: e.start_frame,
        }
    } else {
        e
    }
}

/// `e` after the per-tick frame advance: a live task's counter wraps forward
/// by one, an entry without a task is untouched.
pub open spec fn ticked(e: ExportEntry) -> ExportEntry {
    if e.task is Some {
        ExportEntry {
            id: e.id,
            resolution: e.resolution,
            task: Some(
                ImageExportTask {
                    render_target: e.task->0.render_target,
                    buffer_size: e.task->0.buffer_size,
                    size: e.task->0.size,
                    frame_id: vstd::wrapping::u32_specs::wrapping_add(e.task->0.frame_id, 1),
                },
            ),
            start_frame: e.start_frame,
        }
    } else {
        e
    }
}

/// All export cameras, and the global tick that numbers their frames.
pub struct ExportRegistry {
    /// The global tick; advances once per application tick.
    pub frame_id: u64,
    /// One entry per camera flagged for export.
    pub entries: Vec<ExportEntry>,
}

impl ExportRegistry {
    /// An empty registry at tick zero.
    pub fn new() -> (r: ExportRegistry)
        ensures
            r.frame_id == 0,
            r.entries@.len() == 0,
    {
        ExportRegistry { frame_id: 0, entries: Vec::new() }
    }

    /// Adds a camera under a stable id; its resolution may not be known yet.
    pub fn add_camera(&mut self, id: u64, resolution: Option<UVec2>)
        ensures
            final(self).frame_id == old(self).frame_id,
            final(self).entries@ == old(self).entries@.push(
                ExportEntry { id, resolution, task: None, start_frame: None },
            ),
    {
        self.entries.push(ExportEntry { id, resolution, task: None, start_frame: None });
    }

    /// Advances the global tick and stamps it as the start frame of every
    /// entry that does not have one yet, so that a camera's first exported
    /// frame is numbered relative to the tick it joined at.
    pub fn setup_exporters(&mut self)
        ensures
            final(self).frame_id == vstd::wrapping::u64_specs::wrapping_add(
                old(self).frame_id,
                1,
            ),
            final(self).entries@.len() == old(self).entries@.len(),
            forall|i: int|
                0 <= i < old(self).entries@.len() ==> final(self).entries@[i] == stamped(
                    old(self).entries@[i],
                    final(self).frame_id,
                ),
    {
        self.frame_id = self.frame_id.wrapping_add(1);
        let n = self.entries.len();
        let mut i: usize = 0;
        while i < n
            invariant
                i <= n,
                n == self.entries@.len(),
                n == old(self).entries@.len(),
                self.frame_id == vstd::wrapping::u64_specs::wrapping_add(old(self).frame_id, 1),
                forall|k: int|
                    0 <= k < i ==> self.entries@[k] == stamped(
                        old(self).entries@[k],
                        self.frame_id,
                    ),
                forall|k: int| i <= k < n ==> self.entries@[k] == old(self).entries@[k],
            decreases n - i,
        {
            let e = self.entries[i];
            if e.start_frame.is_none() {
                self.entries.set(
                    i,
                    ExportEntry {
                        id: e.id,
                        resolution: e.resolution,
                        task: e.task,
                        start_frame: Some(self.frame_id),
                    },
                );
            }
            i = i + 1;
        }
    }

    /// Allocates a readback task for every entry whose resolution is known
    /// but which has none; an entry whose resolution cannot yet be
    /// determined is skipped and retried on a later tick.
    pub fn setup_export_data(&mut self)
        requires
            forall|i: int|
                0 <= i < old(self).entries@.len() ==> (#[trigger] old(
                    self,
                ).entries@[i].resolution matches Some(r) ==> 4 * r.x * r.y <= u64::MAX),
        ensures
            final(self).frame_id == old(self).frame_id,
            final(self).entries@.len() == old(self).entries@.len(),
            forall|i: int|
                0 <= i < old(self).entries@.len() ==> final(self).entries@[i] == provisioned(
                    old(self).entries@[i],
                ),
    {
        let n = self.entries.len();
        let mut i: usize = 0;
        while i < n
            invariant
                i <= n,
                n == self.entries@.len(),
                n == old(self).entries@.len(),
                self.frame_id == old(self).frame_id,
                forall|k: int|
                    0 <= k < n ==> (#[trigger] old(
                        self,
                    ).entries@[k].resolution matches Some(r) ==> 4 * r.x * r.y <= u64::MAX),
                forall|k: int| 0 <= k < i ==> self.entries@[k] == provisioned(old(self).entries@[k]),
                forall|k: int| i <= k < n ==> self.entries@[k] == old(self).entries@[k],
            decreases n - i,
        {
            let e = self.entries[i];
            if e.task.is_none() {
                match e.resolution {
                    Some(res) => {
                        let task = ImageExportTask::new(e.id, res);
                        self.entries.set(
                            i,
                            ExportEntry {
                                id: e.id,
                                resolution: e.resolution,
                                task: Some(task),
                                start_frame: e.start_frame,
                            },
                        );
                    },
                    None => {},
                }
            }
            i = i + 1;
        }
    }

    /// Advances every live task's frame counter by one, wrapping.
    pub fn update_frame_id(&mut self)
        ensures
            final(self).frame_id == old(self).frame_id,
            final(self).entries@.len() == old(self).entries@.len(),
            forall|i: int|
                0 <= i < old(self).entries@.len() ==> final(self).entries@[i] == ticked(
                    old(self).entries@[i],
                ),
    {
        let n = self.entries.len();
        let mut i: usize = 0;
        while i < n
            invariant
                i <= n,
                n == self.entries@.len(),
                n == old(self).entries@.len(),
                self.frame_id == old(self).frame_id,
                forall|k: int| 0 <= k < i ==> self.entries@[k] == ticked(old(self).entries@[k]),
                forall|k: int| i <= k < n ==> self.entries@[k] == old(self).entries@[k],
            decreases n - i,
        {
            let e = self.entries[i];
            match e.task {
                Some(task) => {
                    self.entries.set(
                        i,
                        ExportEntry {
                            id: e.id,
                            resolution: e.resolution,
                            task: Some(
                                ImageExportTask {
                                    render_target: task.render_target,
                                    buffer_size: task.buffer_size,
                                    size: task.size,
                                    frame_id: task.frame_id.wrapping_add(1),
                                },
                            ),
                            start_frame: e.start_frame,
                        },
                    );
                },
                None => {},
            }
            i = i + 1;
        }
    }
}

/// An entry stamped at tick `tick` files its first capture, made at that
/// same tick, under index 1: joining late never shifts a target's sequence.
pub proof fn lemma_stamped_entry_starts_at_one(e: ExportEntry, tick: u64)
    requires
        e.start_frame is None,
    ensures
        stamped(e, tick).start_frame == Some(tick),
        spec_file_frame_id(tick, stamped(e, tick).start_frame->0) == 1,
{
}

/// The two scheduling phases of the exporter's per-tick work: registration
/// of new targets, then the flush that makes it visible before the camera
/// update.
#[derive(Clone, Copy, PartialEq, Eq, Structural, Debug, Hash)]
pub enum ImageExportSystems {
    /// Registers new export targets and stamps their start frames.
    SetupImageExport,
    /// Applies the registrations before the camera update runs.
    SetupImageExportFlush,
}

/// The tasks of all entries that have one, in registry order: the snapshot
/// that the render world works from each frame.
pub open spec fn extracted_tasks(entries: Seq<ExportEntry>) -> Seq<ImageExportTask>
    decreases entries.len(),
{
    if entries.len() == 0 {
        Seq::empty()
    } else {
        let rest = extracted_tasks(entries.drop_last());
        if entries.last().task is Some {
            rest.push(entries.last().task->0)
        } else {
            rest
        }
    }
}

/// Collects the readback tasks of every entry that has one, in registry
/// order, for the render side of a frame.
pub fn extract_image_export_tasks(registry: &ExportRegistry) -> (r: Vec<ImageExportTask>)
    ensures
        r@ == extracted_tasks(registry.entries@),
{
    let n = registry.entries.len();
    let mut r: Vec<ImageExportTask> = Vec::new();
    let mut i: usize = 0;
    while i < n
        invariant
            i <= n,
            n == registry.entries@.len(),
            r@ == extracted_tasks(registry.entries@.take(i as int)),
        decreases n - i,
    {
        let e = registry.entries[i];
        proof {
            assert(registry.entries@.take(i + 1).drop_last() =~= registry.entries@.take(i as int));
            assert(registry.entries@.take(i + 1).last() == registry.entries@[i as int]);
        }
        match e.task {
            Some(task) => {
                r.push(task);
            },
            None => {},
        }
        i = i + 1;
    }
    proof {
        assert(registry.entries@.take(n as int) =~= registry.entries@);
    }
    r
}

/// One target's per-frame export step, once the readback bytes are in host
/// memory: counts the write as in flight, reorders the BGRA readback bytes
/// into RGBA, and bundles them with the frame number and output settings for
/// a background write task.
///
/// The caller hands the descriptor to the task and releases the counter with
/// `end_write` when the task finishes, on success and on failure alike.
pub fn export_image(
    task: &ImageExportTask,
    camera: &ImageExportCamera,
    data: Vec<u8>,
    threads: &mut ExportThreads,
) -> (r: SaveImageDescriptor<'static>)
    requires
        old(threads).wf(),
        old(threads).count < usize::MAX,
    ensures
        final(threads).wf(),
        final(threads).count == old(threads).count + 1,
        final(threads).spawned@ == old(threads).spawned@ + 1,
        final(threads).completed@ == old(threads).completed@,
        r.data@ == bgra_swapped(data@),
        r.resolution == task.size,
        r.frame_id == task.frame_id,
        r.output_dir@ == camera.output_dir@,
        r.extension@ == camera.extension@,
{
    threads.begin_write();
    let mut bytes = data;
    bgra_to_rgba(&mut bytes);
    SaveImageDescriptor {
        data: bytes,
        resolution: task.size,
        frame_id: task.frame_id,
        output_dir: camera.output_dir,
        extension: camera.extension,
    }
}

} // verus!
