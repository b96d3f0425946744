use image_export::{
    export_image, extract_image_export_tasks, file_frame_id, readback_step, save_buffer_to_disk,
    save_image_file, ExportRegistry, ExportThreads, GpuImageExportSource, ImageExport,
    ImageExportCamera, ImageExportNode, ImageExportPlugin, ImageExportSettings, ImageExportSource,
    ImageExportStartFrame, ImageExportSystems, ImageExportTask, PixelFormat, ReadbackAction,
    ReadbackEvent, ReadbackState, UVec2,
};

#[test]
fn wait_after_all_writes_finish_is_immediate() {
    // Wait-until-idle polls the counter; after every spawned write has
    // finished, the counter is zero and the first poll already succeeds.
    let mut threads = ExportThreads::new();
    assert!(threads.is_idle());
    threads.begin_write();
    threads.begin_write();
    threads.begin_write();
    assert!(!threads.is_idle());
    threads.end_write();
    threads.end_write();
    assert!(!threads.is_idle());
    threads.end_write();
    assert!(threads.is_idle());
    assert!(threads.is_idle());
}

#[test]
fn readback_cycle_visits_map_copy_unmap() {
    let (s, a) = readback_step(ReadbackState::Idle, ReadbackEvent::FrameSubmitted);
    assert_eq!((s, a), (ReadbackState::Mapping, ReadbackAction::SubmitMapRequest));
    let (s, a) = readback_step(s, ReadbackEvent::MapSucceeded);
    assert_eq!((s, a), (ReadbackState::Mapped, ReadbackAction::CopyOutBytes));
    let (s, a) = readback_step(s, ReadbackEvent::BytesCopied);
    assert_eq!((s, a), (ReadbackState::Idle, ReadbackAction::Unmap));
}

#[test]
fn readback_failure_drops_the_frame_and_continues() {
    let (s, a) = readback_step(ReadbackState::Mapping, ReadbackEvent::MapFailed);
    assert_eq!((s, a), (ReadbackState::Failed, ReadbackAction::ReportError));
    let (s, a) = readback_step(s, ReadbackEvent::FrameSubmitted);
    assert_eq!((s, a), (ReadbackState::Mapping, ReadbackAction::SubmitMapRequest));
    let (s, a) = readback_step(ReadbackState::Idle, ReadbackEvent::MapSucceeded);
    assert_eq!((s, a), (ReadbackState::Idle, ReadbackAction::NoOp));
}

#[test]
fn registry_stamps_start_frames_per_joining_tick() {
    // Two cameras joining at different ticks each begin their sequence at 1.
    let mut registry = ExportRegistry::new();
    registry.add_camera(1, Some(UVec2 { x: 16, y: 16 }));
    registry.setup_exporters();
    assert_eq!(registry.frame_id, 1);
    registry.setup_export_data();
    registry.setup_exporters();
    registry.add_camera(2, Some(UVec2 { x: 8, y: 8 }));
    registry.setup_exporters();
    assert_eq!(registry.frame_id, 3);
    registry.setup_export_data();

    let first = registry.entries[0];
    let second = registry.entries[1];
    assert_eq!(first.start_frame, Some(1));
    assert_eq!(second.start_frame, Some(3));
    assert_eq!(file_frame_id(1, ImageExportStartFrame(1)), 1);
    assert_eq!(file_frame_id(3, ImageExportStartFrame(3)), 1);

    let task = first.task.unwrap();
    assert_eq!(task.render_target, 1);
    assert_eq!(task.frame_id, 1);
    assert_eq!(task.buffer_size, 4 * 16 * 16);
    assert_eq!(second.task.unwrap().buffer_size, 4 * 8 * 8);
}

#[test]
fn registry_skips_cameras_without_a_resolution() {
    let mut registry = ExportRegistry::new();
    registry.add_camera(5, None);
    registry.setup_exporters();
    registry.setup_export_data();
    assert!(registry.entries[0].task.is_none());
    assert_eq!(registry.entries[0].start_frame, Some(1));
}

#[test]
fn frame_counters_advance_once_per_tick() {
    let mut registry = ExportRegistry::new();
    registry.add_camera(1, Some(UVec2 { x: 4, y: 4 }));
    registry.setup_exporters();
    registry.setup_export_data();
    registry.update_frame_id();
    registry.update_frame_id();
    assert_eq!(registry.entries[0].task.unwrap().frame_id, 3);
}

#[test]
fn export_image_counts_and_converts() {
    let task = ImageExportTask::new(1, UVec2 { x: 2, y: 1 });
    let camera = ImageExportCamera::default();
    let mut threads = ExportThreads::new();
    // Two BGRA texels.
    let data = vec![1u8, 2, 3, 255, 40, 50, 60, 255];
    let desc = export_image(&task, &camera, data, &mut threads);
    assert!(!threads.is_idle());
    assert_eq!(desc.data, vec![3, 2, 1, 255, 60, 50, 40, 255]);
    assert_eq!(desc.resolution, UVec2 { x: 2, y: 1 });
    assert_eq!(desc.frame_id, 1);
    assert_eq!(desc.output_dir, "out");
    assert_eq!(desc.extension, "png");
    let frame = save_image_file(desc).unwrap();
    assert_eq!(frame.path, "out/00001.png");
    threads.end_write();
    assert!(threads.is_idle());
}

#[test]
fn copy_node_uses_padded_stride_and_full_extent() {
    let source = GpuImageExportSource::prepare_asset(3, UVec2 { x: 20, y: 10 }, PixelFormat::Rgba8);
    let copy = ImageExportNode.run(&source);
    assert_eq!(copy.source_id, 3);
    assert_eq!(copy.offset, 0);
    assert_eq!(copy.bytes_per_row, 256);
    assert_eq!(copy.extent, UVec2 { x: 20, y: 10 });
}

#[test]
fn five_frame_sequence_of_one_target() {
    // A 768x768 RGBA8 target exports five frames: the files are named
    // 00001.png through 00005.png, each decodes to 768x768, and each frame's
    // pixels carry that frame's expected content.
    let width = 768u32;
    let height = 768u32;
    let source =
        GpuImageExportSource::prepare_asset(1, UVec2 { x: width, y: height }, PixelFormat::Rgba8);
    assert_eq!(source.bytes_per_row, 3072);
    assert_eq!(source.padded_bytes_per_row, 3072);
    let settings = ImageExportSettings::default();
    let start = ImageExportStartFrame(2);
    let mut threads = ExportThreads::new();

    for n in 1u64..=5 {
        let tick = start.0 + n - 1;
        let shade = (40 * n) as u8;
        let bytes = vec![shade; (source.buffer_size) as usize];
        let frame =
            save_buffer_to_disk(&source, &settings, start, tick, bytes, &mut threads).unwrap();
        assert_eq!(frame.path, format!("out/{:05}.png", n));
        let decoded = image::load_from_memory(&frame.bytes).unwrap().into_rgba8();
        assert_eq!(decoded.width(), width);
        assert_eq!(decoded.height(), height);
        assert!(decoded.pixels().all(|p| p.0 == [shade; 4]));
        threads.end_write();
    }
    assert!(threads.is_idle());
}

#[test]
fn extraction_snapshots_live_tasks_in_order() {
    let mut registry = ExportRegistry::new();
    registry.add_camera(1, Some(UVec2 { x: 4, y: 4 }));
    registry.add_camera(2, None);
    registry.add_camera(3, Some(UVec2 { x: 8, y: 2 }));
    registry.setup_exporters();
    registry.setup_export_data();
    let tasks = extract_image_export_tasks(&registry);
    assert_eq!(tasks.len(), 2);
    assert_eq!(tasks[0].render_target, 1);
    assert_eq!(tasks[0].buffer_size, 4 * 4 * 4);
    assert_eq!(tasks[1].render_target, 3);
    assert_eq!(tasks[1].buffer_size, 4 * 8 * 2);
}

#[test]
fn plugin_starts_with_an_idle_write_pool() {
    let plugin = ImageExportPlugin::default();
    assert!(plugin.threads.is_idle());
}

#[test]
fn source_handle_wraps_an_asset_id() {
    assert_eq!(ImageExportSource::from(9), ImageExportSource(9));
    let _ = (
        ImageExport(9),
        ImageExportSystems::SetupImageExport,
        ImageExportSystems::SetupImageExportFlush,
    );
}
