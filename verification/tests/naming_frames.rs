use image_export::{file_frame_id, frame_file_name, ImageExportStartFrame};

#[test]
fn frame_names_are_zero_padded_to_five_digits() {
    assert_eq!(frame_file_name("out", 1, "png"), "out/00001.png");
    assert_eq!(frame_file_name("out", 5, "png"), "out/00005.png");
    assert_eq!(frame_file_name("out", 42, "exr"), "out/00042.exr");
    assert_eq!(frame_file_name("frames", 99999, "png"), "frames/99999.png");
    assert_eq!(frame_file_name("frames", 100000, "png"), "frames/100000.png");
    assert_eq!(frame_file_name("a/b", 123456, "jpeg"), "a/b/123456.jpeg");
}

#[test]
fn frame_names_match_standard_formatting() {
    for id in [1u64, 9, 10, 99, 100, 12345, 99999, 100000, 7000001] {
        assert_eq!(frame_file_name("out", id, "png"), format!("out/{:05}.png", id));
    }
}

#[test]
fn first_frame_of_a_target_is_numbered_one() {
    // Two targets registered at different global ticks: each target's first
    // capture carries file index 1, regardless of when it joined.
    let t1 = 3u64;
    let t2 = 10u64;
    assert_eq!(file_frame_id(t1, ImageExportStartFrame(t1)), 1);
    assert_eq!(file_frame_id(t2, ImageExportStartFrame(t2)), 1);
    assert_eq!(
        frame_file_name("out", file_frame_id(t1, ImageExportStartFrame(t1)), "png"),
        frame_file_name("out", file_frame_id(t2, ImageExportStartFrame(t2)), "png"),
    );
}

#[test]
fn nth_capture_is_numbered_n() {
    let start = 4u64;
    for n in 1u64..=7 {
        let tick = start + n - 1;
        assert_eq!(file_frame_id(tick, ImageExportStartFrame(start)), n);
        assert_eq!(
            frame_file_name("out", file_frame_id(tick, ImageExportStartFrame(start)), "png"),
            format!("out/{:05}.png", n)
        );
    }
}
