use image_export::{
    save_image, save_image_file, ExportThreads, ImageExportSettings, ImageExportStartFrame,
    ImageStorageError, SaveImageDescriptor, UVec2,
};

fn solid_rgba8(width: u32, height: u32, texel: [u8; 4]) -> Vec<u8> {
    let mut data = Vec::new();
    for _ in 0..width * height {
        data.extend_from_slice(&texel);
    }
    data
}

#[test]
fn png_round_trip_reproduces_pixels() {
    // Encoding a solid-color buffer and re-decoding it is lossless.
    let width = 3u32;
    let height = 2u32;
    let texel = [10u8, 20, 30, 255];
    let data = solid_rgba8(width, height, texel);
    let frame = save_image("out", "png", data.clone(), 12, 12, width, height, 1).unwrap();
    assert_eq!(frame.path, "out/00001.png");

    let decoded = image::load_from_memory(&frame.bytes).unwrap().into_rgba8();
    assert_eq!(decoded.width(), width);
    assert_eq!(decoded.height(), height);
    assert_eq!(decoded.into_raw(), data);
}

#[test]
fn exr_round_trip_reproduces_floats_exactly() {
    let width = 2u32;
    let height = 2u32;
    let channels = [0.25f32, 0.5, 0.75, 1.0];
    let mut data = Vec::new();
    for _ in 0..width * height {
        for c in channels {
            data.extend_from_slice(&c.to_ne_bytes());
        }
    }
    let frame = save_image("out", "exr", data, 32, 32, width, height, 3).unwrap();
    assert_eq!(frame.path, "out/00003.exr");

    let decoded = image::load_from_memory(&frame.bytes).unwrap().into_rgba32f();
    assert_eq!(decoded.width(), width);
    assert_eq!(decoded.height(), height);
    for pixel in decoded.pixels() {
        assert_eq!(pixel.0, channels);
    }
}

#[test]
fn padded_rows_are_stripped_before_encoding() {
    // A 16x16 RGBA8 readback buffer with the device row stride of 256:
    // 64 bytes of pixels per row, 192 bytes of padding.
    let width = 16u32;
    let height = 16u32;
    let mut buffer = Vec::new();
    for row in 0..height {
        for texel in 0..width {
            buffer.extend_from_slice(&[row as u8, texel as u8, 7, 255]);
        }
        buffer.extend_from_slice(&[0xAA; 192]);
    }
    assert_eq!(buffer.len(), 256 * 16);
    let frame = save_image("out", "png", buffer, 64, 256, width, height, 2).unwrap();
    assert_eq!(frame.path, "out/00002.png");

    let decoded = image::load_from_memory(&frame.bytes).unwrap().into_rgba8();
    for (x, y, pixel) in decoded.enumerate_pixels() {
        assert_eq!(pixel.0, [y as u8, x as u8, 7, 255]);
    }
}

#[test]
fn buffer_of_wrong_size_is_rejected() {
    let data = solid_rgba8(2, 2, [1, 2, 3, 4]);
    let result = save_image("out", "png", data, 8, 8, 3, 2, 1);
    assert_eq!(result.unwrap_err(), ImageStorageError::BufferCreation);
}

#[test]
fn unknown_extension_is_reported_not_crashed() {
    let data = solid_rgba8(2, 2, [1, 2, 3, 4]);
    let result = save_image("out", "zzz", data, 8, 8, 2, 2, 1);
    assert_eq!(result.unwrap_err(), ImageStorageError::SaveImageBuffer);
}

#[test]
fn failed_write_still_releases_the_counter() {
    // A write that fails (unknown output format here; a denied output
    // directory behaves the same at the caller) must still decrement the
    // in-flight counter, so a later wait-until-idle does not hang.
    let mut threads = ExportThreads::new();
    threads.begin_write();
    let data = solid_rgba8(2, 2, [1, 2, 3, 4]);
    let result = save_image("denied", "zzz", data, 8, 8, 2, 2, 1);
    assert!(result.is_err());
    threads.end_write();
    assert!(threads.is_idle());
}

#[test]
fn save_image_file_encodes_and_names_a_frame() {
    let data = solid_rgba8(4, 4, [9, 8, 7, 255]);
    let desc = SaveImageDescriptor {
        data: data.clone(),
        resolution: UVec2 { x: 4, y: 4 },
        frame_id: 12,
        output_dir: "captures",
        extension: "png",
    };
    let frame = save_image_file(desc).unwrap();
    assert_eq!(frame.path, "captures/00012.png");
    let decoded = image::load_from_memory(&frame.bytes).unwrap().into_rgba8();
    assert_eq!(decoded.into_raw(), data);
}

#[test]
fn save_image_file_rejects_short_buffer() {
    let desc = SaveImageDescriptor {
        data: vec![0u8; 8],
        resolution: UVec2 { x: 4, y: 4 },
        frame_id: 1,
        output_dir: "out",
        extension: "png",
    };
    assert_eq!(save_image_file(desc).unwrap_err(), ImageStorageError::BufferCreation);
}

#[test]
fn storage_errors_describe_themselves() {
    assert_eq!(ImageStorageError::CreateDir.describe(), "Failed to create directory");
    assert_eq!(ImageStorageError::SaveImageBuffer.describe(), "Failed to save image buffer");
    assert_eq!(ImageStorageError::BufferCreation.describe(), "Failed to create image buffer");
}

#[test]
fn default_settings_write_png_files_to_out() {
    let settings = ImageExportSettings::default();
    assert_eq!(settings.output_dir, "out");
    assert_eq!(settings.extension, "png");
    let _ = ImageExportStartFrame(1);
}

#[test]
fn zero_sized_image_is_reported_as_an_error() {
    let result = save_image("out", "png", Vec::new(), 4, 4, 0, 0, 1);
    assert!(result.is_err());
}
