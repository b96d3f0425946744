use image_export::{
    padded_bytes_per_row, readback_buffer_size, unpadded_bytes_per_row, GpuImageExportSource,
    PixelFormat, UVec2,
};

#[test]
fn unpadded_row_is_width_times_texel_size() {
    assert_eq!(unpadded_bytes_per_row(16, 4), 64);
    assert_eq!(unpadded_bytes_per_row(768, 4), 3072);
    assert_eq!(unpadded_bytes_per_row(16, 16), 256);
    assert_eq!(unpadded_bytes_per_row(0, 4), 0);
}

#[test]
fn padded_row_rounds_up_to_alignment() {
    assert_eq!(padded_bytes_per_row(0), 0);
    assert_eq!(padded_bytes_per_row(1), 256);
    assert_eq!(padded_bytes_per_row(64), 256);
    assert_eq!(padded_bytes_per_row(255), 256);
    assert_eq!(padded_bytes_per_row(256), 256);
    assert_eq!(padded_bytes_per_row(257), 512);
    assert_eq!(padded_bytes_per_row(3072), 3072);
}

#[test]
fn padded_row_never_below_unpadded_and_equal_iff_aligned() {
    for width in [1u32, 3, 16, 63, 64, 65, 100, 255, 256, 768, 1000] {
        let unpadded = unpadded_bytes_per_row(width, 4);
        let padded = padded_bytes_per_row(unpadded);
        assert!(padded >= unpadded);
        assert_eq!(padded == unpadded, unpadded % 256 == 0);
    }
}

#[test]
fn buffer_size_is_padded_stride_times_height() {
    assert_eq!(readback_buffer_size(256, 16), 4096);
    assert_eq!(readback_buffer_size(3072, 768), 3072 * 768);
    assert_eq!(readback_buffer_size(0, 10), 0);
}

#[test]
fn prepare_asset_computes_readback_layout() {
    let source = GpuImageExportSource::prepare_asset(7, UVec2 { x: 16, y: 16 }, PixelFormat::Rgba8);
    assert_eq!(source.source_id, 7);
    assert_eq!(source.source_size, UVec2 { x: 16, y: 16 });
    assert_eq!(source.bytes_per_row, 64);
    assert_eq!(source.padded_bytes_per_row, 256);
    assert_eq!(source.buffer_size, 4096);

    let float_source =
        GpuImageExportSource::prepare_asset(8, UVec2 { x: 16, y: 4 }, PixelFormat::Rgba32Float);
    assert_eq!(float_source.bytes_per_row, 256);
    assert_eq!(float_source.padded_bytes_per_row, 256);
    assert_eq!(float_source.buffer_size, 1024);
}
