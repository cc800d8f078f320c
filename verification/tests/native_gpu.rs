use gromaq::native_gpu::draw_buffers::{
    checked_textured_index_count, validate_background_draw_buffers, validate_background_draw_input, BackgroundDrawInput, validate_textured_draw_buffers, DrawBufferLayout,
};
use gromaq::native_gpu::quad_bytes::{
    background_quad_vertex_byte_capacity, glyph_quad_index_bytes, glyph_quad_vertex_byte_capacity,
    textured_quad_index_bytes,
};
use gromaq::native_gpu::readback::{dense_rgba8_rows, last_rgba_pixel, rgba_pixel_at};
use gromaq::native_gpu::smoke::perf::{average_duration_ns, p95_duration_ns, sorted_durations, terminal_text_perf_report};
use gromaq::native_gpu::smoke::pixels::{
    count_drawn_pixels, count_matching_bytes, count_nonzero_bytes, first_nontransparent_pixel, first_rgba_pixel,
};
use gromaq::native_gpu::smoke::snapshot::{ppm_bytes, terminal_text_ppm_bytes};
use gromaq::native_gpu::smoke::terminal_text::checked_terminal_text_target_dimensions;
use gromaq::native_gpu::smoke::welcome::welcome_image_report;
use gromaq::native_gpu::upload::validate_pattern_bytes;
use gromaq::native_gpu::{
    GpuBootstrap, GpuBootstrapBackend, GpuBootstrapConfig, GpuBootstrapError, GpuBootstrapRequest, GpuPowerPreference,
    ReadbackLayout, UploadPattern, UploadPatternLayout,
};
use gromaq::renderer::{GlyphAtlasImage, GlyphQuadBatch};

fn smoke(message: &str) -> GpuBootstrapError {
    GpuBootstrapError::SmokeReadback(message.to_owned())
}

#[test]
fn textured_draw_buffer_layout_reports_checked_sizes() {
    let vertex_bytes = [1_u8, 2, 3, 4];
    let index_bytes = [5_u8, 6];

    let layout = validate_textured_draw_buffers(&vertex_bytes, &index_bytes, 1).unwrap();

    assert_eq!(layout, DrawBufferLayout { vertex_buffer_size: 4, index_buffer_size: 2, index_count: 1 });
}

#[test]
fn textured_draw_buffer_layout_rejects_empty_buffers() {
    let vertex_bytes = [];
    let index_bytes = [1_u8, 2];

    let error = validate_textured_draw_buffers(&vertex_bytes, &index_bytes, 1).unwrap_err();

    assert_eq!(error, smoke("textured draw buffers must be non-empty"));
}

#[test]
fn background_draw_buffer_layout_reports_checked_sizes() {
    let vertex_bytes = [1_u8, 2, 3, 4];
    let index_bytes = [5_u8, 6, 7, 8];

    let layout = validate_background_draw_buffers(&vertex_bytes, &index_bytes, 1).unwrap();

    assert_eq!(layout, DrawBufferLayout { vertex_buffer_size: 4, index_buffer_size: 4, index_count: 1 });
}

#[test]
fn background_draw_buffer_layout_rejects_empty_buffers() {
    let vertex_bytes = [];
    let index_bytes = [1_u8, 2, 3, 4];

    let error = validate_background_draw_buffers(&vertex_bytes, &index_bytes, 1).unwrap_err();

    assert_eq!(error, smoke("background draw buffers must be non-empty"));
}

#[test]
fn textured_index_count_rejects_values_larger_than_wgpu_draw_range() {
    let error = checked_textured_index_count(usize::MAX).unwrap_err();

    assert_eq!(error, smoke("terminal text index count is too large"));
}

#[test]
fn textured_index_count_accepts_the_largest_u32_count() {
    assert_eq!(checked_textured_index_count(u32::MAX as usize).unwrap(), u32::MAX);
    assert_eq!(checked_textured_index_count(6).unwrap(), 6);
}

#[test]
fn draw_buffers_reject_a_zero_index_count() {
    let error = validate_textured_draw_buffers(&[1], &[2], 0).unwrap_err();
    assert_eq!(error, smoke("textured draw buffers must be non-empty"));
}

#[test]
fn glyph_quad_vertex_byte_capacity_uses_checked_multiplication() {
    assert_eq!(glyph_quad_vertex_byte_capacity(2).unwrap(), 256);

    let error = glyph_quad_vertex_byte_capacity((usize::MAX / 128) + 1).unwrap_err();

    assert_eq!(error, smoke("terminal text vertex bytes are too large"));
}

#[test]
fn background_quad_vertex_byte_capacity_uses_checked_multiplication() {
    assert_eq!(background_quad_vertex_byte_capacity(2).unwrap(), 192);

    let error = background_quad_vertex_byte_capacity((usize::MAX / 96) + 1).unwrap_err();

    assert_eq!(error, smoke("terminal background vertex bytes are too large"));
}

#[test]
fn quad_index_bytes_are_little_endian() {
    assert_eq!(textured_quad_index_bytes(), vec![0, 0, 1, 0, 2, 0, 0, 0, 2, 0, 3, 0]);
    let batch = GlyphQuadBatch { quads: Vec::new(), indices: vec![1, 0x0102_0304] };
    assert_eq!(glyph_quad_index_bytes(&batch), vec![1, 0, 0, 0, 4, 3, 2, 1]);
}

#[test]
fn readback_last_rgba_pixel_reports_checked_slice() {
    assert_eq!(last_rgba_pixel(&[1, 2, 3, 4], "readback").unwrap(), &[1, 2, 3, 4]);
    assert_eq!(last_rgba_pixel(&[1, 2, 3, 4, 5, 6, 7, 8], "readback").unwrap(), &[5, 6, 7, 8]);
}

#[test]
fn readback_last_rgba_pixel_rejects_short_buffers() {
    let error = last_rgba_pixel(&[1, 2, 3], "readback").unwrap_err();

    assert_eq!(error, smoke("readback is shorter than one RGBA pixel"));
}

#[test]
fn readback_rgba_pixel_at_reports_checked_slice() {
    assert_eq!(rgba_pixel_at(&[1, 2, 3, 4, 5, 6, 7, 8], 1, "pixel").unwrap(), &[5, 6, 7, 8]);
}

#[test]
fn readback_rgba_pixel_at_rejects_missing_pixel() {
    let error = rgba_pixel_at(&[1, 2, 3, 4], 1, "pixel").unwrap_err();

    assert_eq!(error, smoke("pixel is missing from readback"));
}

#[test]
fn readback_rgba_pixel_at_rejects_overflowing_offset() {
    let error = rgba_pixel_at(&[], usize::MAX, "pixel").unwrap_err();

    assert_eq!(error, smoke("pixel byte offset is too large"));
}

#[test]
fn tests_last_rgba_pixel_reports_checked_slice() {
    assert_eq!(last_rgba_pixel(&[1, 2, 3, 4], "readback").unwrap(), &[1, 2, 3, 4]);
    assert_eq!(last_rgba_pixel(&[1, 2, 3, 4, 5, 6, 7, 8], "readback").unwrap(), &[5, 6, 7, 8]);
}

#[test]
fn tests_last_rgba_pixel_rejects_short_buffers() {
    let error = last_rgba_pixel(&[1, 2, 3], "readback").unwrap_err();

    assert_eq!(error, smoke("readback is shorter than one RGBA pixel"));
}

#[test]
fn tests_rgba_pixel_at_reports_checked_slice() {
    assert_eq!(rgba_pixel_at(&[1, 2, 3, 4, 5, 6, 7, 8], 1, "pixel").unwrap(), &[5, 6, 7, 8]);
}

#[test]
fn tests_rgba_pixel_at_rejects_missing_pixel() {
    let error = rgba_pixel_at(&[1, 2, 3, 4], 1, "pixel").unwrap_err();

    assert_eq!(error, smoke("pixel is missing from readback"));
}

#[test]
fn tests_rgba_pixel_at_rejects_overflowing_offset() {
    let error = rgba_pixel_at(&[], usize::MAX, "pixel").unwrap_err();

    assert_eq!(error, smoke("pixel byte offset is too large"));
}

#[test]
fn readback_layout_pads_rows_to_256_bytes() {
    let layout = ReadbackLayout::rgba8(4, 3).unwrap();
    assert_eq!(
        layout,
        ReadbackLayout { width: 4, height: 3, dense_bytes_per_row: 16, padded_bytes_per_row: 256, buffer_size: 768 }
    );
    let exact = ReadbackLayout::rgba8(64, 2).unwrap();
    assert_eq!(exact.padded_bytes_per_row, 256);
    let wide = ReadbackLayout::rgba8(65, 1).unwrap();
    assert_eq!(wide.padded_bytes_per_row, 512);
}

#[test]
fn readback_layout_rejects_oversized_rows() {
    assert_eq!(ReadbackLayout::rgba8(u32::MAX / 4 + 1, 1).unwrap_err(), smoke("RGBA8 row byte size is too large"));
    assert_eq!(ReadbackLayout::rgba8(u32::MAX / 4, 1).unwrap_err(), smoke("padded readback row byte size is too large"));
}

#[test]
fn dense_rows_strip_row_padding() {
    let layout = ReadbackLayout { width: 1, height: 2, dense_bytes_per_row: 4, padded_bytes_per_row: 8, buffer_size: 16 };
    let mapped = [1, 2, 3, 4, 0, 0, 0, 0, 5, 6, 7, 8, 0, 0, 0, 0];
    assert_eq!(dense_rgba8_rows(&mapped, layout).unwrap(), vec![1, 2, 3, 4, 5, 6, 7, 8]);
    let short = [1, 2, 3, 4, 0, 0, 0, 0, 5, 6];
    assert_eq!(dense_rgba8_rows(&short, layout).unwrap_err(), smoke("readback row exceeds mapped buffer"));
}

#[test]
fn upload_patterns_validate_their_byte_length() {
    let checker = UploadPattern::checker_rgba8_2x2();
    assert_eq!(checker.rgba8_layout().unwrap(), UploadPatternLayout { row_bytes: 8, expected_len: 16 });
    assert_eq!(validate_pattern_bytes(&checker, "upload pattern").unwrap().expected_len, 16);
    let short = UploadPattern { width: 2, height: 2, rgba: vec![0; 12] };
    assert_eq!(validate_pattern_bytes(&short, "upload pattern").unwrap_err(), smoke("upload pattern has 12 bytes, expected 16"));
    let empty = UploadPattern { width: 0, height: 2, rgba: Vec::new() };
    assert_eq!(empty.rgba8_layout().unwrap_err(), smoke("upload pattern dimensions must be non-zero"));
    let image = GlyphAtlasImage { width: 1, height: 1, rgba: vec![9, 8, 7, 6], occupied_slots: 1 };
    let from_image = UploadPattern::from_glyph_atlas_image(&image);
    assert_eq!(from_image, UploadPattern { width: 1, height: 1, rgba: vec![9, 8, 7, 6] });
}

#[test]
fn terminal_text_ppm_bytes_writes_binary_rgb_snapshot() {
    let snapshot = terminal_text_ppm_bytes(2, 1, &[255, 0, 0, 255, 4, 5, 6, 128]).unwrap();

    assert_eq!(snapshot, b"P6\n2 1\n255\n\xff\x00\x00\x04\x05\x06");
}

#[test]
fn terminal_text_ppm_bytes_rejects_mismatched_rgba_len() {
    let error = terminal_text_ppm_bytes(2, 1, &[255, 0, 0, 255]).unwrap_err();

    assert_eq!(error, smoke("terminal text snapshot expected 8 RGBA bytes, got 4"));
}

#[test]
fn welcome_ppm_bytes_encode_and_check_length() {
    let snapshot = ppm_bytes(1, 2, &[1, 2, 3, 4, 5, 6, 7, 8]).unwrap();
    assert_eq!(snapshot, b"P6\n1 2\n255\n\x01\x02\x03\x05\x06\x07");
    assert_eq!(ppm_bytes(1, 2, &[1]).unwrap_err(), smoke("welcome image expected 8 RGBA bytes, got 1"));
}

#[test]
fn terminal_text_target_dimensions_reports_checked_size() {
    let dimensions = checked_terminal_text_target_dimensions(80, 24, 8, 16).unwrap();

    assert_eq!(dimensions, (640, 384));
}

#[test]
fn terminal_text_target_dimensions_rejects_overflowing_width() {
    let error = checked_terminal_text_target_dimensions(2, 1, u32::MAX, 1).unwrap_err();

    assert_eq!(error, smoke("terminal text target width is too large to represent"));
}

#[test]
fn terminal_text_target_dimensions_rejects_overflowing_height() {
    let error = checked_terminal_text_target_dimensions(1, 2, 1, u32::MAX).unwrap_err();

    assert_eq!(error, smoke("terminal text target height is too large to represent"));
}

#[test]
fn terminal_text_perf_average_reports_zero_without_samples() {
    assert_eq!(average_duration_ns(&[]), 0);
}

#[test]
fn terminal_text_perf_p95_reports_zero_without_samples() {
    assert_eq!(p95_duration_ns(&[]), 0);
}

#[test]
fn terminal_text_perf_p95_uses_inclusive_rank() {
    assert_eq!(p95_duration_ns(&[10, 20, 30, 40, 50]), 50);
}

#[test]
fn perf_statistics_ignore_sample_order() {
    assert_eq!(sorted_durations(&[30, 10, 20, 10]), vec![10, 10, 20, 30]);
    assert_eq!(average_duration_ns(&[30, 10, 20, 10]), 17);
    let samples: Vec<u128> = (1..=20).rev().collect();
    assert_eq!(p95_duration_ns(&samples), 19);
    let report = terminal_text_perf_report(640, 384, 12, &[7, 3, 5]);
    assert_eq!(report.frames, 3);
    assert_eq!((report.min_ns, report.avg_ns, report.max_ns, report.p95_ns), (3, 5, 7, 7));
}

#[test]
fn welcome_image_report_counts_avatar_coverage() {
    const BG: [u8; 4] = [10, 20, 30, 255];
    const WIDTH: u32 = 4;
    const HEIGHT: u32 = 4;
    let mut pixels = vec![0u8; (WIDTH * HEIGHT * 4) as usize];
    for chunk in pixels.chunks_exact_mut(4) {
        chunk.copy_from_slice(&BG);
    }
    let center = ((HEIGHT / 2) * WIDTH + WIDTH / 2) as usize * 4;
    pixels[center..center + 4].copy_from_slice(&[200, 180, 240, 255]);

    let report = welcome_image_report(&pixels, WIDTH, HEIGHT, BG).unwrap();
    assert_eq!(report.background_pixel, BG);
    assert_eq!(report.image_pixel, [200, 180, 240, 255]);
    assert_eq!(report.drawn_pixels, 1);
}

#[test]
fn welcome_image_report_rejects_unrendered_avatar() {
    const BG: [u8; 4] = [10, 20, 30, 255];
    const WIDTH: u32 = 4;
    const HEIGHT: u32 = 4;
    let mut filled = Vec::with_capacity((WIDTH * HEIGHT * 4) as usize);
    for _ in 0..(WIDTH * HEIGHT) {
        filled.extend_from_slice(&BG);
    }
    let error = welcome_image_report(&filled, WIDTH, HEIGHT, BG).unwrap_err();
    assert!(matches!(error, GpuBootstrapError::SmokeReadback(_)));
}

#[test]
fn welcome_image_report_names_a_wrong_background() {
    let pixels = [1, 2, 3, 4, 9, 9, 9, 9];
    let error = welcome_image_report(&pixels, 2, 1, [10, 20, 30, 255]).unwrap_err();
    assert_eq!(error, smoke("welcome image background pixel [1, 2, 3, 4] did not match [10, 20, 30, 255]"));
    let error = welcome_image_report(&[], 2, 1, [10, 20, 30, 255]).unwrap_err();
    assert_eq!(error, smoke("welcome image pixel out of range"));
}

#[test]
fn pixel_counts_and_samples() {
    let pixels = [0, 0, 0, 0, 5, 6, 7, 8, 0, 1, 0, 0, 9];
    assert_eq!(count_drawn_pixels(&pixels), 1);
    assert_eq!(count_nonzero_bytes(&pixels), 6);
    assert_eq!(count_matching_bytes(&pixels, &[0, 0, 1]), 2);
    assert_eq!(first_nontransparent_pixel(&pixels), [5, 6, 7, 8]);
    assert_eq!(first_nontransparent_pixel(&[0, 0, 0, 0]), [0, 0, 0, 0]);
    assert_eq!(first_rgba_pixel(&pixels, "empty readback").unwrap(), [0, 0, 0, 0]);
    assert_eq!(first_rgba_pixel(&[1], "empty readback").unwrap_err(), smoke("empty readback"));
}

struct RecordingBackend;

impl GpuBootstrapBackend for RecordingBackend {
    type Context = GpuBootstrapRequest;

    fn request_device(&self, request: &GpuBootstrapRequest) -> Result<GpuBootstrapRequest, GpuBootstrapError> {
        Ok(*request)
    }
}

#[test]
fn bootstrap_requests_a_device_without_optional_features() {
    let config = GpuBootstrapConfig {
        power_preference: GpuPowerPreference::HighPerformance,
        force_fallback_adapter: true,
        device_label: "gromaq-test-device",
    };
    let bootstrap = GpuBootstrap::new(config);
    let request = bootstrap.request();
    assert_eq!(
        request,
        GpuBootstrapRequest {
            power_preference: GpuPowerPreference::HighPerformance,
            force_fallback_adapter: true,
            required_features_empty: true,
            device_label: "gromaq-test-device",
        }
    );
    assert_eq!(bootstrap.initialize_with(&RecordingBackend).unwrap(), request);
}

#[test]
fn bootstrap_error_messages_name_their_cause() {
    assert_eq!(smoke("empty readback").message(), "GPU smoke readback failed: empty readback");
    assert_eq!(
        GpuBootstrapError::AdapterUnavailable("none".to_owned()).message(),
        "no compatible GPU adapter available: none"
    );
}

#[test]
fn background_draw_input_is_validated_like_its_buffers() {
    let input = BackgroundDrawInput { vertex_bytes: vec![0; 96], index_bytes: vec![0; 24], index_count: 6 };
    let layout = validate_background_draw_input(&input).unwrap();
    assert_eq!(layout, DrawBufferLayout { vertex_buffer_size: 96, index_buffer_size: 24, index_count: 6 });
    let empty = BackgroundDrawInput { vertex_bytes: Vec::new(), index_bytes: vec![0; 24], index_count: 6 };
    let error = validate_background_draw_input(&empty).unwrap_err();
    assert_eq!(error.message(), "GPU smoke readback failed: background draw buffers must be non-empty");
}
