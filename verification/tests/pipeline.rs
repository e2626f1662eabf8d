use screencap::capture::{advance, assemble_capture, CaptureError, CaptureStep};
use screencap::headers::{build_headers, BitmapMetadata};
use screencap::transcode::{transcode, TranscodeError, JPEG_QUALITY};

/// Assemble a bitmap buffer whose pixels are all one color, at 24 bits
/// per pixel, with the format's bottom-up, blue-green-red, padded rows.
fn solid_bitmap(width: i32, height: i32, rgb: (u8, u8, u8)) -> Vec<u8> {
    let m = BitmapMetadata { width, height, planes: 1, bits_per_pixel: 24 };
    let row_bytes = (((width as usize) * 24 + 31) / 32) * 4;
    let mut pixels = Vec::new();
    for _ in 0..height {
        for _ in 0..width {
            pixels.push(rgb.2);
            pixels.push(rgb.1);
            pixels.push(rgb.0);
        }
        for _ in (width as usize) * 3..row_bytes {
            pixels.push(0);
        }
    }
    assemble_capture(&m, pixels)
}

#[test]
fn assembled_buffer_parses_with_reference_reader() {
    let buf = solid_bitmap(3, 2, (10, 200, 30));
    let (fh, _) = build_headers(&BitmapMetadata { width: 3, height: 2, planes: 1, bits_per_pixel: 24 });
    assert_eq!(buf.len() as u32, fh.file_size);
    let img = image::load_from_memory_with_format(&buf, image::ImageFormat::Bmp).unwrap();
    assert_eq!(img.width(), 3);
    assert_eq!(img.height(), 2);
    for p in img.to_rgb8().pixels() {
        assert_eq!(p.0, [10, 200, 30]);
    }
}

#[test]
fn eight_bit_buffer_parses_with_reference_reader() {
    let m = BitmapMetadata { width: 10, height: 10, planes: 1, bits_per_pixel: 8 };
    // exact formula: 12 bytes per row, 120 bytes of pixel data
    let pixels = vec![0u8; 120];
    let buf = assemble_capture(&m, pixels);
    assert_eq!(buf.len(), 54 + 256 * 4 + 120);
    let img = image::load_from_memory_with_format(&buf, image::ImageFormat::Bmp).unwrap();
    assert_eq!(img.width(), 10);
    assert_eq!(img.height(), 10);
}

#[test]
fn degenerate_capture_assembles_without_panic() {
    let m = BitmapMetadata { width: 0, height: 0, planes: 1, bits_per_pixel: 32 };
    let buf = assemble_capture(&m, Vec::new());
    let (fh, _) = build_headers(&m);
    assert_eq!(buf.len() as u32, fh.file_size);
    assert_eq!(fh.file_size, fh.pixel_data_offset);
}

#[test]
fn transcode_round_trip_within_lossy_tolerance() {
    let buf = solid_bitmap(2, 2, (120, 60, 200));
    let jpeg = transcode(&buf, JPEG_QUALITY).unwrap();
    // a fresh compressed buffer, not the input handed back
    assert_ne!(jpeg, buf);
    assert_eq!(jpeg[0..2].to_vec(), vec![0xFFu8, 0xD8]); // start-of-image marker
    let img = image::load_from_memory_with_format(&jpeg, image::ImageFormat::Jpeg).unwrap();
    assert_eq!(img.width(), 2);
    assert_eq!(img.height(), 2);
    for p in img.to_rgb8().pixels() {
        assert!((p.0[0] as i32 - 120).abs() <= 20, "red {}", p.0[0]);
        assert!((p.0[1] as i32 - 60).abs() <= 20, "green {}", p.0[1]);
        assert!((p.0[2] as i32 - 200).abs() <= 20, "blue {}", p.0[2]);
    }
}

#[test]
fn transcode_rejects_malformed_input() {
    let r = transcode(&[1, 2, 3, 4], JPEG_QUALITY);
    assert_eq!(r.unwrap_err(), TranscodeError::DecodeFailed);
}

#[test]
fn transcode_rejects_degenerate_dimensions() {
    // the reference reader refuses an empty pixel grid, so a degenerate
    // capture surfaces as a decode failure
    let m = BitmapMetadata { width: 0, height: 0, planes: 1, bits_per_pixel: 24 };
    let buf = assemble_capture(&m, Vec::new());
    let r = transcode(&buf, JPEG_QUALITY);
    assert_eq!(r.unwrap_err(), TranscodeError::DecodeFailed);
}

#[test]
fn transcode_rejects_oversized_dimensions() {
    // beyond the reference reader's 16-bit dimension cap the input does
    // not even decode
    let m = BitmapMetadata { width: 1, height: 70000, planes: 1, bits_per_pixel: 24 };
    let pixels = vec![0u8; 4 * 70000];
    let buf = assemble_capture(&m, pixels);
    let r = transcode(&buf, JPEG_QUALITY);
    assert_eq!(r.unwrap_err(), TranscodeError::DecodeFailed);
}

#[test]
fn each_failed_step_names_its_error() {
    assert_eq!(
        advance(CaptureStep::CreateContext, false).unwrap_err(),
        CaptureError::ContextCreationFailed
    );
    assert_eq!(advance(CaptureStep::BlockCopy, false).unwrap_err(), CaptureError::BlockCopyFailed);
    assert_eq!(
        advance(CaptureStep::QueryMetadata, false).unwrap_err(),
        CaptureError::MetadataQueryFailed
    );
    assert_eq!(advance(CaptureStep::ReadPixels, false).unwrap_err(), CaptureError::PixelReadFailed);
}

#[test]
fn successful_steps_run_in_pipeline_order() {
    assert_eq!(
        advance(CaptureStep::CreateContext, true).unwrap(),
        Some(CaptureStep::BlockCopy)
    );
    assert_eq!(advance(CaptureStep::BlockCopy, true).unwrap(), Some(CaptureStep::QueryMetadata));
    assert_eq!(
        advance(CaptureStep::QueryMetadata, true).unwrap(),
        Some(CaptureStep::ReadPixels)
    );
    assert_eq!(advance(CaptureStep::ReadPixels, true).unwrap(), None);
}
