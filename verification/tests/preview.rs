use reef::backend::{DatabaseInfo, DbPage};
use reef::preview::{
    binary_meta_line, database_preview, decode_error, downscale_if_oversized, exceeds_max_pixels,
    image_meta_line, load_image_preview, load_preview, metadata_only_from_bytes, remote_preview,
    text_preview, BinaryReason, ImageFormat, PreviewBody, PreviewContent, PreviewStep, SqliteFault,
    MAX_DECODE_ERROR_LEN, MAX_PROTOCOL_DIM, MAX_TEXT_PROBE_BYTES,
};
use reef::proto::ReadFileResponse;
use reef::size::human_bytes;
use std::io::Cursor;

/// Runs the steps of a preview over bytes that stand for a file on disk.
fn preview_of(name: &str, size: u64, data: &[u8], wants: bool) -> PreviewContent {
    let probe: Vec<u8> = data.iter().copied().take(8192).collect();
    match load_preview(name, true, size, &probe, false, wants).expect("some") {
        PreviewStep::Show(content) => content,
        PreviewStep::ReadDatabase => panic!("no database"),
        PreviewStep::ReadImageHeader { mime } => {
            metadata_only_from_bytes(name, size, mime, Ok(data.to_vec()))
        }
        PreviewStep::ReadImage { mime } => load_image_preview(name, size, mime, Ok(data.to_vec())),
        PreviewStep::ReadText => text_preview(name, data),
    }
}

fn preview(name: &str, data: &[u8], wants: bool) -> PreviewContent {
    preview_of(name, data.len() as u64, data, wants)
}

fn tiny_png(w: u32, h: u32) -> Vec<u8> {
    let img = image::ImageBuffer::from_pixel(w, h, image::Rgb([255u8, 0, 0]));
    let mut buf = Vec::new();
    image::DynamicImage::ImageRgb8(img)
        .write_to(&mut Cursor::new(&mut buf), image::ImageFormat::Png)
        .unwrap();
    buf
}

#[test]
fn load_preview_detects_png_by_magic_bytes() {
    match preview("red.png", &tiny_png(4, 4), true).body {
        PreviewBody::Image(img) => {
            assert_eq!(img.width_px, 4);
            assert_eq!(img.height_px, 4);
            assert_eq!(img.format, ImageFormat::Png);
        }
        other => panic!("expected Image body, got {other:?}"),
    }
}

#[test]
fn load_preview_png_with_wrong_extension() {
    match preview("shot.jpg", &tiny_png(2, 2), true).body {
        PreviewBody::Image(img) => assert_eq!(img.format, ImageFormat::Png),
        other => panic!("expected Image body, got {other:?}"),
    }
}

#[test]
fn load_preview_refuses_huge_dimensions() {
    let mut png = Vec::<u8>::new();
    png.extend_from_slice(&[0x89, b'P', b'N', b'G', 0x0D, 0x0A, 0x1A, 0x0A]);
    png.extend_from_slice(&13u32.to_be_bytes());
    png.extend_from_slice(b"IHDR");
    png.extend_from_slice(&40000u32.to_be_bytes());
    png.extend_from_slice(&40000u32.to_be_bytes());
    png.extend_from_slice(&[8, 2, 0, 0, 0]);
    png.extend_from_slice(&[0u8; 4]);

    match preview("huge.png", &png, true).body {
        PreviewBody::Binary(info) => {
            assert!(
                matches!(info.reason, BinaryReason::TooLarge | BinaryReason::DecodeError(_)),
                "expected TooLarge or DecodeError, got {:?}",
                info.reason
            );
            assert_eq!(info.mime, Some("image/png"));
        }
        other => panic!("expected Binary body, got {other:?}"),
    }
}

#[test]
fn load_preview_text_unchanged() {
    match preview("src.rs", b"fn main() {}\n", true).body {
        PreviewBody::Text { lines, .. } => {
            assert_eq!(lines, vec!["fn main() {}".to_string()]);
        }
        other => panic!("expected Text body, got {other:?}"),
    }
}

#[test]
fn load_preview_zero_byte_reports_empty() {
    match preview("empty.bin", b"", true).body {
        PreviewBody::Binary(info) => {
            assert!(matches!(info.reason, BinaryReason::Empty));
            assert_eq!(info.bytes_on_disk, 0);
        }
        other => panic!("expected Binary(Empty), got {other:?}"),
    }
}

#[test]
fn load_preview_without_decode_skips_pixels_keeps_metadata() {
    match preview("red.png", &tiny_png(8, 8), false).body {
        PreviewBody::Image(img) => {
            assert_eq!(img.width_px, 8);
            assert_eq!(img.height_px, 8);
            assert_eq!(img.format, ImageFormat::Png);
            assert!(img.image.is_none(), "wants_decoded_image=false should skip decode");
        }
        other => panic!("expected Image body, got {other:?}"),
    }
}

#[test]
fn load_preview_pdf_is_non_image_binary() {
    let pdf = b"%PDF-1.4\n%bogus content\n".to_vec();
    match preview("doc.pdf", &pdf, true).body {
        PreviewBody::Binary(info) => {
            assert!(matches!(info.reason, BinaryReason::NonImage));
            assert_eq!(info.mime, Some("application/pdf"));
        }
        other => panic!("expected Binary(NonImage), got {other:?}"),
    }
}

#[test]
fn load_preview_vue_sfc_renders_as_text() {
    let sfc = b"<template>\n  <div>hello</div>\n</template>\n";
    match preview("General.vue", sfc, true).body {
        PreviewBody::Text { lines, .. } => {
            assert_eq!(lines[0], "<template>");
            assert_eq!(lines[1], "  <div>hello</div>");
            assert_eq!(lines[2], "</template>");
        }
        other => panic!("expected Text body for .vue, got {other:?}"),
    }
}

#[test]
fn load_preview_unknown_binary_falls_back_to_null_byte_heuristic() {
    let mut data = vec![b'A'; 1024];
    data[512] = 0;
    match preview("weird.dat", &data, true).body {
        PreviewBody::Binary(info) => {
            assert!(matches!(info.reason, BinaryReason::NullBytes));
        }
        other => panic!("expected Binary(NullBytes), got {other:?}"),
    }
}

#[test]
fn load_preview_huge_unknown_skips_full_read() {
    let big_size = MAX_TEXT_PROBE_BYTES + 1;
    let data = vec![b'A'; 8192];
    match preview_of("big.dat", big_size, &data, true).body {
        PreviewBody::Binary(info) => {
            assert!(matches!(info.reason, BinaryReason::NullBytes));
            assert_eq!(info.bytes_on_disk, big_size);
        }
        other => panic!("expected Binary(NullBytes), got {other:?}"),
    }
}

#[test]
fn decode_error_truncates_long_messages() {
    let long = "x".repeat(MAX_DECODE_ERROR_LEN + 500);
    match decode_error(long) {
        BinaryReason::DecodeError(s) => {
            assert!(
                s.chars().count() <= MAX_DECODE_ERROR_LEN + 1,
                "truncated string + ellipsis exceeded cap: {} chars",
                s.chars().count()
            );
            assert!(s.ends_with('…'), "expected ellipsis suffix, got: {s:?}");
        }
        other => panic!("expected DecodeError, got {other:?}"),
    }
}

#[test]
fn decoded_pixels_are_kept_with_their_size() {
    match preview("red.png", &tiny_png(6, 3), true).body {
        PreviewBody::Image(img) => {
            let pixels = img.image.expect("pixels");
            assert_eq!((pixels.width(), pixels.height()), (6, 3));
            assert!(!img.animated);
        }
        other => panic!("expected Image body, got {other:?}"),
    }
}

#[test]
fn a_broken_picture_is_a_card() {
    let mut png = tiny_png(5, 5);
    png.truncate(png.len() / 2);
    match preview("cut.png", &png, true).body {
        PreviewBody::Binary(info) => {
            assert!(matches!(info.reason, BinaryReason::DecodeError(_)));
            assert_eq!(info.mime, Some("image/png"));
        }
        other => panic!("expected a card, got {other:?}"),
    }
}

#[test]
fn an_animated_gif_says_so() {
    let mut buf: Vec<u8> = Vec::new();
    {
        let mut enc = image::codecs::gif::GifEncoder::new(&mut buf);
        for shade in [0u8, 200] {
            let img = image::ImageBuffer::from_pixel(3, 3, image::Rgba([shade, 0, 0, 255]));
            enc.encode_frame(image::Frame::new(img)).unwrap();
        }
    }
    match preview("move.gif", &buf, true).body {
        PreviewBody::Image(img) => {
            assert_eq!(img.format, ImageFormat::Gif);
            assert!(img.animated);
        }
        other => panic!("expected Image body, got {other:?}"),
    }
}

#[test]
fn wide_pictures_are_scaled_into_the_bounds() {
    let wide = image::DynamicImage::new_rgb8(MAX_PROTOCOL_DIM + 100, 10);
    let small = downscale_if_oversized(wide);
    assert_eq!((small.width(), small.height()), (MAX_PROTOCOL_DIM, 10));
    let flat = downscale_if_oversized(image::DynamicImage::new_rgb8(1, 4 * MAX_PROTOCOL_DIM));
    assert_eq!((flat.width(), flat.height()), (1, MAX_PROTOCOL_DIM));
    let tall = downscale_if_oversized(image::DynamicImage::new_rgb8(3000, 4000));
    assert_eq!((tall.width(), tall.height()), (1536, MAX_PROTOCOL_DIM));
    let fits = downscale_if_oversized(image::DynamicImage::new_rgb8(12, 34));
    assert_eq!((fits.width(), fits.height()), (12, 34));
}

#[test]
fn pixel_limit_is_exact() {
    assert!(!exceeds_max_pixels(10_000, 5_000));
    assert!(exceeds_max_pixels(10_000, 5_001));
    assert!(exceeds_max_pixels(u32::MAX, u32::MAX));
}

/// A size printed from a floating point quotient.
fn printed_size(bytes: u64) -> String {
    let kb = 1024u64;
    let mb = kb * 1024;
    let gb = mb * 1024;
    if bytes >= gb {
        format!("{:.1} GB", bytes as f64 / gb as f64)
    } else if bytes >= mb {
        format!("{:.1} MB", bytes as f64 / mb as f64)
    } else if bytes >= kb {
        format!("{:.1} KB", bytes as f64 / kb as f64)
    } else {
        format!("{bytes} B")
    }
}

#[test]
fn sizes_read_as_a_float_would_be_printed() {
    let mut samples: Vec<u64> = vec![0, 1, 1023, 1024, 1025, 1075, 1076, 1100, 1126, 1127, 1536];
    for k in 0..400u64 {
        samples.push(1024 + k * 51);
        samples.push(1024 * 1024 - 200 + k);
        samples.push(1024 * 1024 + k * 52_429);
        samples.push(1024 * 1024 * 1024 - 5 + k);
        samples.push(1024 * 1024 * 1024 + k * 53_687_091);
    }
    for n in samples {
        assert_eq!(human_bytes(n), printed_size(n), "{n}");
    }
}

#[test]
fn meta_lines_are_put_together() {
    assert_eq!(
        image_meta_line(640, 480, ImageFormat::Png, 2048, false),
        "640×480 · PNG · 2.0 KB"
    );
    assert!(image_meta_line(1, 1, ImageFormat::Gif, 10, true).contains("GIF"));
    assert!(binary_meta_line(Some("application/pdf"), 1024).contains("application/pdf"));
    assert!(binary_meta_line(None, 1024).contains("1.0 KB"));
}

#[test]
fn text_lines_are_those_of_the_standard_library() {
    for raw in [
        &b"a\r\nb\n\nc"[..],
        &b"\n\n"[..],
        &b"x\ry\n"[..],
        &b"bad \xff utf8\n"[..],
        &b"\xe6\x97\xa5\n"[..],
    ] {
        let want: Vec<String> =
            String::from_utf8_lossy(raw).lines().map(|l| l.to_string()).collect();
        match text_preview("t", raw).body {
            PreviewBody::Text { lines, source_bytes, .. } => {
                assert_eq!(lines, want);
                assert_eq!(source_bytes, raw.len());
            }
            other => panic!("expected Text, got {other:?}"),
        }
    }
}

#[test]
fn a_long_text_is_cut_after_ten_thousand_lines() {
    let raw = "x\n".repeat(10_005);
    match text_preview("t", raw.as_bytes()).body {
        PreviewBody::Text { lines, .. } => assert_eq!(lines.len(), 10_000),
        other => panic!("expected Text, got {other:?}"),
    }
}

#[test]
fn a_database_that_cannot_be_read_is_a_card() {
    let read = Err(SqliteFault::Other("broken".to_string()));
    match database_preview("x.db", 99, read).body {
        PreviewBody::Binary(info) => assert_eq!(info.bytes_on_disk, 99),
        other => panic!("expected a card, got {other:?}"),
    }
    let info = DatabaseInfo {
        tables: Vec::new(),
        selected_table: 0,
        initial_page: DbPage { rows: Vec::new() },
        bytes_on_disk: 7,
    };
    assert!(matches!(database_preview("x.db", 7, Ok(info)).body, PreviewBody::Database(_)));
}

#[test]
fn a_remote_file_is_text_unless_it_holds_nul_bytes() {
    let resp = |bytes: &[u8], is_file: bool| ReadFileResponse {
        is_file,
        bytes: bytes.to_vec(),
        size: 500,
    };
    assert!(remote_preview("a", &resp(b"x", false)).is_none());
    match remote_preview("a", &resp(b"one\ntwo", true)).unwrap().body {
        PreviewBody::Text { lines, .. } => assert_eq!(lines, vec!["one", "two"]),
        other => panic!("expected Text, got {other:?}"),
    }
    match remote_preview("a", &resp(b"o\x00e", true)).unwrap().body {
        PreviewBody::Binary(info) => {
            assert!(matches!(info.reason, BinaryReason::NullBytes));
            assert_eq!(info.bytes_on_disk, 500);
        }
        other => panic!("expected a card, got {other:?}"),
    }
    match remote_preview("a", &resp(b"", true)).unwrap().body {
        PreviewBody::Binary(info) => assert!(matches!(info.reason, BinaryReason::Empty)),
        other => panic!("expected a card, got {other:?}"),
    }
}
