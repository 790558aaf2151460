use omt_send::format::{ColorSpace, Encoding, VideoFormat};
use omt_send::CoreError;

fn fmt(encoding: Encoding, width: i32, height: i32, name: &'static str) -> VideoFormat {
    VideoFormat { encoding, width, height, fps_n: 30, fps_d: 1, name }
}

const BARS: [(u8, u8, u8); 8] = [
    (128, 235, 128),
    (16, 210, 146),
    (166, 170, 16),
    (54, 145, 34),
    (202, 106, 222),
    (90, 81, 240),
    (240, 41, 110),
    (128, 16, 128),
];

#[test]
fn uyvy_payload_size_720p() {
    let f = fmt(Encoding::Uyvy, 1280, 720, "UYVY_720p30");
    assert_eq!(f.buffer_size(), 1_843_200);
    let buf = f.create_test_frame().unwrap();
    assert_eq!(buf.len(), 1_843_200);
}

#[test]
fn uyvy_structure_full_scan() {
    let f = fmt(Encoding::Uyvy, 1280, 720, "UYVY_720p30");
    let buf = f.create_test_frame().unwrap();
    let stride = 2 * 1280usize;
    for r in 0..720usize {
        for p in 0..640usize {
            let x = 2 * p;
            let section = (8 * x) / 1280;
            let (u, y, v) = BARS[section];
            let base = r * stride + 4 * p;
            assert_eq!(buf[base], u);
            assert_eq!(buf[base + 1], y);
            assert_eq!(buf[base + 2], v);
            assert_eq!(buf[base + 3], y);
        }
    }
}

#[test]
fn uyvy_sixteen_wide_is_exact_color_bar_table() {
    // Width 16 puts each column pair in its own section, so the buffer is
    // the bar table verbatim.
    let f = fmt(Encoding::Uyvy, 16, 1, "tiny");
    let buf = f.create_test_frame().unwrap();
    let expected: Vec<u8> = BARS
        .iter()
        .flat_map(|&(u, y, v)| vec![u, y, v, y])
        .collect();
    assert_eq!(buf, expected);
}

#[test]
fn uyvy_odd_width_rejected() {
    let f = fmt(Encoding::Uyvy, 641, 480, "odd");
    assert_eq!(f.create_test_frame(), Err(CoreError::InvalidDimensions));
}

#[test]
fn bgra_payload_size_1080p() {
    let f = fmt(Encoding::Bgra, 1920, 1080, "BGRA_1080p30");
    assert_eq!(f.buffer_size(), 8_294_400);
    let buf = f.create_test_frame().unwrap();
    assert_eq!(buf.len(), 8_294_400);
}

#[test]
fn bgra_gradient_values() {
    let f = fmt(Encoding::Bgra, 1920, 1080, "BGRA_1080p30");
    let buf = f.create_test_frame().unwrap();
    // Pixel (0, 0).
    assert_eq!(&buf[0..4], &[0, 0, 0, 255]);
    // Pixel (1919, 0): B = floor(255*1919/1920) = 254, G = 0,
    // R = floor(255*1919/3000) = 163.
    let base = 4 * 1919;
    assert_eq!(&buf[base..base + 4], &[254, 0, 163, 255]);
    // Pixel (0, 1079): G = floor(255*1079/1080) = 254,
    // R = floor(255*1079/3000) = 91.
    let base = 4 * (1079 * 1920);
    assert_eq!(&buf[base..base + 4], &[0, 254, 91, 255]);
    // Every alpha byte is 255.
    for px in buf.chunks_exact(4) {
        assert_eq!(px[3], 255);
    }
}

#[test]
fn bgra_odd_dimensions_allowed() {
    let f = fmt(Encoding::Bgra, 3, 3, "small");
    let buf = f.create_test_frame().unwrap();
    assert_eq!(buf.len(), 36);
}

#[test]
fn nv12_payload_size_720p() {
    let f = fmt(Encoding::Nv12, 1280, 720, "NV12_720p30");
    assert_eq!(f.buffer_size(), 1_382_400);
    let buf = f.create_test_frame().unwrap();
    assert_eq!(buf.len(), 1_382_400);
}

#[test]
fn nv12_structure() {
    let f = fmt(Encoding::Nv12, 1280, 720, "NV12_720p30");
    let buf = f.create_test_frame().unwrap();
    let y_size = 1280 * 720;
    for (i, &b) in buf.iter().enumerate() {
        if i < y_size {
            assert_eq!(b, 180, "Y plane byte {}", i);
        } else {
            assert_eq!(b, 128, "UV plane byte {}", i);
        }
    }
}

#[test]
fn nv12_odd_dimensions_rejected() {
    let f = fmt(Encoding::Nv12, 640, 481, "oddh");
    assert_eq!(f.create_test_frame(), Err(CoreError::InvalidDimensions));
    let f = fmt(Encoding::Nv12, 641, 480, "oddw");
    assert_eq!(f.create_test_frame(), Err(CoreError::InvalidDimensions));
}

#[test]
fn stride_by_encoding() {
    assert_eq!(fmt(Encoding::Uyvy, 1280, 720, "u").stride(), 2560);
    assert_eq!(fmt(Encoding::Bgra, 1280, 720, "b").stride(), 5120);
    assert_eq!(fmt(Encoding::Nv12, 1280, 720, "n").stride(), 1280);
}

#[test]
fn frame_config_fields() {
    let f = fmt(Encoding::Bgra, 1280, 720, "BGRA_720p30");
    let c = f.frame_config(true);
    assert!(c.alpha);
    assert_eq!(c.stride, 5120);
    assert_eq!(c.data_length, 3_686_400);
    assert_eq!(c.color_space, ColorSpace::Bt709);

    // The alpha flag is honoured only for BGRA.
    let f = fmt(Encoding::Uyvy, 640, 480, "sd");
    let c = f.frame_config(true);
    assert!(!c.alpha);
    assert_eq!(c.color_space, ColorSpace::Bt601);
}
