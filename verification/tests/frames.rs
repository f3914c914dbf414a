use rust_virtual_camera::frames::frame_byte_count;
use rust_virtual_camera::config::CameraConfig;
use rust_virtual_camera::frames::{
    bgra_from_rgb, bgra_to_bgr, solid_frame, swap_red_blue, test_pattern_frame,
};
use rust_virtual_camera::color::ColorError;
use rust_virtual_camera::mirror::mirror_bgra;

fn config(width: u32, height: u32) -> CameraConfig {
    let mut config = CameraConfig::default();
    config.width = width;
    config.height = height;
    config
}

fn pixel(frame: &[u8], width: u32, x: u32, y: u32) -> [u8; 4] {
    let at = ((y * width + x) * 4) as usize;
    [frame[at], frame[at + 1], frame[at + 2], frame[at + 3]]
}

#[test]
fn directshow_sender_accepts_bgra_frame() {
    let mut config = CameraConfig::default();
    config.backend = "directshow".into();
    config.width = 640;
    config.height = 480;
    let frame = solid_frame(&config).expect("solid BGRA frame");
    let mut bgr = Vec::new();
    bgra_to_bgr(&frame, &mut bgr);
    assert_eq!(bgr.len(), 640 * 480 * 3);
}

#[test]
fn solid_frame_repeats_the_colour_as_bgra() {
    let mut config = config(2, 2);
    config.color = "#102030".into();
    let frame = solid_frame(&config).unwrap();
    assert_eq!(frame, vec![0x30, 0x20, 0x10, 255].repeat(4));
}

#[test]
fn solid_frame_reports_a_bad_colour() {
    let mut config = config(2, 2);
    config.color = "#10203".into();
    assert_eq!(solid_frame(&config), Err(ColorError::Format));
    config.color = "#1020zz".into();
    assert_eq!(solid_frame(&config), Err(ColorError::InvalidDigit));
}

#[test]
fn solid_frame_ignores_mirroring() {
    let mut config = config(3, 2);
    config.color = "#abcdef".into();
    let plain = solid_frame(&config).unwrap();
    let mut flipped = plain.clone();
    mirror_bgra(&mut flipped, 3, 2);
    assert_eq!(plain, flipped);
}

#[test]
fn test_pattern_draws_bars_scan_line_and_checkerboard() {
    let config = config(16, 8);
    let mut frame = vec![7u8; 16 * 8 * 4 + 3];
    test_pattern_frame(&config, 0, &mut frame);
    // scan line at column 0 covers columns 0 to 4
    assert_eq!(pixel(&frame, 16, 4, 0), [255, 255, 255, 255]);
    // column 10 lies in bar 10 * 8 / 16 = 5: red (235, 16, 16)
    assert_eq!(pixel(&frame, 16, 10, 0), [16, 16, 235, 255]);
    // column 15 lies in the last bar (20, 20, 24)
    assert_eq!(pixel(&frame, 16, 15, 3), [24, 20, 20, 255]);
    // row 7 lies below three quarters of the height: checkerboard (34, 36, 44)
    assert_eq!(pixel(&frame, 16, 10, 7), [44, 36, 34, 255]);
    // bytes past the frame are untouched
    assert_eq!(&frame[16 * 8 * 4..], &[7, 7, 7]);
}

#[test]
fn test_pattern_scan_line_moves_eight_columns_per_frame() {
    let config = config(64, 4);
    let mut frame = vec![0u8; 64 * 4 * 4];
    test_pattern_frame(&config, 3, &mut frame);
    // frame 3: scan line at column 24, so columns 20 to 28 are white
    assert_eq!(pixel(&frame, 64, 20, 1), [255, 255, 255, 255]);
    assert_eq!(pixel(&frame, 64, 28, 1), [255, 255, 255, 255]);
    // column 19 is in bar 19 * 8 / 64 = 2: (16, 235, 235)
    assert_eq!(pixel(&frame, 64, 19, 1), [235, 235, 16, 255]);
    // and column 0 is in bar 0
    assert_eq!(pixel(&frame, 64, 0, 1), [235, 235, 235, 255]);
}

#[test]
fn mirrored_pattern_is_the_pattern_flipped() {
    let plain_config = config(40, 12);
    let mut mirrored_config = config(40, 12);
    mirrored_config.mirror = true;
    let mut plain = vec![0u8; 40 * 12 * 4];
    let mut mirrored = vec![0u8; 40 * 12 * 4];
    test_pattern_frame(&plain_config, 2, &mut plain);
    test_pattern_frame(&mirrored_config, 2, &mut mirrored);
    mirror_bgra(&mut plain, 40, 12);
    assert_eq!(plain, mirrored);
}

#[test]
fn mirror_flips_rows_and_keeps_the_tail() {
    let mut frame: Vec<u8> = (0..3 * 2 * 4).map(|b| b as u8).collect();
    frame.push(99);
    mirror_bgra(&mut frame, 3, 2);
    assert_eq!(
        frame,
        vec![8, 9, 10, 11, 4, 5, 6, 7, 0, 1, 2, 3, 20, 21, 22, 23, 16, 17, 18, 19, 12, 13, 14, 15, 99]
    );
    mirror_bgra(&mut frame, 3, 2);
    let mut original: Vec<u8> = (0..24).map(|b| b as u8).collect();
    original.push(99);
    assert_eq!(frame, original);
}

#[test]
fn rgb_image_becomes_opaque_bgra() {
    let rgb = [1, 2, 3, 4, 5, 6, 7, 8, 9, 10, 11, 12];
    assert_eq!(
        bgra_from_rgb(&rgb, 2, 2, false),
        vec![3, 2, 1, 255, 6, 5, 4, 255, 9, 8, 7, 255, 12, 11, 10, 255]
    );
    assert_eq!(
        bgra_from_rgb(&rgb, 2, 2, true),
        vec![6, 5, 4, 255, 3, 2, 1, 255, 12, 11, 10, 255, 9, 8, 7, 255]
    );
}

#[test]
fn bgr_conversion_drops_alpha_and_partial_pixels() {
    let frame = [1, 2, 3, 4, 5, 6, 7, 8, 9, 10];
    let mut bgr = vec![42, 42];
    bgra_to_bgr(&frame, &mut bgr);
    assert_eq!(bgr, vec![1, 2, 3, 5, 6, 7]);
}

#[test]
fn red_and_blue_swap_back() {
    let mut frame = vec![1, 2, 3, 4, 5, 6, 7, 8, 9];
    swap_red_blue(&mut frame);
    assert_eq!(frame, vec![3, 2, 1, 4, 7, 6, 5, 8, 9]);
    swap_red_blue(&mut frame);
    assert_eq!(frame, vec![1, 2, 3, 4, 5, 6, 7, 8, 9]);
}

#[test]
fn frame_byte_count_detects_overflow() {
    assert_eq!(frame_byte_count(1280, 720), Some(1280 * 720 * 4));
    assert_eq!(frame_byte_count(0x8000, 0x8000), None);
    assert_eq!(frame_byte_count(0x4000, 0xffff), Some(0x4000 * 0xffff * 4));
}
