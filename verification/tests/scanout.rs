use rust_embedded_wgpu::kms::ppm::{ppm_body, ppm_header};
use rust_embedded_wgpu::kms::scanout::{clear, ScanoutLayout, TargetFormat};

#[test]
fn readback_rows_are_rounded_up() {
    let layout = ScanoutLayout::new(64, 3, 300);
    assert_eq!(layout.copy_bpr, 256);
    assert_eq!(layout.readback_size(), 768);
    assert_eq!(ScanoutLayout::new(65, 3, 300).copy_bpr, 512);
    assert_eq!(ScanoutLayout::new(1366, 768, 5464).copy_bpr, 5632);
}

#[test]
fn aligned_dumb_rows_are_matched() {
    let layout = ScanoutLayout::new(1920, 1080, 7680);
    assert_eq!(layout.copy_bpr, 7680);
    assert_eq!(layout.readback_size(), 8_294_400);
    assert_eq!(ScanoutLayout::new(10, 1, 512).copy_bpr, 512);
}

#[test]
fn an_image_has_a_pixel() {
    let layout = ScanoutLayout::new(0, 0, 4);
    assert_eq!((layout.width, layout.height, layout.copy_bpr), (1, 1, 256));
}

#[test]
fn large_images_do_not_overflow() {
    let layout = ScanoutLayout::new(1, u32::MAX, 0xFFFF_FF00);
    assert_eq!(layout.readback_size(), 0xFFFF_FF00u64 * 0xFFFF_FFFFu64);
}

#[test]
fn buffers_that_are_too_small_are_noticed() {
    let layout = ScanoutLayout::new(2, 2, 12);
    assert!(layout.fits(264, 20));
    assert!(!layout.fits(263, 20));
    assert!(!layout.fits(264, 19));
    let layout = ScanoutLayout::new(2, 2, 256);
    assert!(layout.fits(512, 512));
    assert!(!layout.fits(511, 512));
    assert!(!layout.fits(512, 511));
}

fn rendered(layout: &ScanoutLayout) -> Vec<u8> {
    (0..layout.readback_size()).map(|i| (i % 251) as u8).collect()
}

#[test]
fn rgba_is_converted_row_by_row() {
    let layout = ScanoutLayout::new(2, 2, 12);
    let data = rendered(&layout);
    let mut map = vec![0xEE; 24];
    layout.blit(TargetFormat::Rgba8Unorm, &data, &mut map);
    // The second row starts at byte 256, which holds 256 % 251 = 5.
    assert_eq!(map[0..12], [2, 1, 0, 3, 6, 5, 4, 7, 0xEE, 0xEE, 0xEE, 0xEE]);
    assert_eq!(map[12..24], [7, 6, 5, 8, 11, 10, 9, 12, 0xEE, 0xEE, 0xEE, 0xEE]);
}

#[test]
fn bgra_is_copied_row_by_row() {
    let layout = ScanoutLayout::new(2, 2, 12);
    let data = rendered(&layout);
    let mut map = vec![0xEE; 24];
    layout.blit(TargetFormat::Bgra8Unorm, &data, &mut map);
    assert_eq!(map[0..12], [0, 1, 2, 3, 4, 5, 6, 7, 0xEE, 0xEE, 0xEE, 0xEE]);
    assert_eq!(map[12..24], [5, 6, 7, 8, 9, 10, 11, 12, 0xEE, 0xEE, 0xEE, 0xEE]);
}

#[test]
fn equally_long_rows_are_copied_whole() {
    let layout = ScanoutLayout::new(2, 2, 256);
    let data = rendered(&layout);
    let mut map = vec![0xEE; 520];
    layout.blit(TargetFormat::Bgra8Unorm, &data, &mut map);
    assert_eq!(map[..512], data[..512]);
    assert_eq!(map[512..], [0xEE; 8]);
    layout.blit(TargetFormat::Rgba8Unorm, &data, &mut map);
    for p in 0..128 {
        assert_eq!(
            map[4 * p..4 * p + 4],
            [data[4 * p + 2], data[4 * p + 1], data[4 * p], data[4 * p + 3]]
        );
    }
    assert_eq!(map[512..], [0xEE; 8]);
}

#[test]
fn overlapping_rows_keep_the_later_one() {
    let layout = ScanoutLayout::new(2, 2, 4);
    let data = rendered(&layout);
    let mut map = vec![0xEE; 12];
    layout.blit(TargetFormat::Bgra8Unorm, &data, &mut map);
    assert_eq!(map, [0, 1, 2, 3, 5, 6, 7, 8, 9, 10, 11, 12]);
}

#[test]
fn both_formats_show_the_same_color() {
    let layout = ScanoutLayout::new(1, 1, 4);
    let mut data = vec![0u8; 256];
    data[..4].copy_from_slice(&[10, 20, 30, 255]);
    let mut from_rgba = vec![0u8; 4];
    layout.blit(TargetFormat::Rgba8Unorm, &data, &mut from_rgba);
    data[..4].copy_from_slice(&[30, 20, 10, 255]);
    let mut from_bgra = vec![0u8; 4];
    layout.blit(TargetFormat::Bgra8Unorm, &data, &mut from_bgra);
    assert_eq!(from_rgba, [30, 20, 10, 255]);
    assert_eq!(from_bgra, from_rgba);
}

#[test]
fn clearing_leaves_a_broken_pixel() {
    let mut map = vec![1u8; 10];
    clear(&mut map);
    assert_eq!(map, [0x10, 0x10, 0x10, 0xFF, 0x10, 0x10, 0x10, 0xFF, 1, 1]);
    let mut short = vec![1u8; 3];
    clear(&mut short);
    assert_eq!(short, [1, 1, 1]);
}

#[test]
fn headers_are_plain_text() {
    assert_eq!(ppm_header(1920, 1080), b"P6\n1920 1080\n255\n");
    assert_eq!(ppm_header(1, 10), b"P6\n1 10\n255\n");
    assert_eq!(ppm_header(0, u32::MAX), b"P6\n0 4294967295\n255\n");
}

#[test]
fn bodies_hold_red_green_blue() {
    let map = [3, 2, 1, 0, 6, 5, 4, 0, 99, 9, 8, 7, 0, 12, 11, 10, 0];
    assert_eq!(ppm_body(&map, 2, 2, 9), [1, 2, 3, 4, 5, 6, 7, 8, 9, 10, 11, 12]);
}

#[test]
fn a_saved_frame_shows_what_was_rendered() {
    let layout = ScanoutLayout::new(2, 2, 12);
    let mut data = vec![0u8; 512];
    data[..8].copy_from_slice(&[1, 2, 3, 255, 4, 5, 6, 255]);
    data[256..264].copy_from_slice(&[7, 8, 9, 255, 10, 11, 12, 255]);
    let mut map = vec![0u8; 24];
    layout.blit(TargetFormat::Rgba8Unorm, &data, &mut map);
    assert_eq!(ppm_body(&map, 2, 2, 12), [1, 2, 3, 4, 5, 6, 7, 8, 9, 10, 11, 12]);
}
