use kernel::display::{gray8_luma, rgb888_storage, FrameBufferInfo, Pixel, PixelFormat, Rgb888};
use kernel::fb::{fill_zero, init_framebuffer, pixel_offset_fits, FrameBufferWriter};
use kernel::framebuffer::{self, select_mode, ModeInfo};
use kernel::late_init::LateInit;

fn info(format: PixelFormat, stride: usize, byte_len: usize) -> FrameBufferInfo {
    FrameBufferInfo { byte_len, width: stride, height: 2, pixel_format: format, bytes_per_pixel: 4, stride }
}

fn px(x: i32, y: i32, r: u8, g: u8, b: u8) -> Pixel {
    Pixel { x, y, color: Rgb888::new(r, g, b) }
}

#[test]
fn storage_word_of_rgb888() {
    assert_eq!(rgb888_storage(Rgb888::new(0xAA, 0xBB, 0xCC)), 0x00AA_BBCC);
    assert_eq!(rgb888_storage(Rgb888::white()), 0x00FF_FFFF);
}

#[test]
fn luma_of_colours() {
    assert_eq!(gray8_luma(Rgb888::white()), 255);
    assert_eq!(gray8_luma(Rgb888::black()), 0);
    assert_eq!(gray8_luma(Rgb888::new(255, 0, 0)), 77);
    assert_eq!(gray8_luma(Rgb888::new(0, 255, 0)), 149);
}

#[test]
fn rgb_pixel_bytes() {
    let w = FrameBufferWriter { info: info(PixelFormat::Rgb, 2, 16) };
    let mut buf = vec![0u8; 16];
    w.draw_iter(&mut buf, &[px(1, 0, 1, 2, 3)]);
    assert_eq!(buf, vec![0, 0, 0, 0, 3, 2, 1, 0, 0, 0, 0, 0, 0, 0, 0, 0]);
}

#[test]
fn bgr_pixel_bytes() {
    let w = FrameBufferWriter { info: info(PixelFormat::Bgr, 2, 16) };
    let mut buf = vec![0u8; 16];
    w.draw_iter(&mut buf, &[px(0, 1, 1, 2, 3)]);
    assert_eq!(buf, vec![0, 0, 0, 0, 0, 0, 0, 0, 0, 1, 2, 3, 0, 0, 0, 0]);
}

#[test]
fn grey_pixel_byte() {
    let w = FrameBufferWriter { info: info(PixelFormat::U8, 2, 4) };
    let mut buf = vec![0u8; 4];
    w.draw_iter(&mut buf, &[px(1, 1, 255, 255, 255)]);
    assert_eq!(buf, vec![0, 0, 0, 255]);
}

#[test]
fn pixels_outside_the_buffer_are_dropped() {
    let w = FrameBufferWriter { info: info(PixelFormat::Rgb, 2, 8) };
    let mut buf = vec![5u8; 8];
    w.draw_iter(&mut buf, &[px(-1, 0, 1, 2, 3), px(0, 1, 1, 2, 3), px(2, 5, 9, 9, 9)]);
    assert_eq!(buf, vec![5u8; 8]);
}

#[test]
fn pixels_outside_the_drawing_area_are_discarded() {
    // a line of 3 pixels in memory, of which 2 are shown
    let i = FrameBufferInfo { byte_len: 24, width: 2, height: 2, pixel_format: PixelFormat::Rgb, bytes_per_pixel: 4, stride: 3 };
    let w = FrameBufferWriter { info: i };
    let mut buf = vec![0u8; 24];
    w.draw_iter(&mut buf, &[px(2, 0, 1, 1, 1), px(0, 2, 1, 1, 1), px(0, -1, 1, 1, 1), px(1, 1, 7, 8, 9)]);
    let mut expected = vec![0u8; 24];
    expected[16..20].copy_from_slice(&[9, 8, 7, 0]);
    assert_eq!(buf, expected);
}

#[test]
fn huge_offsets_outside_the_area_are_discarded() {
    let w = FrameBufferWriter { info: info(PixelFormat::U8, 2, 4) };
    let mut buf = vec![0u8; 4];
    w.draw_iter(&mut buf, &[px(i32::MAX, i32::MAX, 1, 1, 1)]);
    assert_eq!(buf, vec![0u8; 4]);
}

#[test]
fn later_init_keeps_the_first_framebuffer() {
    let mut buf = vec![7u32; 4];
    let mut slot = LateInit::new();
    framebuffer::init(&mut slot, &mut buf, ModeInfo { width: 1, height: 1 });
    assert_eq!(buf, vec![0, 7, 7, 7]);
    framebuffer::init(&mut slot, &mut buf, ModeInfo { width: 2, height: 2 });
    assert_eq!(buf, vec![0, 7, 7, 7]);
    assert_eq!(slot.get().info, ModeInfo { width: 1, height: 1 });
}

#[test]
fn later_pixels_overwrite_earlier_ones() {
    let w = FrameBufferWriter { info: info(PixelFormat::Rgb, 1, 4) };
    let mut buf = vec![0u8; 4];
    w.draw_iter(&mut buf, &[px(0, 0, 1, 1, 1), px(0, 0, 7, 8, 9)]);
    assert_eq!(buf, vec![9, 8, 7, 0]);
}

#[test]
fn unknown_format_with_no_pixels_does_nothing() {
    let f = PixelFormat::Unknown { red_position: 1, green_position: 2, blue_position: 3 };
    let w = FrameBufferWriter { info: info(f, 1, 4) };
    let mut buf = vec![1u8; 4];
    w.draw_iter(&mut buf, &[]);
    assert_eq!(buf, vec![1u8; 4]);
}

#[test]
fn init_blanks_the_framebuffer() {
    let mut buf = vec![0xFFu8; 12];
    let i = info(PixelFormat::Rgb, 3, 12);
    let fb = init_framebuffer(&mut buf, i);
    assert_eq!(buf, vec![0u8; 12]);
    assert_eq!(fb.info, i);
    assert_eq!(fb.fb.size(), (3, 2));
    let mut other = vec![3u8; 3];
    fill_zero(&mut other);
    assert_eq!(other, vec![0u8; 3]);
}

#[test]
fn mode_selection_takes_first_largest() {
    assert_eq!(select_mode(&[(800, 600), (1024, 768), (1024, 768), (640, 480)]), 1);
    assert_eq!(select_mode(&[(1024, 600), (1024, 768), (800, 1200)]), 1);
    assert_eq!(select_mode(&[(320, 200)]), 0);
}

#[test]
fn uefi_draw_skips_off_screen_pixels() {
    let fb = framebuffer::FrameBuffer { info: ModeInfo { width: 2, height: 2 } };
    let mut buf = vec![0u32; 5];
    fb.draw_iter(&mut buf, &[px(1, 1, 0, 0, 1), px(2, 0, 1, 1, 1), px(0, -1, 1, 1, 1), px(0, 1, 0x12, 0x34, 0x56)]);
    assert_eq!(buf, vec![0, 0, 0x12_3456, 1, 0]);
}

#[test]
fn uefi_init_clears_to_black() {
    let mut buf = vec![7u32; 5];
    let mut slot = LateInit::new();
    framebuffer::init(&mut slot, &mut buf, ModeInfo { width: 2, height: 2 });
    assert_eq!(buf, vec![0, 0, 0, 0, 7]);
    let fb = *slot.get();
    fb.clear(&mut buf, Rgb888::white());
    assert_eq!(buf, vec![0xFF_FFFF, 0xFF_FFFF, 0xFF_FFFF, 0xFF_FFFF, 7]);
    assert_eq!(fb.info.resolution(), (2, 2));
}

#[test]
fn offset_overflow_check() {
    assert!(pixel_offset_fits(px(3, 4, 0, 0, 0), 1024));
    assert!(!pixel_offset_fits(px(0, 1 << 20, 0, 0, 0), 1 << 12));
    assert!(!pixel_offset_fits(px(i32::MAX, 1, 0, 0, 0), 1));
    assert!(pixel_offset_fits(px(i32::MAX, 0, 0, 0, 0), 1));
}

#[test]
fn swapping_twice_restores_the_word() {
    let w = rgb888_storage(Rgb888::new(1, 2, 3));
    assert_eq!(w.swap_bytes(), 0x0302_0100);
    assert_eq!(w.swap_bytes().swap_bytes(), w);
}

#[test]
fn uefi_screen_size() {
    let fb = framebuffer::FrameBuffer { info: ModeInfo { width: 1280, height: 800 } };
    assert_eq!(fb.size(), (1280, 800));
}

#[test]
fn uefi_index_overflow_check() {
    let fb = framebuffer::FrameBuffer { info: ModeInfo { width: 1 << 20, height: 1 << 20 } };
    assert!(fb.index_fits(px(5, 5, 0, 0, 0)));
    assert!(!fb.index_fits(px(0, 1 << 12, 0, 0, 0)));
    // off-screen pixels are never indexed
    assert!(fb.index_fits(px(-1, 1 << 19, 0, 0, 0)));
}

#[test]
fn whole_string_cursor_run() {
    // "ab\nc" from (15, 30) on an 800 pixel wide screen, 16 pixels per glyph
    let mut slot = kernel::late_init::LateInit::new();
    kernel::log::init(&mut slot);
    let l = slot.get_mut();
    for c in "ab\nc".chars() {
        if let kernel::log::Placement::Glyph { at, .. } = l.place_char(c, 800) {
            l.advance_to(kernel::display::Point::new(at.x + 16, at.y));
        }
    }
    assert_eq!(l.next_char(), kernel::display::Point::new(31, 56));
}
