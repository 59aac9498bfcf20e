use kernel::graphical::{init_framebuffer, FrameBuffer};
use kernel::display::{FrameBufferInfo, PixelFormat};
use kernel::late_init::{test_late_init, test_late_init_mutability, LateInit};

#[test]
fn late_init_reads_stored_value() {
    assert_eq!(test_late_init(), 42);
}

#[test]
fn late_init_write_through_get_mut() {
    assert_eq!(test_late_init_mutability(), 43);
}

#[test]
fn late_init_starts_empty() {
    let x = LateInit::<i32>::new();
    assert!(!x.is_initialized());
}

#[test]
fn late_init_first_init_wins() {
    let mut x = LateInit::<i32>::new();
    x.init(1);
    x.init(2);
    assert!(x.is_initialized());
    assert_eq!(*x.get(), 1);
}

#[test]
fn late_init_holds_strings() {
    let mut x = LateInit::<String>::new();
    x.init(String::from("fb"));
    x.get_mut().push('!');
    assert_eq!(x.get().as_str(), "fb!");
}

fn info(format: PixelFormat) -> FrameBufferInfo {
    FrameBufferInfo {
        byte_len: 8,
        width: 2,
        height: 1,
        pixel_format: format,
        bytes_per_pixel: 4,
        stride: 2,
    }
}

#[test]
fn graphical_installs_known_format() {
    let mut slot = FrameBuffer::new();
    let mut buffer = vec![9u8; 8];
    init_framebuffer(&mut slot, &mut buffer, info(PixelFormat::Bgr));
    assert_eq!(buffer, vec![0u8; 8]);
    let writer = slot.get();
    assert_eq!(writer.info, info(PixelFormat::Bgr));
    assert_eq!(writer.size(), (2, 1));
    // a second framebuffer does not replace the first
    init_framebuffer(&mut slot, &mut buffer, info(PixelFormat::U8));
    assert_eq!(slot.get().info.pixel_format, PixelFormat::Bgr);
}
