use crate::display::FrameBufferInfo;
use crate::fb::fill_zero;
use crate::late_init::{after_init, LateInit};
use vstd::prelude::*;

verus! {

/// A handle for drawing onto the framebuffer that was installed.
pub struct FrameBufferWriter {
    pub info: FrameBufferInfo,
}

impl FrameBufferWriter {
    /// The size of the drawing area: width and height, cast to `u32`.
    pub fn size(&self) -> (s: (u32, u32))
        ensures
            s == (self.info.width as u32, self.info.height as u32),
    {
        (self.info.width as u32, self.info.height as u32)
    }
}

/// The framebuffer slot of the kernel: empty until the bootloader's
/// framebuffer is installed.
pub struct FrameBuffer {
    cell: LateInit<FrameBufferInfo>,
}

impl View for FrameBuffer {
    type V = Option<FrameBufferInfo>;

    /// The layout of the installed framebuffer, if one was installed.
    closed spec fn view(&self) -> Option<FrameBufferInfo> {
        self.cell@
    }
}

impl FrameBuffer {
    /// An empty slot.
    pub fn new() -> (f: Self)
        ensures
            f@ == None::<FrameBufferInfo>,
    {
        FrameBuffer { cell: LateInit::new() }
    }

    /// Installs a framebuffer; a later call leaves the first one in place.
    pub fn init(&mut self, info: FrameBufferInfo)
        ensures
            final(self)@ == after_init(old(self)@, info),
    {
        self.cell.init(info);
    }

    /// A writer for the installed framebuffer; one must have been installed.
    pub fn get(&self) -> (w: FrameBufferWriter)
        requires
            self@.is_some(),
        ensures
            w.info == self@.unwrap(),
    {
        FrameBufferWriter { info: *self.cell.get() }
    }
}

/// Blanks the framebuffer memory, then installs the framebuffer in `slot`
/// (a framebuffer installed earlier stays). Its pixel format must be known.
pub fn init_framebuffer(slot: &mut FrameBuffer, buffer: &mut [u8], info: FrameBufferInfo)
    requires
        !(info.pixel_format is Unknown),
    ensures
        final(buffer)@ == Seq::new(old(buffer)@.len(), |i: int| 0u8),
        final(slot)@ == after_init(old(slot)@, info),
{
    fill_zero(buffer);
    slot.init(info);
}

} // verus!
