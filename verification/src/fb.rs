use crate::display::{
    gray8_luma, luma, reversed_bytes, rgb888_storage, rgb888_word, FrameBufferInfo, Pixel, PixelFormat,
    Rgb888,
};
use vstd::prelude::*;

verus! {

/// The pixel offset `x + y * stride` that the writer computes in `i32`,
/// with the stride cast to `i32` first.
pub open spec fn pixel_offset(p: Pixel, stride: usize) -> int {
    p.x + p.y * (stride as i32)
}

/// The offset of `p` can be computed without overflowing `i32`.
pub open spec fn offset_fits(p: Pixel, stride: usize) -> bool {
    &&& i32::MIN <= p.y * (stride as i32) <= i32::MAX
    &&& i32::MIN <= pixel_offset(p, stride) <= i32::MAX
}

/// Whether the offset of `p` can be computed without overflowing `i32`.
pub fn pixel_offset_fits(p: Pixel, stride: usize) -> (b: bool)
    ensures
        b == offset_fits(p, stride),
{
    match p.y.checked_mul(stride as i32) {
        None => false,
        Some(row) => p.x.checked_add(row).is_some(),
    }
}

/// The pixel lies inside the drawing area: `0 <= x < width` and
/// `0 <= y < height`, compared in `i32`. Pixels outside it are discarded.
pub open spec fn in_area(p: Pixel, info: FrameBufferInfo) -> bool {
    0 <= p.x < (info.width as i32) && 0 <= p.y < (info.height as i32)
}

/// Whether `p` lies inside the drawing area of `info`.
pub fn in_drawing_area(p: Pixel, info: FrameBufferInfo) -> (b: bool)
    ensures
        b == in_area(p, info),
{
    0 <= p.x && p.x < #[verifier::truncate] (info.width as i32) && 0 <= p.y && p.y
        < #[verifier::truncate] (info.height as i32)
}

/// `buf` with the four bytes of the 32-bit slot `i` replaced by the bytes of
/// `w`, least significant first.
pub open spec fn store_word(buf: Seq<u8>, i: int, w: u32) -> Seq<u8> {
    buf.update(4 * i, (w as int % 0x100) as u8).update(4 * i + 1, (w as int / 0x100 % 0x100) as u8).update(
        4 * i + 2,
        (w as int / 0x10000 % 0x100) as u8,
    ).update(4 * i + 3, (w as int / 0x1000000) as u8)
}

/// What drawing one pixel does to the framebuffer bytes. A pixel outside the
/// drawing area is discarded. Otherwise its offset, cast to `usize`, selects
/// a 32-bit slot (RGB and BGR formats) or a byte (grey format); a pixel whose
/// slot lies outside the buffer is dropped.
pub open spec fn draw_pixel(buf: Seq<u8>, info: FrameBufferInfo, p: Pixel) -> Seq<u8> {
    let idx = pixel_offset(p, info.stride) as usize;
    if !in_area(p, info) {
        buf
    } else {
        match info.pixel_format {
            PixelFormat::Rgb => if idx < buf.len() / 4 {
                store_word(buf, idx as int, rgb888_word(p.color))
            } else {
                buf
            },
            PixelFormat::Bgr => if idx < buf.len() / 4 {
                store_word(buf, idx as int, reversed_bytes(rgb888_word(p.color)))
            } else {
                buf
            },
            PixelFormat::U8 => if idx < buf.len() {
                buf.update(idx as int, luma(p.color))
            } else {
                buf
            },
            PixelFormat::Unknown { .. } => buf,
        }
    }
}

/// The framebuffer bytes after drawing `pixels` in order.
pub open spec fn draw_pixels(buf: Seq<u8>, info: FrameBufferInfo, pixels: Seq<Pixel>) -> Seq<u8>
    decreases pixels.len(),
{
    if pixels.len() == 0 {
        buf
    } else {
        draw_pixel(draw_pixels(buf, info, pixels.drop_last()), info, pixels.last())
    }
}

/// A pixel outside the drawing area leaves the buffer as it was.
pub proof fn lemma_off_area_dropped(buf: Seq<u8>, info: FrameBufferInfo, pixels: Seq<Pixel>, p: Pixel)
    requires
        !in_area(p, info),
    ensures
        draw_pixels(buf, info, pixels.push(p)) == draw_pixels(buf, info, pixels),
{
    assert(pixels.push(p).drop_last() =~= pixels);
}

/// A pixel left of, right of, above or below the drawing area (`x < 0`,
/// `x >= width`, `y < 0` or `y >= height`) leaves the buffer untouched, even
/// where the line's padding up to `stride` lies in the buffer.
pub proof fn lemma_outside_area_untouched(buf: Seq<u8>, info: FrameBufferInfo, p: Pixel)
    requires
        p.x < 0 || p.x >= (info.width as i32) || p.y < 0 || p.y >= (info.height as i32),
    ensures
        draw_pixels(buf, info, seq![p]) == buf,
{
    lemma_draw_one(buf, info, p);
}

/// Drawing `a` then `b` is drawing `a ++ b`: pixels apply in order, and a
/// later pixel on the same slot wins.
pub proof fn lemma_draw_concat(buf: Seq<u8>, info: FrameBufferInfo, a: Seq<Pixel>, b: Seq<Pixel>)
    ensures
        draw_pixels(buf, info, a + b) == draw_pixels(draw_pixels(buf, info, a), info, b),
    decreases b.len(),
{
    if b.len() == 0 {
        assert(a + b =~= a);
    } else {
        lemma_draw_concat(buf, info, a, b.drop_last());
        assert((a + b).drop_last() =~= a + b.drop_last());
        assert((a + b).last() == b.last());
    }
}

/// A pixel whose slot lies outside the buffer leaves the buffer as it was.
pub proof fn lemma_outside_pixel_dropped(buf: Seq<u8>, info: FrameBufferInfo, pixels: Seq<Pixel>, p: Pixel)
    requires
        (pixel_offset(p, info.stride) as usize) >= buf.len(),
    ensures
        draw_pixels(buf, info, pixels.push(p)) == draw_pixels(buf, info, pixels),
{
    assert(pixels.push(p).drop_last() =~= pixels);
    lemma_draw_keeps_length(buf, info, pixels);
}

/// Drawing never changes the size of the framebuffer memory.
pub proof fn lemma_draw_keeps_length(buf: Seq<u8>, info: FrameBufferInfo, pixels: Seq<Pixel>)
    ensures
        draw_pixels(buf, info, pixels).len() == buf.len(),
    decreases pixels.len(),
{
    if pixels.len() > 0 {
        lemma_draw_keeps_length(buf, info, pixels.drop_last());
    }
}

/// The bytes, least significant first, of a colour's storage word and of
/// that word reversed.
proof fn lemma_storage_bytes(c: Rgb888)
    ensures
        rgb888_word(c) as int % 0x100 == c.b,
        rgb888_word(c) as int / 0x100 % 0x100 == c.g,
        rgb888_word(c) as int / 0x10000 % 0x100 == c.r,
        rgb888_word(c) as int / 0x1000000 == 0,
        reversed_bytes(rgb888_word(c)) as int % 0x100 == 0,
        reversed_bytes(rgb888_word(c)) as int / 0x100 % 0x100 == c.r,
        reversed_bytes(rgb888_word(c)) as int / 0x10000 % 0x100 == c.g,
        reversed_bytes(rgb888_word(c)) as int / 0x1000000 == c.b,
{
    let (r, g, b) = (c.r, c.g, c.b);
    let w = rgb888_word(c);
    assert(w == (r as u32) * 0x10000 + (g as u32) * 0x100 + (b as u32));
    let v = reversed_bytes(w);
    assert(w % 0x100 == b as u32 && w / 0x100 % 0x100 == g as u32 && w / 0x10000 % 0x100 == r as u32
        && w / 0x1000000 == 0) by (bit_vector)
        requires
            w == (r as u32) * 0x10000 + (g as u32) * 0x100 + (b as u32),
    ;
    assert(v == ((w % 0x100) * 0x1000000 + (w / 0x100 % 0x100) * 0x10000 + (w / 0x10000 % 0x100)
        * 0x100 + w / 0x1000000) as u32);
    assert(v % 0x100 == 0 && v / 0x100 % 0x100 == r as u32 && v / 0x10000 % 0x100 == g as u32 && v
        / 0x1000000 == b as u32) by (bit_vector)
        requires
            w == (r as u32) * 0x10000 + (g as u32) * 0x100 + (b as u32),
            v == ((w % 0x100) * 0x1000000 + (w / 0x100 % 0x100) * 0x10000 + (w / 0x10000 % 0x100)
                * 0x100 + w / 0x1000000) as u32,
    ;
}

/// In the RGB format a pixel inside the buffer stores its blue, green and red
/// bytes, then a zero byte, in its 32-bit slot.
pub proof fn lemma_rgb_slot_bytes(buf: Seq<u8>, info: FrameBufferInfo, p: Pixel)
    requires
        info.pixel_format == PixelFormat::Rgb,
        in_area(p, info),
        (pixel_offset(p, info.stride) as usize) < buf.len() / 4,
    ensures
        ({
            let i = 4 * (pixel_offset(p, info.stride) as usize);
            let out = draw_pixel(buf, info, p);
            &&& out.len() == buf.len()
            &&& out[i] == p.color.b
            &&& out[i + 1] == p.color.g
            &&& out[i + 2] == p.color.r
            &&& out[i + 3] == 0
        }),
{
    lemma_storage_bytes(p.color);
}

/// In the BGR format a pixel inside the buffer stores a zero byte, then its
/// red, green and blue bytes, in its 32-bit slot.
pub proof fn lemma_bgr_slot_bytes(buf: Seq<u8>, info: FrameBufferInfo, p: Pixel)
    requires
        info.pixel_format == PixelFormat::Bgr,
        in_area(p, info),
        (pixel_offset(p, info.stride) as usize) < buf.len() / 4,
    ensures
        ({
            let i = 4 * (pixel_offset(p, info.stride) as usize);
            let out = draw_pixel(buf, info, p);
            &&& out.len() == buf.len()
            &&& out[i] == 0
            &&& out[i + 1] == p.color.r
            &&& out[i + 2] == p.color.g
            &&& out[i + 3] == p.color.b
        }),
{
    lemma_storage_bytes(p.color);
}

/// Drawing the single pixel `p` is drawing it onto the buffer as it was.
proof fn lemma_draw_one(buf: Seq<u8>, info: FrameBufferInfo, p: Pixel)
    ensures
        draw_pixels(buf, info, seq![p]) == draw_pixel(buf, info, p),
{
    let pixels = seq![p];
    assert(pixels.drop_last() =~= Seq::<Pixel>::empty());
    assert(pixels.last() == p);
    assert(draw_pixels(buf, info, pixels.drop_last()) == buf);
}

/// In the RGB format, drawing one pixel inside the drawing area whose 32-bit
/// slot `x + y * stride` lies in the buffer stores its blue, green and red
/// bytes, then a zero byte, in that slot, and leaves every other byte as it
/// was.
pub proof fn lemma_rgb_pixel_bytes(buf: Seq<u8>, info: FrameBufferInfo, p: Pixel)
    requires
        info.pixel_format == PixelFormat::Rgb,
        buf.len() <= usize::MAX,
        0 <= p.x < (info.width as i32),
        0 <= p.y < (info.height as i32),
        0 <= p.x + p.y * (info.stride as i32),
        4 * (p.x + p.y * (info.stride as i32)) + 4 <= buf.len(),
    ensures
        ({
            let i = 4 * (p.x + p.y * (info.stride as i32));
            let out = draw_pixels(buf, info, seq![p]);
            &&& out.len() == buf.len()
            &&& out[i] == p.color.b
            &&& out[i + 1] == p.color.g
            &&& out[i + 2] == p.color.r
            &&& out[i + 3] == 0
            &&& forall|j: int| 0 <= j < buf.len() && !(i <= j < i + 4) ==> out[j] == buf[j]
        }),
{
    lemma_draw_one(buf, info, p);
    lemma_storage_bytes(p.color);
    let off = p.x + p.y * (info.stride as i32);
    assert((off as usize) as int == off);
    assert((off as usize) < buf.len() / 4);
}

/// In the BGR format, drawing one pixel inside the drawing area whose 32-bit
/// slot `x + y * stride` lies in the buffer stores a zero byte, then its red,
/// green and blue bytes, in that slot, and leaves every other byte as it was.
pub proof fn lemma_bgr_pixel_bytes(buf: Seq<u8>, info: FrameBufferInfo, p: Pixel)
    requires
        info.pixel_format == PixelFormat::Bgr,
        buf.len() <= usize::MAX,
        0 <= p.x < (info.width as i32),
        0 <= p.y < (info.height as i32),
        0 <= p.x + p.y * (info.stride as i32),
        4 * (p.x + p.y * (info.stride as i32)) + 4 <= buf.len(),
    ensures
        ({
            let i = 4 * (p.x + p.y * (info.stride as i32));
            let out = draw_pixels(buf, info, seq![p]);
            &&& out.len() == buf.len()
            &&& out[i] == 0
            &&& out[i + 1] == p.color.r
            &&& out[i + 2] == p.color.g
            &&& out[i + 3] == p.color.b
            &&& forall|j: int| 0 <= j < buf.len() && !(i <= j < i + 4) ==> out[j] == buf[j]
        }),
{
    lemma_draw_one(buf, info, p);
    lemma_storage_bytes(p.color);
    let off = p.x + p.y * (info.stride as i32);
    assert((off as usize) as int == off);
    assert((off as usize) < buf.len() / 4);
}

/// In the grey format, drawing one pixel inside the drawing area whose byte
/// `x + y * stride` lies in the buffer sets exactly that byte to the colour's
/// luma `(77 red + 150 green + 29 blue + 128) / 256`, and leaves every other
/// byte as it was.
pub proof fn lemma_grey_pixel_byte(buf: Seq<u8>, info: FrameBufferInfo, p: Pixel)
    requires
        info.pixel_format == PixelFormat::U8,
        buf.len() <= usize::MAX,
        0 <= p.x < (info.width as i32),
        0 <= p.y < (info.height as i32),
        0 <= p.x + p.y * (info.stride as i32) < buf.len(),
    ensures
        ({
            let i = p.x + p.y * (info.stride as i32);
            let out = draw_pixels(buf, info, seq![p]);
            &&& out.len() == buf.len()
            &&& out[i] == (77 * p.color.r as int + 150 * p.color.g as int + 29 * p.color.b as int + 128)
                / 256
            &&& forall|j: int| 0 <= j < buf.len() && j != i ==> out[j] == buf[j]
        }),
{
    lemma_draw_one(buf, info, p);
    let off = p.x + p.y * (info.stride as i32);
    assert((off as usize) as int == off);
    let c = p.color;
    let v = (77 * c.r as int + 150 * c.g as int + 29 * c.b as int + 128) / 256;
    assert(0 <= v <= 255);
}

/// Writes `w` into the 32-bit slot `index` of `buf`, little-endian, when the
/// slot lies inside the buffer.
fn store_word_at(buf: &mut [u8], index: usize, w: u32)
    ensures
        final(buf)@ == (if index < old(buf)@.len() / 4 {
            store_word(old(buf)@, index as int, w)
        } else {
            old(buf)@
        }),
{
    if index < buf.len() / 4 {
        let base = 4 * index;
        buf[base] = (w % 0x100) as u8;
        buf[base + 1] = (w / 0x100 % 0x100) as u8;
        buf[base + 2] = (w / 0x10000 % 0x100) as u8;
        buf[base + 3] = (w / 0x1000000) as u8;
    }
}

/// Draws onto the framebuffer memory described by `info`.
pub struct FrameBufferWriter {
    pub info: FrameBufferInfo,
}

impl FrameBufferWriter {
    /// Draws `pixels` in order into `buffer`, discarding pixels outside the
    /// drawing area. In the RGB format a pixel's slot
    /// receives the colour's storage word, in the BGR format that word with its
    /// bytes reversed, in the grey format its luma byte; pixels outside the
    /// buffer are dropped. Drawing in an unknown format is not supported.
    pub fn draw_iter(&self, buffer: &mut [u8], pixels: &[Pixel])
        requires
            pixels@.len() > 0 ==> !(self.info.pixel_format is Unknown),
            forall|i: int|
                0 <= i < pixels@.len() && in_area(#[trigger] pixels@[i], self.info) ==> offset_fits(
                    pixels@[i],
                    self.info.stride,
                ),
        ensures
            final(buffer)@ == draw_pixels(old(buffer)@, self.info, pixels@),
    {
        let info = self.info;
        let stride = info.stride as i32;
        let mut i: usize = 0;
        while i < pixels.len()
            invariant
                i <= pixels@.len(),
                info == self.info,
                stride == info.stride as i32,
                pixels@.len() > 0 ==> !(info.pixel_format is Unknown),
                forall|j: int|
                    0 <= j < pixels@.len() && in_area(#[trigger] pixels@[j], info) ==> offset_fits(
                        pixels@[j],
                        info.stride,
                    ),
                buffer@.len() == old(buffer)@.len(),
                buffer@ == draw_pixels(old(buffer)@, info, pixels@.take(i as int)),
            decreases pixels@.len() - i,
        {
            let p = pixels[i];
            assert(pixels@.take(i + 1).drop_last() =~= pixels@.take(i as int));
            if !in_drawing_area(p, info) {
                i = i + 1;
                continue;
            }
            assert(offset_fits(pixels@[i as int], info.stride));
            let index = (p.x + p.y * stride) as usize;
            match info.pixel_format {
                PixelFormat::Rgb => {
                    let w = rgb888_storage(p.color);
                    store_word_at(buffer, index, w);
                },
                PixelFormat::Bgr => {
                    let w = rgb888_storage(p.color).swap_bytes();
                    store_word_at(buffer, index, w);
                },
                PixelFormat::U8 => {
                    let l = gray8_luma(p.color);
                    if index < buffer.len() {
                        buffer[index] = l;
                    }
                },
                PixelFormat::Unknown { .. } => {},
            }
            i = i + 1;
        }
        assert(pixels@.take(i as int) =~= pixels@);
    }

    /// The size of the drawing area: width and height, cast to `u32`.
    pub fn size(&self) -> (s: (u32, u32))
        ensures
            s == (self.info.width as u32, self.info.height as u32),
    {
        (self.info.width as u32, self.info.height as u32)
    }
}

/// A framebuffer ready for drawing: its writer and its layout.
pub struct FrameBuffer {
    pub fb: FrameBufferWriter,
    pub info: FrameBufferInfo,
}

/// Sets every byte of `buffer` to zero.
pub fn fill_zero(buffer: &mut [u8])
    ensures
        final(buffer)@ == Seq::new(old(buffer)@.len(), |i: int| 0u8),
{
    let mut i: usize = 0;
    while i < buffer.len()
        invariant
            i <= buffer@.len(),
            buffer@.len() == old(buffer)@.len(),
            forall|j: int| 0 <= j < i ==> buffer@[j] == 0u8,
        decreases buffer@.len() - i,
    {
        buffer[i] = 0;
        i = i + 1;
    }
    assert(buffer@ =~= Seq::new(old(buffer)@.len(), |i: int| 0u8));
}

/// Blanks the framebuffer memory and wraps it, with its layout, for drawing.
pub fn init_framebuffer(buffer: &mut [u8], info: FrameBufferInfo) -> (fb: FrameBuffer)
    ensures
        final(buffer)@ == Seq::new(old(buffer)@.len(), |i: int| 0u8),
        fb.info == info,
        fb.fb.info == info,
{
    fill_zero(buffer);
    FrameBuffer { fb: FrameBufferWriter { info }, info }
}

} // verus!
