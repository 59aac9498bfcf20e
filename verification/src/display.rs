use embedded_graphics::pixelcolor::{Gray8, GrayColor, IntoStorage};
use vstd::prelude::*;

verus! {

/// A position on the screen, in pixels; `x` grows to the right, `y` downwards.
#[derive(Clone, Copy, Debug, PartialEq, Eq, Structural)]
pub struct Point {
    pub x: i32,
    pub y: i32,
}

impl Point {
    pub fn new(x: i32, y: i32) -> (p: Point)
        ensures
            p.x == x,
            p.y == y,
    {
        Point { x, y }
    }
}

/// A colour with eight bits per channel.
#[derive(Clone, Copy, Debug, PartialEq, Eq, Structural)]
pub struct Rgb888 {
    pub r: u8,
    pub g: u8,
    pub b: u8,
}

impl Rgb888 {
    pub fn new(r: u8, g: u8, b: u8) -> (c: Rgb888)
        ensures
            c.r == r,
            c.g == g,
            c.b == b,
    {
        Rgb888 { r, g, b }
    }

    pub fn black() -> (c: Rgb888)
        ensures
            c == (Rgb888 { r: 0, g: 0, b: 0 }),
    {
        Rgb888 { r: 0, g: 0, b: 0 }
    }

    pub fn white() -> (c: Rgb888)
        ensures
            c == (Rgb888 { r: 255, g: 255, b: 255 }),
    {
        Rgb888 { r: 255, g: 255, b: 255 }
    }
}

/// One pixel to draw: where, and in which colour.
#[derive(Clone, Copy, Debug, PartialEq, Eq, Structural)]
pub struct Pixel {
    pub x: i32,
    pub y: i32,
    pub color: Rgb888,
}

/// How a pixel is laid out in framebuffer memory.
#[derive(Clone, Copy, Debug, PartialEq, Eq, Structural)]
pub enum PixelFormat {
    Rgb,
    Bgr,
    U8,
    Unknown { red_position: u8, green_position: u8, blue_position: u8 },
}

/// The layout of a linear framebuffer, as the bootloader describes it.
#[derive(Clone, Copy, Debug, PartialEq, Eq, Structural)]
pub struct FrameBufferInfo {
    /// The total size in bytes.
    pub byte_len: usize,
    /// The width in pixels.
    pub width: usize,
    /// The height in pixels.
    pub height: usize,
    pub pixel_format: PixelFormat,
    pub bytes_per_pixel: usize,
    /// Number of pixels between the start of a line and the start of the next.
    pub stride: usize,
}

/// The 24-bit storage word of a colour: red in bits 16..24, green in 8..16,
/// blue in 0..8.
pub open spec fn rgb888_word(c: Rgb888) -> u32 {
    (c.r as int * 0x10000 + c.g as int * 0x100 + c.b as int) as u32
}

/// ITU-R BT.601 luma of a colour, in the fixed-point form
/// `(77 r + 150 g + 29 b + 128) / 256`.
pub open spec fn luma(c: Rgb888) -> u8 {
    ((c.r as int * 77 + c.g as int * 150 + c.b as int * 29 + 128) / 256) as u8
}

/// The word `w` with its four bytes in reverse order.
pub open spec fn reversed_bytes(w: u32) -> u32 {
    ((w as int % 0x100) * 0x1000000 + (w as int / 0x100 % 0x100) * 0x10000 + (w as int / 0x10000
        % 0x100) * 0x100 + w as int / 0x1000000) as u32
}

/// Reversing the byte order twice gives the word back.
pub proof fn lemma_reverse_twice(w: u32)
    ensures
        reversed_bytes(reversed_bytes(w)) == w,
{
    assert(reversed_bytes(reversed_bytes(w)) == w) by (bit_vector);
}

/// Calls `embedded_graphics::pixelcolor::Rgb888::into_storage`: the raw word
/// of an `Rgb888` colour holds red in bits 16..24, green in 8..16 and blue in
/// 0..8.
#[verifier::external_body]
pub fn rgb888_storage(c: Rgb888) -> (w: u32)
    ensures
        w == rgb888_word(c),
{
    embedded_graphics::pixelcolor::Rgb888::new(c.r, c.g, c.b).into_storage()
}

/// Calls `Gray8::from` on an `embedded_graphics` `Rgb888` colour and reads
/// its `luma`: the conversion computes `(77 r + 150 g + 29 b + 128) / 256`.
#[verifier::external_body]
pub fn gray8_luma(c: Rgb888) -> (l: u8)
    ensures
        l == luma(c),
{
    Gray8::from(embedded_graphics::pixelcolor::Rgb888::new(c.r, c.g, c.b)).luma()
}

/// `u32::swap_bytes` reverses the byte order of its argument.
pub assume_specification[ u32::swap_bytes ](w: u32) -> (r: u32)
    ensures
        r == reversed_bytes(w),
;

} // verus!
