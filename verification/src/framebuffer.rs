use crate::display::{rgb888_storage, rgb888_word, Pixel, Rgb888};
use crate::late_init::LateInit;
use vstd::prelude::*;

verus! {

/// The resolution of a graphics mode, in pixels.
#[derive(Clone, Copy, Debug, PartialEq, Eq, Structural)]
pub struct ModeInfo {
    pub width: usize,
    pub height: usize,
}

impl ModeInfo {
    /// Width and height.
    pub fn resolution(&self) -> (r: (usize, usize))
        ensures
            r == (self.width, self.height),
    {
        (self.width, self.height)
    }
}

/// Resolutions ordered as tuples: by width, then by height.
pub open spec fn resolution_less(a: (usize, usize), b: (usize, usize)) -> bool {
    a.0 < b.0 || (a.0 == b.0 && a.1 < b.1)
}

fn resolution_lt(a: (usize, usize), b: (usize, usize)) -> (r: bool)
    ensures
        r == resolution_less(a, b),
{
    a.0 < b.0 || (a.0 == b.0 && a.1 < b.1)
}

/// Picks the graphics mode to switch to among modes with the given
/// resolutions: the first one of the largest resolution. There must be at
/// least one mode.
pub fn select_mode(resolutions: &[(usize, usize)]) -> (i: usize)
    requires
        resolutions@.len() > 0,
    ensures
        i < resolutions@.len(),
        forall|j: int|
            0 <= j < resolutions@.len() ==> !resolution_less(resolutions@[i as int], #[trigger] resolutions@[j]),
        forall|j: int| 0 <= j < i ==> resolution_less(#[trigger] resolutions@[j], resolutions@[i as int]),
{
    let mut current: Option<usize> = None;
    let mut k: usize = 0;
    while k < resolutions.len()
        invariant
            k <= resolutions@.len(),
            current is None <==> k == 0,
            current matches Some(i) ==> {
                &&& i < k
                &&& forall|j: int| 0 <= j < k ==> !resolution_less(resolutions@[i as int], #[trigger] resolutions@[j])
                &&& forall|j: int| 0 <= j < i ==> resolution_less(#[trigger] resolutions@[j], resolutions@[i as int])
            },
        decreases resolutions@.len() - k,
    {
        let take = match current {
            None => true,
            Some(i) => resolution_lt(resolutions[i], resolutions[k]),
        };
        if take {
            current = Some(k);
        }
        k = k + 1;
    }
    match current {
        Some(i) => i,
        None => vstd::pervasive::unreached(),
    }
}

/// The pixel lies on the screen of the given resolution (compared in `i32`).
pub open spec fn on_screen(p: Pixel, width: usize, height: usize) -> bool {
    0 <= p.x < (width as i32) && 0 <= p.y < (height as i32)
}

/// The index of an on-screen pixel: `x + y * width`.
pub open spec fn screen_index(p: Pixel, width: usize) -> int {
    p.x + p.y * (width as i32)
}

/// The framebuffer words after drawing `pixels` in order: each pixel on the
/// screen sets its word to the colour's storage word, the others are skipped.
pub open spec fn paint(buf: Seq<u32>, width: usize, height: usize, pixels: Seq<Pixel>) -> Seq<u32>
    decreases pixels.len(),
{
    if pixels.len() == 0 {
        buf
    } else {
        let before = paint(buf, width, height, pixels.drop_last());
        let p = pixels.last();
        if on_screen(p, width, height) {
            before.update(screen_index(p, width), rgb888_word(p.color))
        } else {
            before
        }
    }
}

/// Pixels off the screen are discarded: drawing one changes nothing.
pub proof fn lemma_off_screen_discarded(buf: Seq<u32>, width: usize, height: usize, pixels: Seq<Pixel>, p: Pixel)
    requires
        !on_screen(p, width, height),
    ensures
        paint(buf, width, height, pixels.push(p)) == paint(buf, width, height, pixels),
{
    assert(pixels.push(p).drop_last() =~= pixels);
}

/// A framebuffer found through the firmware's graphics output protocol:
/// one 32-bit word per pixel, rows of `width` pixels.
#[derive(Clone, Copy, Debug)]
pub struct FrameBuffer {
    pub info: ModeInfo,
}

impl FrameBuffer {
    /// Draws `pixels` in order; pixels off the screen are discarded.
    pub fn draw_iter(&self, buffer: &mut [u32], pixels: &[Pixel])
        requires
            self.info.width * self.info.height <= old(buffer)@.len(),
            forall|i: int|
                0 <= i < pixels@.len() && on_screen(#[trigger] pixels@[i], self.info.width, self.info.height)
                    ==> screen_index(pixels@[i], self.info.width) <= i32::MAX,
        ensures
            final(buffer)@ == paint(old(buffer)@, self.info.width, self.info.height, pixels@),
    {
        let (max_x, max_y) = self.info.resolution();
        let mut k: usize = 0;
        while k < pixels.len()
            invariant
                k <= pixels@.len(),
                (max_x, max_y) == (self.info.width, self.info.height),
                max_x * max_y <= buffer@.len(),
                buffer@.len() == old(buffer)@.len(),
                forall|i: int|
                    0 <= i < pixels@.len() && on_screen(#[trigger] pixels@[i], max_x, max_y) ==> screen_index(
                        pixels@[i],
                        max_x,
                    ) <= i32::MAX,
                buffer@ == paint(old(buffer)@, max_x, max_y, pixels@.take(k as int)),
            decreases pixels@.len() - k,
        {
            let p = pixels[k];
            assert(pixels@.take(k + 1).drop_last() =~= pixels@.take(k as int));
            assert(pixels@.take(k + 1).last() == p);
            if p.x < 0 || p.x >= #[verifier::truncate] (max_x as i32) || p.y < 0 || p.y
                >= #[verifier::truncate] (max_y as i32) {
                k = k + 1;
                continue;
            }
            assert(on_screen(pixels@[k as int], max_x, max_y));
            let index = (p.x + p.y * #[verifier::truncate] (max_x as i32)) as usize;
            proof {
                let (wi, hi) = (max_x as i32, max_y as i32);
                assert((max_x as i32) >= 0 ==> ((max_x as i32) as usize) <= max_x) by (bit_vector);
                assert((max_y as i32) >= 0 ==> ((max_y as i32) as usize) <= max_y) by (bit_vector);
                let (x, y, w, h) = (p.x as int, p.y as int, wi as int, hi as int);
                let (fw, fh) = (max_x as int, max_y as int);
                assert(y * w + x < fw * fh) by (nonlinear_arith)
                    requires
                        0 <= x < w <= fw,
                        0 <= y < h <= fh,
                ;
            }
            buffer[index] = rgb888_storage(p.color);
            k = k + 1;
        }
        assert(pixels@.take(k as int) =~= pixels@);
    }

    /// Whether drawing `p` computes its index without overflowing `i32`
    /// (pixels off the screen are never indexed).
    pub fn index_fits(&self, p: Pixel) -> (b: bool)
        ensures
            b == (on_screen(p, self.info.width, self.info.height) ==> screen_index(p, self.info.width)
                <= i32::MAX),
    {
        let w = #[verifier::truncate] (self.info.width as i32);
        let h = #[verifier::truncate] (self.info.height as i32);
        if p.x < 0 || p.x >= w || p.y < 0 || p.y >= h {
            return true;
        }
        match p.y.checked_mul(w) {
            None => false,
            Some(row) => p.x.checked_add(row).is_some(),
        }
    }

    /// The size of the screen: width and height, cast to `u32`.
    pub fn size(&self) -> (s: (u32, u32))
        ensures
            s == (self.info.width as u32, self.info.height as u32),
    {
        (#[verifier::truncate] (self.info.width as u32), #[verifier::truncate] (self.info.height as u32))
    }

    /// Fills the whole screen with `color`: the first `width * height` words
    /// become the colour's storage word, the rest of the buffer is untouched.
    pub fn clear(&self, buffer: &mut [u32], color: Rgb888)
        requires
            self.info.width * self.info.height <= old(buffer)@.len(),
        ensures
            final(buffer)@.len() == old(buffer)@.len(),
            forall|i: int|
                0 <= i < final(buffer)@.len() ==> #[trigger] final(buffer)@[i] == if i < self.info.width
                    * self.info.height {
                    rgb888_word(color)
                } else {
                    old(buffer)@[i]
                },
    {
        let len = buffer.len();
        assert(self.info.width * self.info.height <= len);
        let n = self.info.width * self.info.height;
        let w = rgb888_storage(color);
        let mut i: usize = 0;
        while i < n
            invariant
                n == self.info.width * self.info.height,
                n <= buffer@.len(),
                i <= n,
                w == rgb888_word(color),
                buffer@.len() == old(buffer)@.len(),
                forall|j: int|
                    0 <= j < buffer@.len() ==> #[trigger] buffer@[j] == if j < i {
                        w
                    } else {
                        old(buffer)@[j]
                    },
            decreases n - i,
        {
            buffer[i] = w;
            i = i + 1;
        }
    }
}

/// Sets up the framebuffer of the chosen mode in `slot` and blanks the screen
/// to black. Only the first call takes effect: once a framebuffer is
/// installed, the slot and the screen are left as they are.
pub fn init(slot: &mut LateInit<FrameBuffer>, buffer: &mut [u32], mode: ModeInfo)
    requires
        old(slot)@ is None ==> mode.width * mode.height <= old(buffer)@.len(),
    ensures
        old(slot)@ is Some ==> final(slot)@ == old(slot)@ && final(buffer)@ == old(buffer)@,
        old(slot)@ is None ==> {
            &&& final(slot)@ == Some(FrameBuffer { info: mode })
            &&& final(buffer)@.len() == old(buffer)@.len()
            &&& forall|i: int|
                0 <= i < final(buffer)@.len() ==> #[trigger] final(buffer)@[i] == if i < mode.width
                    * mode.height {
                    0u32
                } else {
                    old(buffer)@[i]
                }
        },
{
    if slot.is_initialized() {
        return ;
    }
    let fb = FrameBuffer { info: mode };
    fb.clear(buffer, Rgb888::black());
    slot.init(fb);
}

/// Drawing one pixel on the screen sets exactly the word `x + y * width` (rows
/// lie `width` words apart) to the colour's storage word
/// `red << 16 | green << 8 | blue`, and leaves every other word as it was.
pub proof fn lemma_pixel_word(buf: Seq<u32>, width: usize, height: usize, p: Pixel)
    requires
        width <= i32::MAX,
        height <= i32::MAX,
        0 <= p.x < width,
        0 <= p.y < height,
        width * height <= buf.len(),
    ensures
        ({
            let out = paint(buf, width, height, seq![p]);
            let i = p.x + p.y * width;
            &&& out.len() == buf.len()
            &&& 0 <= i < buf.len()
            &&& out[i] == p.color.r as int * 0x10000 + p.color.g as int * 0x100 + p.color.b as int
            &&& forall|j: int| 0 <= j < buf.len() && j != i ==> out[j] == buf[j]
        }),
{
    let pixels = seq![p];
    assert(pixels.drop_last() =~= Seq::<Pixel>::empty());
    assert(pixels.last() == p);
    assert(paint(buf, width, height, pixels.drop_last()) == buf);
    assert((width as i32) as int == width as int);
    assert((height as i32) as int == height as int);
    assert(on_screen(p, width, height));
    let (x, y, w, h) = (p.x as int, p.y as int, width as int, height as int);
    assert(y * w + x < w * h) by (nonlinear_arith)
        requires
            0 <= x < w,
            0 <= y < h,
    ;
    assert(0 <= y * w) by (nonlinear_arith)
        requires
            0 <= y,
            0 <= w,
    ;
    assert(screen_index(p, width) == x + y * w);
    let c = p.color;
    assert(c.r as int * 0x10000 + c.g as int * 0x100 + c.b as int <= 0xff_ffff);
    assert(rgb888_word(c) as int == c.r as int * 0x10000 + c.g as int * 0x100 + c.b as int);
}

/// A pixel off the screen (`x < 0`, `x >= width`, `y < 0` or `y >= height`)
/// leaves every word as it was.
pub proof fn lemma_off_screen_untouched(buf: Seq<u32>, width: usize, height: usize, p: Pixel)
    requires
        p.x < 0 || p.x >= (width as i32) || p.y < 0 || p.y >= (height as i32),
    ensures
        paint(buf, width, height, seq![p]) == buf,
{
    let pixels = seq![p];
    assert(pixels.drop_last() =~= Seq::<Pixel>::empty());
    assert(pixels.last() == p);
    assert(paint(buf, width, height, pixels.drop_last()) == buf);
}

/// Modes are ordered by width first; between modes of the same width, by
/// height. So the chosen mode is at least as wide as every other, and at least
/// as tall as every other of its width.
pub proof fn lemma_mode_order(resolutions: Seq<(usize, usize)>, i: int)
    requires
        0 <= i < resolutions.len(),
        forall|j: int| 0 <= j < resolutions.len() ==> !resolution_less(resolutions[i], #[trigger] resolutions[j]),
    ensures
        forall|j: int| 0 <= j < resolutions.len() ==> #[trigger] resolutions[j].0 <= resolutions[i].0,
        forall|j: int|
            0 <= j < resolutions.len() && #[trigger] resolutions[j].0 == resolutions[i].0 ==> resolutions[j].1
                <= resolutions[i].1,
{
    assert forall|j: int| 0 <= j < resolutions.len() implies #[trigger] resolutions[j].0 <= resolutions[i].0 by {
        assert(!resolution_less(resolutions[i], resolutions[j]));
    }
    assert forall|j: int|
        0 <= j < resolutions.len() && #[trigger] resolutions[j].0 == resolutions[i].0 implies resolutions[j].1
        <= resolutions[i].1 by {
        assert(!resolution_less(resolutions[i], resolutions[j]));
    }
}

/// Drawing `a` then `b` is drawing `a ++ b`.
pub proof fn lemma_paint_concat(buf: Seq<u32>, width: usize, height: usize, a: Seq<Pixel>, b: Seq<Pixel>)
    ensures
        paint(buf, width, height, a + b) == paint(paint(buf, width, height, a), width, height, b),
    decreases b.len(),
{
    if b.len() == 0 {
        assert(a + b =~= a);
    } else {
        lemma_paint_concat(buf, width, height, a, b.drop_last());
        assert((a + b).drop_last() =~= a + b.drop_last());
        assert((a + b).last() == b.last());
    }
}

} // verus!
