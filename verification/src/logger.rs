use crate::display::Point;
use embedded_graphics::mono_font::MonoTextStyle;
use embedded_graphics::text::renderer::TextRenderer;
use embedded_graphics::text::Baseline;
use vstd::prelude::*;
use vstd::string::*;

verus! {

/// The severity of a log record.
#[derive(Clone, Copy, Debug, PartialEq, Eq, Structural)]
pub enum Level {
    Error,
    Warn,
    Info,
    Debug,
    Trace,
}

/// The most verbose level that is let through.
#[derive(Clone, Copy, Debug, PartialEq, Eq, Structural)]
pub enum LevelFilter {
    Off,
    Error,
    Warn,
    Info,
    Debug,
    Trace,
}

/// The name under which a level is printed.
pub open spec fn level_label(level: Level) -> Seq<char> {
    match level {
        Level::Error => seq!['E', 'R', 'R', 'O', 'R'],
        Level::Warn => seq!['W', 'A', 'R', 'N'],
        Level::Info => seq!['I', 'N', 'F', 'O'],
        Level::Debug => seq!['D', 'E', 'B', 'U', 'G'],
        Level::Trace => seq!['T', 'R', 'A', 'C', 'E'],
    }
}

/// Calls `log::Level::as_str`, which names the levels "ERROR", "WARN",
/// "INFO", "DEBUG" and "TRACE".
#[verifier::external_body]
fn level_name(level: Level) -> (s: &'static str)
    ensures
        s@ == level_label(level),
{
    let level = match level {
        Level::Error => ::log::Level::Error,
        Level::Warn => ::log::Level::Warn,
        Level::Info => ::log::Level::Info,
        Level::Debug => ::log::Level::Debug,
        Level::Trace => ::log::Level::Trace,
    };
    level.as_str()
}

/// The `log` facade's global maximum level, as a value the contracts can
/// follow. It is changed only through `set_facade_max_level`.
pub struct LogFacade {
    level: Ghost<LevelFilter>,
}

impl LogFacade {
    /// The facade's current maximum level.
    pub closed spec fn max_level(&self) -> LevelFilter {
        self.level@
    }

    /// The facade as it stands when the program starts: the `log` crate
    /// starts with its maximum level at `Off`.
    pub fn new() -> (f: Self)
        ensures
            f.max_level() == LevelFilter::Off,
    {
        LogFacade { level: Ghost(LevelFilter::Off) }
    }
}

/// Calls `log::set_max_level`, which makes `filter` the global maximum
/// level of the `log` facade.
#[verifier::external_body]
fn set_facade_max_level(facade: &mut LogFacade, filter: LevelFilter)
    ensures
        final(facade).max_level() == filter,
{
    let level = match filter {
        LevelFilter::Off => ::log::LevelFilter::Off,
        LevelFilter::Error => ::log::LevelFilter::Error,
        LevelFilter::Warn => ::log::LevelFilter::Warn,
        LevelFilter::Info => ::log::LevelFilter::Info,
        LevelFilter::Debug => ::log::LevelFilter::Debug,
        LevelFilter::Trace => ::log::LevelFilter::Trace,
    };
    ::log::set_max_level(level);
}

/// Finishes setting up logging once the kernel's logger has been handed to
/// the `log` facade: every level, up to `Trace`, is let through from now on.
pub fn init(facade: &mut LogFacade)
    ensures
        final(facade).max_level() == LevelFilter::Trace,
{
    set_facade_max_level(facade, LevelFilter::Trace);
}

/// The line printed for a log record: `[LEVEL] message` and a line feed.
pub open spec fn record_line(level: Level, message: Seq<char>) -> Seq<char> {
    seq!['['] + level_label(level) + seq![']', ' '] + message + seq!['\n']
}

/// The kernel's logger: every record is printed to the consoles.
pub struct Logger;

impl Logger {
    /// Every record is enabled.
    pub fn enabled(&self, level: Level) -> (b: bool)
        ensures
            b,
    {
        true
    }

    /// The text printed for a record of `level` whose formatted arguments are
    /// `message`.
    pub fn log(&self, level: Level, message: &str) -> (line: String)
        ensures
            line@ == record_line(level, message@),
    {
        proof {
            reveal_strlit("[");
            reveal_strlit("] ");
            reveal_strlit("\n");
        }
        let mut line = String::from_str("[");
        line.append(level_name(level));
        line.append("] ");
        line.append(message);
        line.append("\n");
        line
    }

    /// Log records need no flushing.
    pub fn flush(&self) {
    }
}

/// The width of a glyph of the 18 point ProFont, in pixels.
pub open spec fn glyph_width() -> int {
    12
}

/// Calls `MonoTextStyle::measure_string` for the one-character string
/// `glyph` in the 18 point ProFont, placed at `at` with its bottom edge as the
/// baseline. The next position is `at` moved right by the glyph width (12
/// pixels, no spacing); on the way the baseline offset (21 pixels) is
/// subtracted from `y`, which must not overflow.
#[verifier::external_body]
fn measure_glyph(glyph: char, at: Point) -> (next: Point)
    requires
        at.x + 12 <= i32::MAX,
        at.y - 21 >= i32::MIN,
    ensures
        next == (Point { x: (at.x + 12) as i32, y: at.y }),
{
    let style = MonoTextStyle::new(
        &profont::PROFONT_18_POINT,
        embedded_graphics::pixelcolor::Rgb888::new(255, 255, 255),
    );
    let mut bytes = [0u8; 4];
    let text: &str = glyph.encode_utf8(&mut bytes);
    let next = style.measure_string(
        text,
        embedded_graphics::prelude::Point::new(at.x, at.y),
        Baseline::Bottom,
    ).next_position;
    Point { x: next.x, y: next.y }
}

/// What the text writer does for one character before drawing it.
#[derive(Clone, Copy, Debug, PartialEq, Eq, Structural)]
pub struct GlyphStep {
    /// The screen is cleared first.
    pub clear: bool,
    /// The character to draw.
    pub glyph: char,
    /// Where to draw it; the position after it is handed back with
    /// `TextWriter::finish_char`.
    pub at: Point,
}

/// The cursor after the line-break decision for `c`: a line feed, or a glyph
/// that would end past the right edge, moves it to the start of the next line.
pub open spec fn after_wrap(pos: Point, c: char, width: usize) -> Point {
    if c == '\n' || ((pos.x + glyph_width()) as usize) > width {
        Point { x: 5, y: (pos.y + 26) as i32 }
    } else {
        pos
    }
}

/// The cursor has run past the bottom edge.
pub open spec fn past_bottom(pos: Point, height: usize) -> bool {
    (pos.y as usize) > height
}

/// Where the glyph for `c` is drawn, and where the cursor then stands: after
/// the line-break decision, a cursor past the bottom edge starts again at the
/// top left.
pub open spec fn char_position(pos: Point, c: char, width: usize, height: usize) -> Point {
    let wrapped = after_wrap(pos, c, width);
    if past_bottom(wrapped, height) {
        Point { x: 5, y: 20 }
    } else {
        wrapped
    }
}

/// A glyph is never placed below the bottom edge of a screen at least 20
/// pixels high.
pub proof fn lemma_glyph_on_screen(pos: Point, c: char, width: usize, height: usize)
    requires
        height >= 20,
    ensures
        !past_bottom(char_position(pos, c, width, height), height),
{
    let wrapped = after_wrap(pos, c, width);
    if past_bottom(wrapped, height) {
        assert((20i32 as usize) == 20);
    }
}

/// Where the text writer draws a character, on a screen `width` x `height`
/// pixels, from a cursor with non-negative coordinates that keeps its next
/// line on the screen: in place when the 12-pixel glyph still fits on the
/// line; at the start (x = 5) of the next line, 26 pixels down, for a line
/// feed or a glyph that would not fit; and back at the top left (5, 20) when
/// that next line would start below the bottom edge.
pub proof fn lemma_text_positions(pos: Point, c: char, width: usize, height: usize)
    requires
        0 <= pos.x,
        0 <= pos.y <= height,
        pos.x + 12 <= i32::MAX,
        pos.y + 26 <= i32::MAX,
    ensures
        c != '\n' && pos.x + 12 <= width ==> char_position(pos, c, width, height) == pos,
        (c == '\n' || pos.x + 12 > width) && pos.y + 26 <= height ==> char_position(pos, c, width, height)
            == (Point { x: 5, y: (pos.y + 26) as i32 }),
        (c == '\n' || pos.x + 12 > width) && pos.y + 26 > height ==> char_position(pos, c, width, height)
            == (Point { x: 5, y: 20 }),
{
    assert(((pos.x + 12) as usize) as int == pos.x + 12);
    assert((pos.y as usize) as int == pos.y);
    assert((((pos.y + 26) as i32) as usize) as int == pos.y + 26);
}

/// The text cursor of the framebuffer console.
pub struct TextWriter {
    pos: Point,
}

impl View for TextWriter {
    type V = Point;

    closed spec fn view(&self) -> Point {
        self.pos
    }
}

impl TextWriter {
    /// A writer whose cursor stands at the top left of the screen.
    pub fn new() -> (w: Self)
        ensures
            w@ == (Point { x: 5, y: 20 }),
    {
        TextWriter { pos: Point::new(5, 20) }
    }

    /// The cursor.
    pub fn position(&self) -> (p: Point)
        ensures
            p == self@,
    {
        self.pos
    }

    /// Whether `begin_char(c, width, _)` can be computed without overflowing
    /// `i32`.
    pub fn can_begin_char(&self, c: char, width: usize) -> (b: bool)
        ensures
            b == ((c != '\n' ==> self@.x + 12 <= i32::MAX && self@.y - 21 >= i32::MIN) && ((c == '\n'
                || ((self@.x + glyph_width()) as usize) > width) ==> self@.y + 26 <= i32::MAX)),
    {
        let p = self.pos;
        if c != '\n' && (p.x > i32::MAX - 12 || p.y < i32::MIN + 21) {
            return false;
        }
        let wraps = c == '\n' || (p.x + 12) as usize > width;
        !(wraps && p.y > i32::MAX - 26)
    }

    /// Prepares writing `c` on a screen of `width` x `height` pixels: wraps
    /// the line when `c` is a line feed or its glyph would end past the right
    /// edge, then, when the cursor has run past the bottom edge, asks for the
    /// screen to be cleared and starts again at the top left. The glyph is to
    /// be drawn where the cursor then stands.
    pub fn begin_char(&mut self, c: char, width: usize, height: usize) -> (step: GlyphStep)
        requires
            c != '\n' ==> old(self)@.x + 12 <= i32::MAX && old(self)@.y - 21 >= i32::MIN,
            (c == '\n' || ((old(self)@.x + glyph_width()) as usize) > width) ==> old(self)@.y + 26
                <= i32::MAX,
        ensures
            step == (GlyphStep {
                clear: past_bottom(after_wrap(old(self)@, c, width), height),
                glyph: c,
                at: char_position(old(self)@, c, width, height),
            }),
            final(self)@ == char_position(old(self)@, c, width, height),
    {
        if c == '\n' || measure_glyph(c, self.pos).x as usize > width {
            self.pos = Point::new(5, self.pos.y + 26);
        }
        let clear = self.pos.y as usize > height;
        if clear {
            self.pos = Point::new(5, 20);
        }
        GlyphStep { clear, glyph: c, at: self.pos }
    }

    /// Moves the cursor to where the glyph just drawn ended.
    pub fn finish_char(&mut self, next: Point)
        ensures
            final(self)@ == next,
    {
        self.pos = next;
    }
}

} // verus!
