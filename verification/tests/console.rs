use kernel::display::Point;
use kernel::log::{self, Placement};
use kernel::late_init::LateInit;
use kernel::logger::{self, GlyphStep, Level, Logger, TextWriter};

fn console() -> LateInit<log::Logger> {
    let mut slot = LateInit::new();
    log::init(&mut slot);
    slot
}

#[test]
fn logger_cursor_starts_at_top_left() {
    let mut c = console();
    let l = c.get_mut();
    assert_eq!(l.next_char(), Point::new(15, 30));
}

#[test]
fn logger_newline_and_margin() {
    let mut c = console();
    let l = c.get_mut();
    l.add_newline();
    assert_eq!(l.next_char(), Point::new(15, 56));
    assert!(!l.is_overflowing(800));
    l.advance_to(Point::new(781, 56));
    assert!(l.is_overflowing(800));
    l.advance_to(Point::new(780, 56));
    assert!(!l.is_overflowing(800));
}

#[test]
fn logger_places_glyphs_and_breaks_lines() {
    let mut c = console();
    let l = c.get_mut();
    assert_eq!(l.place_char('h', 800), Placement::Glyph { ch: 'h', at: Point::new(15, 30) });
    assert_eq!(l.next_char(), Point::new(15, 30));
    l.advance_to(Point::new(31, 30));
    assert_eq!(l.place_char('\n', 800), Placement::NewLine);
    assert_eq!(l.next_char(), Point::new(15, 56));
    l.advance_to(Point::new(790, 56));
    // past the margin the character is dropped and a new line begins
    assert_eq!(l.place_char('x', 800), Placement::NewLine);
    assert_eq!(l.next_char(), Point::new(15, 82));
}

#[test]
fn logger_draws_the_character_itself() {
    let mut c = console();
    let l = c.get_mut();
    assert_eq!(l.place_char('\u{20ac}', 800), Placement::Glyph { ch: '\u{20ac}', at: Point::new(15, 30) });
}

#[test]
fn later_logger_init_keeps_the_cursor() {
    let mut c = console();
    c.get_mut().advance_to(Point::new(99, 99));
    log::init(&mut c);
    assert_eq!(c.get().next_char(), Point::new(99, 99));
}

#[test]
fn logging_init_sets_trace() {
    let mut facade = logger::LogFacade::new();
    logger::init(&mut facade);
    assert_eq!(::log::max_level(), ::log::LevelFilter::Trace);
}

#[test]
fn record_lines() {
    let l = Logger;
    assert!(l.enabled(Level::Trace));
    assert_eq!(l.log(Level::Info, "Hello World!"), "[INFO] Hello World!\n");
    assert_eq!(l.log(Level::Error, "boom"), "[ERROR] boom\n");
    assert_eq!(l.log(Level::Warn, ""), "[WARN] \n");
    assert_eq!(l.log(Level::Debug, "d"), "[DEBUG] d\n");
    assert_eq!(l.log(Level::Trace, "t"), "[TRACE] t\n");
    l.flush();
}

#[test]
fn text_writer_draws_in_place() {
    let mut w = TextWriter::new();
    let step = w.begin_char('a', 800, 600);
    assert_eq!(step, GlyphStep { clear: false, glyph: 'a', at: Point::new(5, 20) });
    w.finish_char(Point::new(17, 20));
    let step = w.begin_char('b', 800, 600);
    assert_eq!(step.at, Point::new(17, 20));
}

#[test]
fn text_writer_wraps_at_right_edge() {
    let mut w = TextWriter::new();
    w.finish_char(Point::new(790, 20));
    // 790 + 12 > 800: the glyph goes to the next line
    let step = w.begin_char('a', 800, 600);
    assert_eq!(step, GlyphStep { clear: false, glyph: 'a', at: Point::new(5, 46) });
    w.finish_char(Point::new(788, 46));
    // 788 + 12 == 800 still fits
    assert_eq!(w.begin_char('a', 800, 600).at, Point::new(788, 46));
}

#[test]
fn text_writer_line_feed() {
    let mut w = TextWriter::new();
    let step = w.begin_char('\n', 800, 600);
    assert_eq!(step, GlyphStep { clear: false, glyph: '\n', at: Point::new(5, 46) });
}

#[test]
fn text_writer_clears_past_bottom() {
    let mut w = TextWriter::new();
    w.finish_char(Point::new(100, 590));
    let step = w.begin_char('\n', 800, 600);
    assert_eq!(step, GlyphStep { clear: true, glyph: '\n', at: Point::new(5, 20) });
}

#[test]
fn text_writer_negative_x_wraps() {
    let mut w = TextWriter::new();
    w.finish_char(Point::new(-100, 20));
    // a negative position reads as a huge unsigned one
    assert_eq!(w.begin_char('a', 800, 600).at, Point::new(5, 46));
}

#[test]
fn text_writer_draws_the_character_itself() {
    let mut w = TextWriter::new();
    assert_eq!(w.begin_char('\u{20ac}', 800, 600).glyph, '\u{20ac}');
}

#[test]
fn overflow_checks_before_placing() {
    let mut c = console();
    let l = c.get_mut();
    assert!(l.can_place_char('a', 800));
    let mut c = console();
    let l = c.get_mut();
    l.advance_to(Point::new(0, i32::MAX - 10));
    assert!(l.can_place_char('a', 800));
    assert!(!l.can_place_char('\n', 800));
    assert!(!l.can_place_char('a', 0x8000_0005));
}

#[test]
fn overflow_checks_before_writing() {
    let mut w = TextWriter::new();
    assert!(w.can_begin_char('a', 800));
    w.finish_char(Point::new(i32::MAX - 5, 20));
    assert!(!w.can_begin_char('a', 800));
    assert!(w.can_begin_char('\n', 800));
    w.finish_char(Point::new(0, i32::MIN + 3));
    assert!(!w.can_begin_char('a', 800));
    assert!(w.can_begin_char('\n', 800));
    assert_eq!(w.position(), Point::new(0, i32::MIN + 3));
}
