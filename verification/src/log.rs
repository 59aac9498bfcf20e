use crate::display::Point;
use crate::late_init::LateInit;
use vstd::prelude::*;

verus! {

/// Where the console cursor of the serial/framebuffer logger stands: the
/// position at which the next character is drawn.
pub struct Logger {
    next_char: Point,
}

/// What the logger does with one character.
#[derive(Clone, Copy, Debug, PartialEq, Eq, Structural)]
pub enum Placement {
    /// The character started a new line; nothing is drawn for it.
    NewLine,
    /// The character `ch` is drawn at `at`; the position after it is handed
    /// back with `Logger::advance_to`.
    Glyph { ch: char, at: Point },
}

/// Installs the console logger in `slot`, its cursor at the top left of the
/// screen (15, 30). Only the first call takes effect: a logger already
/// installed stays as it is, cursor included.
pub fn init(slot: &mut LateInit<Logger>)
    ensures
        old(slot)@ is Some ==> final(slot)@ == old(slot)@,
        old(slot)@ is None ==> final(slot)@ is Some && final(slot)@.unwrap()@ == (Point { x: 15, y: 30 }),
{
    slot.init(Logger { next_char: Point::new(15, 30) });
}

/// A line feed, or any character once the cursor is past the right margin
/// (20 pixels before the edge of a screen `screen_width` pixels wide, taken as
/// an `i32`), starts a new line.
pub open spec fn breaks_line(cursor: Point, c: char, screen_width: usize) -> bool {
    c == '\n' || cursor.x > (screen_width as i32) - 20
}

/// What the logger does with `c` when its cursor stands at `cursor`, and
/// where the cursor stands afterwards (before the drawn glyph's end is handed
/// back): a new line at x = 15, one line (26 pixels) further down, or the
/// character drawn where the cursor is.
pub open spec fn placement(cursor: Point, c: char, screen_width: usize) -> (Placement, Point) {
    if breaks_line(cursor, c, screen_width) {
        (Placement::NewLine, Point { x: 15, y: (cursor.y + 26) as i32 })
    } else {
        (Placement::Glyph { ch: c, at: cursor }, cursor)
    }
}

/// A character that does not break the line is drawn as itself, exactly where
/// the cursor stands, and the cursor stays put; a line feed, or any character
/// once the cursor is past the right margin, draws nothing and moves the
/// cursor to x = 15 one line (26 pixels) down.
pub proof fn lemma_character_drawn_as_itself(cursor: Point, c: char, screen_width: usize)
    ensures
        !(c == '\n' || cursor.x > (screen_width as i32) - 20) ==> placement(cursor, c, screen_width) == (
        Placement::Glyph { ch: c, at: cursor },
        cursor,
        ),
        (c == '\n' || cursor.x > (screen_width as i32) - 20) ==> placement(cursor, c, screen_width) == (
        Placement::NewLine,
        Point { x: 15, y: (cursor.y + 26) as i32 },
        ),
{
}

/// The cursor never moves left of x = 15 while placing characters, a line
/// break moves it down by exactly one line, and a character is only ever drawn
/// at or left of the right margin.
pub proof fn lemma_placement_margins(cursor: Point, c: char, screen_width: usize)
    requires
        cursor.x >= 15,
        breaks_line(cursor, c, screen_width) ==> cursor.y + 26 <= i32::MAX,
    ensures
        ({
            let (r, after) = placement(cursor, c, screen_width);
            &&& after.x >= 15
            &&& r == Placement::NewLine ==> after.y == cursor.y + 26
            &&& r matches Placement::Glyph { at, .. } ==> 15 <= at.x <= (screen_width as i32) - 20
                && after == cursor
        }),
{
}

/// A line break leaves the cursor inside the right margin of any screen at
/// least 35 pixels wide: the cursor returns to x = 15, the margin lies 20
/// pixels before the edge.
pub proof fn lemma_newline_within_margin(cursor: Point, screen_width: usize)
    requires
        (screen_width as i32) >= 35,
        cursor.y + 26 <= i32::MAX,
    ensures
        ({
            let after = Point { x: 15, y: (cursor.y + 26) as i32 };
            !(after.x > (screen_width as i32) - 20) && after.y == cursor.y + 26
        }),
{
}

/// The cursor after writing `chars` from `(x, y)` on a screen `width`
/// pixels wide (the width as `place_char` reads it), when each character
/// drawn moves the cursor `advance` pixels to the right, and the number of
/// line breaks on the way. A character is drawn exactly when `place_char`
/// draws it.
pub open spec fn run_cursor(x: int, y: int, chars: Seq<char>, width: int, advance: int) -> (int, int, nat)
    decreases chars.len(),
{
    if chars.len() == 0 {
        (x, y, 0)
    } else {
        let (x0, y0, n0) = run_cursor(x, y, chars.drop_last(), width, advance);
        let c = chars.last();
        if c == '\n' || x0 > width - 20 {
            (15, y0 + 26, n0 + 1)
        } else {
            (x0 + advance, y0, n0)
        }
    }
}

/// Over a whole string, the cursor stays right of x = 15, moves down by
/// exactly 26 pixels per line break, and never ends further right than where
/// it started or one glyph past the right margin.
pub proof fn lemma_run_margins(x: int, y: int, chars: Seq<char>, width: int, advance: int)
    requires
        x >= 15,
        advance >= 0,
    ensures
        ({
            let (x1, y1, n) = run_cursor(x, y, chars, width, advance);
            &&& x1 >= 15
            &&& y1 == y + 26 * n
            &&& n <= chars.len()
            &&& x1 <= x || x1 <= width - 20 + advance
        }),
    decreases chars.len(),
{
    if chars.len() > 0 {
        lemma_run_margins(x, y, chars.drop_last(), width, advance);
    }
}

/// One step of `run_cursor` is what `place_char` decides: a line break to
/// (15, y + 26), or the character drawn where the cursor stands.
pub proof fn lemma_placement_is_run_step(cursor: Point, c: char, screen_width: usize, advance: int)
    requires
        breaks_line(cursor, c, screen_width) ==> cursor.y + 26 <= i32::MAX,
    ensures
        ({
            let (r, after) = placement(cursor, c, screen_width);
            let (x1, y1, n) = run_cursor(
                cursor.x as int,
                cursor.y as int,
                seq![c],
                (screen_width as i32) as int,
                advance,
            );
            &&& r == Placement::NewLine ==> after.x == x1 && after.y == y1 && n == 1
            &&& r matches Placement::Glyph { at, .. } ==> at == cursor && x1 == cursor.x + advance && y1
                == cursor.y && n == 0
        }),
{
    let chars = seq![c];
    let (x, y, w) = (cursor.x as int, cursor.y as int, (screen_width as i32) as int);
    assert(chars.drop_last() =~= Seq::<char>::empty());
    assert(chars.last() == c);
    assert(run_cursor(x, y, chars.drop_last(), w, advance) == (x, y, 0nat));
    assert(run_cursor(x, y, chars, w, advance) == (if c == '\n' || x > w - 20 {
        (15, y + 26, 1nat)
    } else {
        (x + advance, y, 0nat)
    }));
}

impl View for Logger {
    type V = Point;

    closed spec fn view(&self) -> Point {
        self.next_char
    }
}

impl Logger {
    /// The cursor.
    pub fn next_char(&self) -> (p: Point)
        ensures
            p == self@,
    {
        self.next_char
    }

    /// Moves the cursor to the start of the next line.
    pub fn add_newline(&mut self)
        requires
            old(self)@.y + 26 <= i32::MAX,
        ensures
            final(self)@ == (Point { x: 15, y: (old(self)@.y + 26) as i32 }),
    {
        self.next_char = Point::new(15, self.next_char.y + 26);
    }

    /// Whether the cursor has passed the right margin of a screen
    /// `screen_width` pixels wide (the width is taken as an `i32`).
    pub fn is_overflowing(&self, screen_width: usize) -> (b: bool)
        requires
            (screen_width as i32) - 20 >= i32::MIN,
        ensures
            b == (self@.x > (screen_width as i32) - 20),
    {
        self.next_char.x > screen_width as i32 - 20
    }

    /// Whether `place_char(c, screen_width)` can be computed without
    /// overflowing `i32`.
    pub fn can_place_char(&self, c: char, screen_width: usize) -> (b: bool)
        ensures
            b == ((screen_width as i32) - 20 >= i32::MIN && ((c == '\n' || self@.x > (screen_width as i32)
                - 20) ==> self@.y + 26 <= i32::MAX)),
    {
        let w = screen_width as i32;
        if w < i32::MIN + 20 {
            return false;
        }
        let breaks = c == '\n' || self.next_char.x > w - 20;
        !(breaks && self.next_char.y > i32::MAX - 26)
    }

    /// Decides what to do with the next character of a string being written:
    /// a line feed, or any character once the cursor is past the right margin,
    /// moves the cursor to the next line (the character itself is dropped);
    /// otherwise the character is drawn at the cursor.
    pub fn place_char(&mut self, c: char, screen_width: usize) -> (r: Placement)
        requires
            (screen_width as i32) - 20 >= i32::MIN,
            (c == '\n' || old(self)@.x > (screen_width as i32) - 20) ==> old(self)@.y + 26 <= i32::MAX,
        ensures
            (r, final(self)@) == placement(old(self)@, c, screen_width),
    {
        if c == '\n' || self.is_overflowing(screen_width) {
            self.add_newline();
            Placement::NewLine
        } else {
            Placement::Glyph { ch: c, at: self.next_char }
        }
    }

    /// Moves the cursor to where the last glyph drawn ended.
    pub fn advance_to(&mut self, next: Point)
        ensures
            final(self)@ == next,
    {
        self.next_char = next;
    }
}

} // verus!
