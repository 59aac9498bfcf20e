use pc_keyboard::layouts::Us104Key;
use pc_keyboard::{HandleControl, KeyCode, KeyEvent, Keyboard, ScancodeSet1};
use vstd::prelude::*;

verus! {

/// The `pc_keyboard` decoder for a US 104-key keyboard on scancode set 1,
/// held opaquely: `Keyboard`'s generic parameters are bounded by traits of
/// that crate, so it is not declared as an outside type.
#[verifier::external_body]
pub struct KeyboardDriver {
    inner: Keyboard<Us104Key, ScancodeSet1>,
}

#[verifier::external_type_specification]
#[verifier::external_body]
pub struct ExKeyEvent(KeyEvent);

#[verifier::external_type_specification]
#[verifier::external_body]
pub struct ExKeyCode(KeyCode);

#[verifier::external_type_specification]
#[verifier::external_body]
pub struct ExKeyboardError(pc_keyboard::Error);

/// `String::push` appends one character.
pub assume_specification[ String::push ](s: &mut String, ch: char)
    ensures
        final(s)@ == old(s)@.push(ch),
;

/// `String::pop` removes the last character and returns it, or returns
/// `None` on an empty string.
pub assume_specification[ String::pop ](s: &mut String) -> (r: Option<char>)
    ensures
        old(s)@.len() == 0 ==> r == None::<char> && final(s)@ == old(s)@,
        old(s)@.len() > 0 ==> r == Some(old(s)@.last()) && final(s)@ == old(s)@.drop_last(),
;

/// A key as the keyboard driver decodes it.
pub enum DecodedKey {
    /// A key without a character, such as a function key.
    RawKey(KeyCode),
    /// A key that produces this character.
    Unicode(char),
}

/// The scancodes fed to the decoder's scancode-set stage since it was made.
pub uninterp spec fn scancodes_fed(driver: KeyboardDriver) -> Seq<u8>;

/// The key events passed to the decoder's event stage since it was made.
pub uninterp spec fn events_processed(driver: KeyboardDriver) -> Seq<KeyEvent>;

/// What the scancode-set-1 stage of a fresh decoder returns for the last of
/// `scancodes`, fed in order: a completed key event, `None` while a key is
/// not complete, or an error for a scancode it does not know.
pub uninterp spec fn event_at(scancodes: Seq<u8>) -> Result<Option<KeyEvent>, pc_keyboard::Error>;

/// What the event stage of a fresh decoder (US 104-key layout, control
/// combinations mapped to Unicode) returns for the last of `events`, passed
/// in order: the key it decodes to, or `None` (a key release, for instance).
pub uninterp spec fn key_for(events: Seq<KeyEvent>) -> Option<DecodedKey>;

/// Calls `Keyboard::new` for a US 104-key layout on scancode set 1, with
/// control combinations mapped to Unicode control characters: a decoder that
/// has seen nothing yet.
#[verifier::external_body]
fn new_keyboard() -> (driver: KeyboardDriver)
    ensures
        scancodes_fed(driver) == Seq::<u8>::empty(),
        events_processed(driver) == Seq::<KeyEvent>::empty(),
{
    KeyboardDriver {
        inner: Keyboard::new(ScancodeSet1::new(), Us104Key, HandleControl::MapLettersToUnicode),
    }
}

/// Calls `Keyboard::add_byte`, which advances the scancode-set stage only:
/// its result is a function of all the scancodes fed so far, and the event
/// stage is untouched.
#[verifier::external_body]
fn keyboard_add_byte(keyboard: &mut KeyboardDriver, byte: u8) -> (r: Result<
    Option<KeyEvent>,
    pc_keyboard::Error,
>)
    ensures
        scancodes_fed(*final(keyboard)) == scancodes_fed(*old(keyboard)).push(byte),
        events_processed(*final(keyboard)) == events_processed(*old(keyboard)),
        r == event_at(scancodes_fed(*final(keyboard))),
{
    keyboard.inner.add_byte(byte)
}

/// Calls `Keyboard::process_keyevent`, which advances the event stage only
/// (the modifier keys it tracks): its result is a function of all the events
/// passed so far, and the scancode-set stage is untouched.
#[verifier::external_body]
fn keyboard_process_keyevent(keyboard: &mut KeyboardDriver, event: KeyEvent) -> (key: Option<
    DecodedKey,
>)
    ensures
        scancodes_fed(*final(keyboard)) == scancodes_fed(*old(keyboard)),
        events_processed(*final(keyboard)) == events_processed(*old(keyboard)).push(event),
        key == key_for(events_processed(*final(keyboard))),
{
    match keyboard.inner.process_keyevent(event) {
        Some(pc_keyboard::DecodedKey::RawKey(code)) => Some(DecodedKey::RawKey(code)),
        Some(pc_keyboard::DecodedKey::Unicode(c)) => Some(DecodedKey::Unicode(c)),
        None => None,
    }
}

/// The key events that feeding `scancodes` in order completes.
pub open spec fn events_of(scancodes: Seq<u8>) -> Seq<KeyEvent>
    decreases scancodes.len(),
{
    if scancodes.len() == 0 {
        Seq::empty()
    } else {
        let before = events_of(scancodes.drop_last());
        match event_at(scancodes) {
            Ok(Some(event)) => before.push(event),
            _ => before,
        }
    }
}

/// The character of a decoded key, if it has one.
pub open spec fn unicode_key(key: Option<DecodedKey>) -> Option<char> {
    match key {
        Some(DecodedKey::Unicode(ch)) => Some(ch),
        _ => None,
    }
}

/// The character typed at the last of `scancodes`, fed in order to a fresh
/// reader: the character of the key event completed there, if that event
/// decodes to a character; `None` when no event completes there (a prefix
/// byte, an unknown scancode), or the event yields no character (a key
/// release, a shift key, a key without a character).
pub open spec fn typed_char(scancodes: Seq<u8>) -> Option<char> {
    if scancodes.len() == 0 {
        None
    } else {
        match event_at(scancodes) {
            Ok(Some(event)) => unicode_key(key_for(events_of(scancodes))),
            _ => None,
        }
    }
}

/// Every key event the scancode stage completes is passed on to the event
/// stage, in order, whatever the scancode (key presses and key releases
/// alike), and nothing else is: one more scancode adds exactly the event
/// completed there, or, when none completes, leaves the events as they were.
/// The character typed is then what the event stage makes of all events so
/// far, this one included; without a completed event nothing is typed.
pub proof fn lemma_every_event_passed_on(scancodes: Seq<u8>, b: u8)
    ensures
        ({
            let s = scancodes.push(b);
            &&& event_at(s) matches Ok(Some(e)) ==> events_of(s) == events_of(scancodes).push(e)
                && typed_char(s) == unicode_key(key_for(events_of(scancodes).push(e)))
            &&& !(event_at(s) matches Ok(Some(_))) ==> events_of(s) == events_of(scancodes) && typed_char(s)
                == None::<char>
        }),
{
    let s = scancodes.push(b);
    assert(s.drop_last() =~= scancodes);
}

/// Only completed events reach the event stage: there are never more of them
/// than scancodes fed.
pub proof fn lemma_events_bounded(scancodes: Seq<u8>)
    ensures
        events_of(scancodes).len() <= scancodes.len(),
    decreases scancodes.len(),
{
    if scancodes.len() > 0 {
        lemma_events_bounded(scancodes.drop_last());
    }
}

/// The key event that goes on to the event stage, if the scancode-set stage
/// completed one.
pub fn completed_event(added: Result<Option<KeyEvent>, pc_keyboard::Error>) -> (event: Option<KeyEvent>)
    ensures
        event == (match added {
            Ok(Some(e)) => Some(e),
            _ => None::<KeyEvent>,
        }),
{
    match added {
        Ok(Some(e)) => Some(e),
        _ => None,
    }
}

/// The character of a decoded key, if it has one.
pub fn unicode_of(key: Option<DecodedKey>) -> (c: Option<char>)
    ensures
        c == unicode_key(key),
{
    match key {
        Some(DecodedKey::Unicode(ch)) => Some(ch),
        _ => None,
    }
}

/// Turns the scancodes read from the keyboard controller into characters.
pub struct KeyReader {
    keyboard: KeyboardDriver,
}

impl View for KeyReader {
    type V = Seq<u8>;

    /// The scancodes fed so far.
    closed spec fn view(&self) -> Seq<u8> {
        scancodes_fed(self.keyboard)
    }
}

impl KeyReader {
    /// Every key event completed so far has been passed on to the event stage.
    #[verifier::type_invariant]
    spec fn wf(self) -> bool {
        events_processed(self.keyboard) == events_of(scancodes_fed(self.keyboard))
    }

    /// A reader that has seen no scancode yet.
    pub fn new() -> (r: Self)
        ensures
            r@ == Seq::<u8>::empty(),
    {
        KeyReader { keyboard: new_keyboard() }
    }

    /// Feeds one scancode: returns the character typed, once a key event
    /// completes and decodes to a character; `None` otherwise.
    pub fn feed(&mut self, scancode: u8) -> (c: Option<char>)
        ensures
            final(self)@ == old(self)@.push(scancode),
            c == typed_char(final(self)@),
    {
        proof {
            use_type_invariant(&*self);
        }
        let mut keyboard = new_keyboard();
        std::mem::swap(&mut keyboard, &mut self.keyboard);
        let ghost before = scancodes_fed(keyboard);
        let added = keyboard_add_byte(&mut keyboard, scancode);
        assert(scancodes_fed(keyboard).drop_last() =~= before);
        let c = match completed_event(added) {
            Some(event) => unicode_of(keyboard_process_keyevent(&mut keyboard, event)),
            None => None,
        };
        self.keyboard = keyboard;
        c
    }
}

/// The line feed that ends a line, and the backspace that erases a character.
pub open spec fn is_line_end(key: char) -> bool {
    key == '\n'
}

pub open spec fn is_backspace(key: char) -> bool {
    key == '\x08'
}

/// The line being read after the key `key`.
pub open spec fn edit_line(line: Seq<char>, key: char) -> Seq<char> {
    if is_line_end(key) {
        line
    } else if is_backspace(key) {
        if line.len() > 0 {
            line.drop_last()
        } else {
            line
        }
    } else {
        line.push(key)
    }
}

/// The line after the keys `keys`, in order.
pub open spec fn edit_all(line: Seq<char>, keys: Seq<char>) -> Seq<char>
    decreases keys.len(),
{
    if keys.len() == 0 {
        line
    } else {
        edit_line(edit_all(line, keys.drop_last()), keys.last())
    }
}

/// The line holds no line feed and no backspace.
pub open spec fn is_plain(line: Seq<char>) -> bool {
    forall|i: int| 0 <= i < line.len() ==> !is_line_end(#[trigger] line[i]) && !is_backspace(line[i])
}

/// A backspace erases exactly the character typed before it.
pub proof fn lemma_backspace_undoes_key(line: Seq<char>, key: char)
    requires
        !is_line_end(key),
        !is_backspace(key),
    ensures
        edit_line(edit_line(line, key), '\x08') == line,
{
    assert(line.push(key).drop_last() =~= line);
}

/// Editing never puts a line feed or a backspace into the line.
pub proof fn lemma_edit_keeps_plain(line: Seq<char>, keys: Seq<char>)
    requires
        is_plain(line),
    ensures
        is_plain(edit_all(line, keys)),
    decreases keys.len(),
{
    if keys.len() > 0 {
        lemma_edit_keeps_plain(line, keys.drop_last());
        let before = edit_all(line, keys.drop_last());
        let after = edit_line(before, keys.last());
        assert forall|i: int| 0 <= i < after.len() implies !is_line_end(#[trigger] after[i])
            && !is_backspace(after[i]) by {
            if i < before.len() {
                assert(after[i] == before[i]);
            }
        }
    }
}

/// The line grows by at most one character per key.
pub proof fn lemma_edit_length(line: Seq<char>, keys: Seq<char>)
    ensures
        edit_all(line, keys).len() <= line.len() + keys.len(),
    decreases keys.len(),
{
    if keys.len() > 0 {
        lemma_edit_length(line, keys.drop_last());
    }
}

/// What follows a key typed while reading a line.
#[derive(Clone, Copy, Debug, PartialEq, Eq, Structural)]
pub enum LineEdit {
    /// The line is complete.
    Done,
    /// The line goes on; the key is echoed to the console.
    Echo(char),
}

/// Applies one typed key to the line being read: a line feed ends the line,
/// a backspace removes the last character (if any), any other key is
/// appended. Every key but the line feed is echoed.
pub fn apply_key(line: &mut String, key: char) -> (e: LineEdit)
    ensures
        final(line)@ == edit_line(old(line)@, key),
        e == (if is_line_end(key) {
            LineEdit::Done
        } else {
            LineEdit::Echo(key)
        }),
{
    if key == '\n' {
        LineEdit::Done
    } else if key == '\x08' {
        line.pop();
        LineEdit::Echo(key)
    } else {
        line.push(key);
        LineEdit::Echo(key)
    }
}

} // verus!
