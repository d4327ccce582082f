//! Key events and the search bar's text field (the `tui-input` crate).
use vstd::prelude::*;

use crossterm::event::Event as CtEvent;
use crossterm::event::KeyCode as K;
use crossterm::event::KeyEvent;
use crossterm::event::KeyModifiers as CtMods;
use tui_input::backend::crossterm::EventHandler;

verus! {

/// A key, as the terminal reports it.
#[derive(Copy, Clone, Debug, PartialEq, Eq, Structural)]
pub enum Key {
    Backspace,
    Enter,
    Left,
    Right,
    Up,
    Down,
    Home,
    End,
    Tab,
    BackTab,
    Delete,
    F(u8),
    Char(char),
    Esc,
    /// Any key the interface does not use.
    Other,
}

/// Modifier keys held, with the terminal's bit encoding (shift 1, control 2,
/// alt 4, super 8, hyper 16, meta 32).
#[derive(Copy, Clone, Debug, PartialEq, Eq, Structural)]
pub struct KeyMods {
    pub bits: u8,
}

pub open spec fn has_control(m: KeyMods) -> bool {
    m.bits & 2 != 0
}

pub open spec fn has_alt(m: KeyMods) -> bool {
    m.bits & 4 != 0
}

impl KeyMods {
    pub fn empty() -> (r: KeyMods)
        ensures
            r.bits == 0,
    {
        KeyMods { bits: 0 }
    }

    pub fn control() -> (r: KeyMods)
        ensures
            r.bits == 2,
    {
        KeyMods { bits: 2 }
    }

    pub fn contains_control(&self) -> (r: bool)
        ensures
            r == has_control(*self),
    {
        self.bits & 2 != 0
    }

    pub fn contains_alt(&self) -> (r: bool)
        ensures
            r == has_alt(*self),
    {
        self.bits & 4 != 0
    }
}

/// Press, auto-repeat or release.
#[derive(Copy, Clone, Debug, PartialEq, Eq, Structural)]
pub enum KeyKind {
    Press,
    Repeat,
    Release,
}

/// One key event.
#[derive(Copy, Clone, Debug, PartialEq, Eq, Structural)]
pub struct KeyPress {
    pub code: Key,
    pub modifiers: KeyMods,
    pub kind: KeyKind,
}

impl KeyPress {
    /// A key press.
    pub fn new(code: Key, modifiers: KeyMods) -> (r: KeyPress)
        ensures
            r == (KeyPress { code, modifiers, kind: KeyKind::Press }),
    {
        KeyPress { code, modifiers, kind: KeyKind::Press }
    }
}

/// A terminal event.
#[derive(Copy, Clone, Debug, PartialEq, Eq, Structural)]
pub enum TermEvent {
    Key(KeyPress),
    Resize(u16, u16),
    Other,
}

#[verifier::external_type_specification]
#[verifier::external_body]
pub struct ExInput(tui_input::Input);

/// The text held by a `tui_input::Input`.
pub uninterp spec fn input_text(i: tui_input::Input) -> Seq<char>;

/// The cursor of a `tui_input::Input`: the number of characters before it
/// (`tui_input::Input::cursor`).
pub uninterp spec fn input_cursor(i: tui_input::Input) -> nat;

/// Printable ASCII only (U+0020..U+007E): every character is a grapheme of
/// its own.
pub open spec fn printable_ascii(s: Seq<char>) -> bool {
    forall|i: int| 0 <= i < s.len() ==> ' ' <= #[trigger] s[i] && s[i] <= '~'
}

/// Text and cursor after the key press `k`, for text `t` with the cursor
/// at `cur`, where `tui-input`'s source fixes them: keys it does not map
/// (Up, Down, Enter, Esc, F-keys, Tab, BackTab and unknown keys) change
/// nothing; a character without modifiers, with Shift, or with Control and
/// Alt together is inserted at the cursor; and on printable ASCII text
/// Backspace and Delete remove the character before or at the cursor, Left
/// and Right move it one character, Home and End to either end (all
/// without modifiers). `None` where the crate's other rules decide.
pub open spec fn key_edit(t: Seq<char>, cur: nat, k: KeyPress) -> Option<(Seq<char>, nat)> {
    let plain = k.modifiers.bits == 0;
    let ascii = printable_ascii(t);
    if cur > t.len() {
        None
    } else {
        match k.code {
            Key::Up | Key::Down | Key::Enter | Key::Esc | Key::F(_) | Key::Tab | Key::BackTab
            | Key::Other => Some((t, cur)),
            Key::Char(c) => if plain || k.modifiers.bits == 1 || k.modifiers.bits == 6 {
                Some((t.take(cur as int) + seq![c] + t.skip(cur as int), cur + 1))
            } else {
                None
            },
            Key::Backspace => if plain && ascii {
                if cur == 0 {
                    Some((t, cur))
                } else {
                    Some((t.take(cur - 1) + t.skip(cur as int), (cur - 1) as nat))
                }
            } else {
                None
            },
            Key::Delete => if plain && ascii {
                if cur == t.len() {
                    Some((t, cur))
                } else {
                    Some((t.take(cur as int) + t.skip(cur + 1 as int), cur))
                }
            } else {
                None
            },
            Key::Left => if plain && ascii {
                Some((t, if cur == 0 { 0 } else { (cur - 1) as nat }))
            } else {
                None
            },
            Key::Right => if plain && ascii {
                Some((t, if cur == t.len() { cur } else { cur + 1 }))
            } else {
                None
            },
            Key::Home => if plain {
                Some((t, 0))
            } else {
                None
            },
            Key::End => if plain {
                Some((t, t.len()))
            } else {
                None
            },
        }
    }
}

/// Calls `tui_input::Input::new`: the field holds `value`, cursor at its end.
#[verifier::external_body]
pub fn new_input(value: String) -> (r: tui_input::Input)
    ensures
        input_text(r) == value@,
        input_cursor(r) == value@.len(),
{
    tui_input::Input::new(value)
}

/// Calls `tui_input::Input::value`: the text held.
#[verifier::external_body]
pub fn input_value(i: &tui_input::Input) -> (r: String)
    ensures
        r@ == input_text(*i),
{
    i.value().to_string()
}

/// Calls `tui_input::backend::crossterm::EventHandler::handle_event` with the
/// key press as a `crossterm` event: the key edits the field as `tui-input`
/// maps it. Where that crate's source fixes the outcome in a few lines
/// (`key_edit`), it is stated, and the cursor stays within the text. Other
/// edits (word moves and deletions, yanking, deleting graphemes of
/// non-ASCII text) are left to the crate and not stated.
#[verifier::external_body]
pub fn input_handle_key(i: &mut tui_input::Input, key: KeyPress)
    requires
        key.kind == KeyKind::Press,
    ensures
        key_edit(input_text(*old(i)), input_cursor(*old(i)), key) matches Some(e) ==> (
        input_text(*final(i)) == e.0 && input_cursor(*final(i)) == e.1),
        input_cursor(*old(i)) <= input_text(*old(i)).len() ==> input_cursor(*final(i))
            <= input_text(*final(i)).len(),
{
    let code = match key.code {
        Key::Backspace => K::Backspace, Key::Enter => K::Enter, Key::Left => K::Left,
        Key::Right => K::Right, Key::Up => K::Up, Key::Down => K::Down, Key::Home => K::Home,
        Key::End => K::End, Key::Tab => K::Tab, Key::BackTab => K::BackTab,
        Key::Delete => K::Delete, Key::F(n) => K::F(n), Key::Char(c) => K::Char(c),
        Key::Esc => K::Esc, Key::Other => K::Null,
    };
    let ev = CtEvent::Key(KeyEvent::new(code, CtMods::from_bits_truncate(key.modifiers.bits)));
    let _ = i.handle_event(&ev);
}

} // verus!
