//! Keys, and the one-line editor of the prompts.

use crossterm::event::{Event, KeyEvent, KeyModifiers};
use tui_input::backend::crossterm::EventHandler;
use vstd::prelude::*;

verus! {

/// A key.
#[derive(Clone, Copy, Debug, PartialEq, Eq, Structural)]
pub enum KeyCode {
    Char(char),
    Enter,
    Esc,
    Tab,
    BackTab,
    Up,
    Down,
    Left,
    Right,
    Home,
    End,
    Backspace,
    Delete,
    /// A key that nothing here knows.
    Other,
}

/// No modifier is held.
pub const NONE: u8 = 0;

pub const SHIFT: u8 = 1;

pub const CONTROL: u8 = 2;

pub const ALT: u8 = 4;

pub const META: u8 = 32;

/// A key and the modifiers that are held, each a bit.
#[derive(Clone, Copy, Debug, PartialEq, Eq, Structural)]
pub struct KeyPress {
    pub code: KeyCode,
    pub modifiers: u8,
}

/// A key that the line editor knows.
#[derive(Clone, Copy, Debug, PartialEq, Eq, Structural)]
pub enum EditKey {
    Char(char),
    Left,
    Right,
    Home,
    End,
    Backspace,
    Delete,
}

/// The key for the line editor, if it knows it.
pub open spec fn as_edit(code: KeyCode) -> Option<EditKey> {
    match code {
        KeyCode::Char(c) => Some(EditKey::Char(c)),
        KeyCode::Left => Some(EditKey::Left),
        KeyCode::Right => Some(EditKey::Right),
        KeyCode::Home => Some(EditKey::Home),
        KeyCode::End => Some(EditKey::End),
        KeyCode::Backspace => Some(EditKey::Backspace),
        KeyCode::Delete => Some(EditKey::Delete),
        _ => None,
    }
}

fn edit_key(code: KeyCode) -> (r: Option<EditKey>)
    ensures
        r == as_edit(code),
{
    match code {
        KeyCode::Char(c) => Some(EditKey::Char(c)),
        KeyCode::Left => Some(EditKey::Left),
        KeyCode::Right => Some(EditKey::Right),
        KeyCode::Home => Some(EditKey::Home),
        KeyCode::End => Some(EditKey::End),
        KeyCode::Backspace => Some(EditKey::Backspace),
        KeyCode::Delete => Some(EditKey::Delete),
        _ => None,
    }
}

/// What a key does to a line.
#[derive(Clone, Copy, Debug, PartialEq, Eq, Structural)]
pub enum Effect {
    Insert(char),
    DeletePrevious,
    DeleteNext,
    DeleteLine,
    DeleteTillEnd,
    ToPrevious,
    ToNext,
    ToStart,
    ToEnd,
    /// The cursor moves by a word, or a word is deleted.
    ByWord,
    Nothing,
}

/// What a key does to a line, with the modifiers that are held with it.
pub open spec fn effect_of(key: EditKey, modifiers: u8) -> Effect {
    let held = modifiers % 64;
    match key {
        EditKey::Char(c) => if held == NONE || held == SHIFT {
            Effect::Insert(c)
        } else if held == CONTROL {
            match c {
                'h' => Effect::DeletePrevious,
                'b' => Effect::ToPrevious,
                'f' => Effect::ToNext,
                'a' => Effect::ToStart,
                'e' => Effect::ToEnd,
                'u' => Effect::DeleteLine,
                'k' => Effect::DeleteTillEnd,
                'w' => Effect::ByWord,
                _ => Effect::Nothing,
            }
        } else if held == META && (c == 'b' || c == 'f' || c == 'd') {
            Effect::ByWord
        } else {
            Effect::Nothing
        },
        EditKey::Left => if held == NONE {
            Effect::ToPrevious
        } else if held == CONTROL {
            Effect::ByWord
        } else {
            Effect::Nothing
        },
        EditKey::Right => if held == NONE {
            Effect::ToNext
        } else if held == CONTROL {
            Effect::ByWord
        } else {
            Effect::Nothing
        },
        EditKey::Home => if held == NONE {
            Effect::ToStart
        } else {
            Effect::Nothing
        },
        EditKey::End => if held == NONE {
            Effect::ToEnd
        } else {
            Effect::Nothing
        },
        EditKey::Backspace => if held == NONE {
            Effect::DeletePrevious
        } else if held == META || held == ALT {
            Effect::ByWord
        } else {
            Effect::Nothing
        },
        EditKey::Delete => if held == NONE {
            Effect::DeleteNext
        } else if held == CONTROL {
            Effect::ByWord
        } else {
            Effect::Nothing
        },
    }
}

/// The text and the cursor after an effect that does not go by words.
pub open spec fn applied(text: Seq<char>, cursor: nat, effect: Effect) -> (Seq<char>, nat) {
    match effect {
        Effect::Insert(c) => (text.insert(cursor as int, c), cursor + 1),
        Effect::DeletePrevious => if cursor > 0 {
            (text.remove(cursor - 1), (cursor - 1) as nat)
        } else {
            (text, cursor)
        },
        Effect::DeleteNext => if cursor < text.len() {
            (text.remove(cursor as int), cursor)
        } else {
            (text, cursor)
        },
        Effect::DeleteLine => (seq![], 0),
        Effect::DeleteTillEnd => (text.take(cursor as int), cursor),
        Effect::ToPrevious => (
            text,
            if cursor > 0 {
                (cursor - 1) as nat
            } else {
                cursor
            },
        ),
        Effect::ToNext => (
            text,
            if cursor < text.len() {
                cursor + 1
            } else {
                cursor
            },
        ),
        Effect::ToStart => (text, 0),
        Effect::ToEnd => (text, text.len()),
        Effect::ByWord | Effect::Nothing => (text, cursor),
    }
}

/// What the line editor of `tui_input` makes of a text, a cursor in it and a
/// key: the new text and the new cursor.
pub uninterp spec fn edited(
    text: Seq<char>,
    cursor: nat,
    key: EditKey,
    modifiers: u8,
) -> (Seq<char>, nat);

/// `tui_input::Input::handle_event` on an input with this text and cursor. The
/// outcome depends on these and the key alone, and the cursor stays within the
/// text. What each key does is stated, but for the keys that go by words.
#[verifier::external_body]
fn edit(value: &str, cursor: usize, key: EditKey, modifiers: u8) -> (r: (String, usize))
    requires
        cursor <= value@.len(),
    ensures
        (r.0@, r.1 as nat) == edited(value@, cursor as nat, key, modifiers),
        r.1 <= r.0@.len(),
        effect_of(key, modifiers) != Effect::ByWord ==> (r.0@, r.1 as nat) == applied(
            value@,
            cursor as nat,
            effect_of(key, modifiers),
        ),
{
    let code = match key {
        EditKey::Char(c) => crossterm::event::KeyCode::Char(c),
        EditKey::Left => crossterm::event::KeyCode::Left,
        EditKey::Right => crossterm::event::KeyCode::Right,
        EditKey::Home => crossterm::event::KeyCode::Home,
        EditKey::End => crossterm::event::KeyCode::End,
        EditKey::Backspace => crossterm::event::KeyCode::Backspace,
        EditKey::Delete => crossterm::event::KeyCode::Delete,
    };
    let key = KeyEvent::new(code, KeyModifiers::from_bits_truncate(modifiers));
    let mut input = tui_input::Input::new(value.to_owned()).with_cursor(cursor);
    input.handle_event(&Event::Key(key));
    (input.value().to_owned(), input.cursor())
}

/// The text of a prompt.
#[derive(Debug)]
pub struct Input {
    pub value: String,
    /// The number of characters before the cursor.
    pub cursor: usize,
}

#[verifier::ext_equal]
pub struct InputView {
    pub text: Seq<char>,
    pub cursor: nat,
}

impl View for Input {
    type V = InputView;

    open spec fn view(&self) -> InputView {
        InputView { text: self.value@, cursor: self.cursor as nat }
    }
}

impl InputView {
    pub open spec fn empty() -> InputView {
        InputView { text: seq![], cursor: 0 }
    }

    /// The cursor stands within the text.
    pub open spec fn valid(self) -> bool {
        self.cursor <= self.text.len()
    }

    /// The text and the cursor after a key.
    pub open spec fn after(self, key: KeyPress) -> InputView {
        match as_edit(key.code) {
            Some(k) => {
                let (text, cursor) = edited(self.text, self.cursor, k, key.modifiers);
                InputView { text, cursor }
            },
            None => self,
        }
    }
}

impl Default for Input {
    fn default() -> (r: Self)
        ensures
            r@ == InputView::empty(),
    {
        let value = String::new();
        Input { value, cursor: 0 }
    }
}

impl Input {
    /// Takes a key.
    pub fn handle_event(&mut self, key: KeyPress)
        requires
            old(self)@.valid(),
        ensures
            final(self)@ == old(self)@.after(key),
            final(self)@.valid(),
            as_edit(key.code) matches Some(k) ==> effect_of(k, key.modifiers) != Effect::ByWord
                ==> (final(self)@.text, final(self)@.cursor) == applied(
                old(self)@.text,
                old(self)@.cursor,
                effect_of(k, key.modifiers),
            ),
    {
        if let Some(k) = edit_key(key.code) {
            let (value, cursor) = edit(self.value.as_str(), self.cursor, k, key.modifiers);
            self.value = value;
            self.cursor = cursor;
        }
    }
}

/// A character that is typed stands before the cursor afterwards, and the rest
/// of the line is as before; what was typed last is what backspace takes away.
pub proof fn backspace_takes_away_what_was_typed(line: Seq<char>, cursor: nat, c: char)
    requires
        cursor <= line.len(),
    ensures
        ({
            let (typed, after) = applied(line, cursor, Effect::Insert(c));
            &&& typed.len() == line.len() + 1
            &&& typed.take(cursor as int) == line.take(cursor as int)
            &&& typed[cursor as int] == c
            &&& typed.skip(cursor as int + 1) == line.skip(cursor as int)
            &&& after == cursor + 1
            &&& applied(typed, after, Effect::DeletePrevious) == (line, cursor)
            &&& applied(typed, cursor, Effect::DeleteNext) == (line, cursor)
        }),
{
    let (typed, after) = applied(line, cursor, Effect::Insert(c));
    assert(typed.take(cursor as int) =~= line.take(cursor as int));
    assert(typed.skip(cursor as int + 1) =~= line.skip(cursor as int));
    assert(typed.remove(cursor as int) =~= line);
}

/// Keys that move the cursor leave the text alone and the cursor within it;
/// nothing is deleted at the ends of the line, and a line is deleted as a
/// whole, or from the cursor on.
pub proof fn moving_leaves_the_text_alone(line: Seq<char>, cursor: nat)
    requires
        cursor <= line.len(),
    ensures
        applied(line, cursor, Effect::ToStart) == (line, 0nat),
        applied(line, cursor, Effect::ToEnd) == (line, line.len()),
        cursor > 0 ==> applied(line, cursor, Effect::ToPrevious) == (line, (cursor - 1) as nat),
        cursor < line.len() ==> applied(line, cursor, Effect::ToNext) == (line, cursor + 1),
        applied(line, 0, Effect::ToPrevious) == (line, 0nat),
        applied(line, line.len(), Effect::ToNext) == (line, line.len()),
        applied(line, 0, Effect::DeletePrevious) == (line, 0nat),
        applied(line, line.len(), Effect::DeleteNext) == (line, line.len()),
        applied(line, cursor, Effect::DeleteLine) == (Seq::<char>::empty(), 0nat),
        applied(line, cursor, Effect::DeleteTillEnd).0 == line.take(cursor as int),
        applied(line, cursor, Effect::Nothing) == (line, cursor),
{
}

/// A character that is typed alone, or with shift, is inserted as it is.
pub proof fn a_plain_character_is_inserted(c: char)
    ensures
        effect_of(EditKey::Char(c), 0) == Effect::Insert(c),
        effect_of(EditKey::Char(c), 1) == Effect::Insert(c),
        as_edit(KeyCode::Char(c)) == Some(EditKey::Char(c)),
        effect_of(EditKey::Backspace, 0) == Effect::DeletePrevious,
        effect_of(EditKey::Delete, 0) == Effect::DeleteNext,
        effect_of(EditKey::Left, 0) == Effect::ToPrevious,
        effect_of(EditKey::Right, 0) == Effect::ToNext,
        effect_of(EditKey::Home, 0) == Effect::ToStart,
        effect_of(EditKey::End, 0) == Effect::ToEnd,
        as_edit(KeyCode::Backspace) == Some(EditKey::Backspace),
        as_edit(KeyCode::Delete) == Some(EditKey::Delete),
        as_edit(KeyCode::Left) == Some(EditKey::Left),
        as_edit(KeyCode::Right) == Some(EditKey::Right),
        as_edit(KeyCode::Home) == Some(EditKey::Home),
        as_edit(KeyCode::End) == Some(EditKey::End),
{
}

/// A new line is empty, with the cursor at its front.
pub proof fn a_new_line_is_empty()
    ensures
        InputView::empty().text.len() == 0,
        InputView::empty().cursor == 0,
        InputView::empty().valid(),
{
}

} // verus!
