//! The prompt of the add and edit screens: a one-line editor.
//!
//! The caller opens the prompt with `start_input`, decodes each key code
//! with `decode_input` and feeds it to `type_key`, which changes the buffer
//! and says what the terminal has to show. Once `type_key` answers
//! `Echo::Finish`, `commit_input` puts the buffer into the list and goes
//! back to the list screen.

use vstd::prelude::*;
use crate::item::{items, Item, Todo};
use crate::screen::{state_valid, Screen};
use crate::store::{
    add_todo, added, cursor_after_update, deleted, holds, position, update_todo, updated,
};
use crate::text::{pop_char, push_char};

verus! {

/// The code of the key that ends the line.
pub const CODE_NEWLINE: i32 = 10;

/// The code that a terminal sends for the delete key.
pub const CODE_DELETE: i32 = 127;

/// The code that curses reports for the backspace key.
pub const CODE_BACKSPACE: i32 = 263;

/// A key as the prompt understands it.
#[derive(Debug, Clone, Copy, PartialEq, Eq)]
pub enum InputKey {
    Confirm,
    Erase,
    Char(char),
}

/// What the terminal has to do after a key was typed at the prompt.
#[derive(Debug, Clone, Copy, PartialEq, Eq)]
pub enum Echo {
    /// The line is complete: leave the prompt.
    Finish,
    /// Rub out the character left of the text cursor.
    Erase,
    /// Show nothing.
    Nothing,
    /// Show this character at the text cursor.
    Put(char),
}

/// The character that a key code types: the one whose number is the low
/// byte of the code.
pub open spec fn key_char(code: int) -> char {
    ((code % 256) as u8) as char
}

/// The key that a key code stands for at the prompt.
pub open spec fn input_key_of(code: int) -> InputKey {
    if code == CODE_NEWLINE {
        InputKey::Confirm
    } else if code == CODE_DELETE || code == CODE_BACKSPACE {
        InputKey::Erase
    } else {
        InputKey::Char(key_char(code))
    }
}

/// The code of the backspace key, as the terminal library has it.
///
/// Trusted: the body reads the constant `ncurses::KEY_BACKSPACE`, which the
/// crate defines as 0x107.
#[verifier::external_body]
fn key_backspace() -> (code: i32)
    ensures
        code == CODE_BACKSPACE,
{
    ncurses::KEY_BACKSPACE
}

/// Decodes a raw key code at the prompt.
pub fn decode_input(code: i32) -> (key: InputKey)
    ensures
        key == input_key_of(code as int),
{
    if code == CODE_NEWLINE {
        InputKey::Confirm
    } else if code == CODE_DELETE || code == key_backspace() {
        InputKey::Erase
    } else {
        let rest: i32 = code % 256;
        let low: i32 = if rest < 0 {
            rest + 256
        } else {
            rest
        };
        InputKey::Char((low as u8) as char)
    }
}

/// The buffer that the prompt opens with: the text of the item that is
/// edited, and nothing when a new item is added.
pub open spec fn buffer_at_start(screen: Screen, list: Seq<Item>) -> Seq<char> {
    match screen {
        Screen::Edit(index) => if holds(list, index as int) {
            list[index as int].text
        } else {
            Seq::empty()
        },
        _ => Seq::empty(),
    }
}

/// The buffer after `key` was typed.
pub open spec fn buffer_after(buffer: Seq<char>, key: InputKey) -> Seq<char> {
    match key {
        InputKey::Confirm => buffer,
        InputKey::Erase => if buffer.len() > 0 {
            buffer.drop_last()
        } else {
            buffer
        },
        InputKey::Char(ch) => buffer.push(ch),
    }
}

/// What the terminal shows after `key` was typed.
pub open spec fn echo_of(buffer: Seq<char>, key: InputKey) -> Echo {
    match key {
        InputKey::Confirm => Echo::Finish,
        InputKey::Erase => if buffer.len() > 0 {
            Echo::Erase
        } else {
            Echo::Nothing
        },
        InputKey::Char(ch) => Echo::Put(ch),
    }
}

/// The list after the prompt was confirmed with `buffer`: a new item on the
/// add screen unless the buffer is empty, the edited item with its new text
/// on the edit screen, and without that item when the buffer is empty.
pub open spec fn list_after_commit(list: Seq<Item>, screen: Screen, buffer: Seq<char>) -> Seq<
    Item,
> {
    match screen {
        Screen::Add => if buffer.len() > 0 {
            added(list, buffer)
        } else {
            list
        },
        Screen::Edit(index) => updated(list, index as int, buffer),
        Screen::List => list,
    }
}

/// The cursor after the prompt was confirmed.
pub open spec fn cursor_after_commit(
    cursor: int,
    len: int,
    screen: Screen,
    buffer: Seq<char>,
) -> int {
    match screen {
        Screen::Edit(index) => cursor_after_update(cursor, len, index as int, buffer),
        _ => cursor,
    }
}

/// Whether confirming the prompt changes the list.
pub open spec fn commit_changes_list(list: Seq<Item>, screen: Screen, buffer: Seq<char>) -> bool {
    match screen {
        Screen::Add => buffer.len() > 0,
        Screen::Edit(index) => holds(list, index as int),
        Screen::List => false,
    }
}

/// Confirming the prompt leads from a state that the program can be in to
/// another such state, back on the list screen.
pub proof fn lemma_commit_keeps_state_valid(
    list: Seq<Item>,
    cursor: int,
    screen: Screen,
    buffer: Seq<char>,
)
    requires
        state_valid(list.len() as int, cursor, screen),
    ensures
        state_valid(
            list_after_commit(list, screen, buffer).len() as int,
            cursor_after_commit(cursor, list.len() as int, screen, buffer),
            Screen::List,
        ),
{
}

/// At the prompt the empty buffer never adds an item, and it deletes the
/// item that is edited.
pub proof fn lemma_empty_buffer(list: Seq<Item>, index: i32)
    ensures
        list_after_commit(list, Screen::Add, Seq::empty()) == list,
        list_after_commit(list, Screen::Edit(index), Seq::empty()) == deleted(list, index as int),
{
}

/// Opens the prompt: returns the buffer it starts with.
pub fn start_input(screen: Screen, todos: &[Todo]) -> (buffer: String)
    ensures
        buffer@ == buffer_at_start(screen, items(todos@)),
{
    match screen {
        Screen::Edit(index) => match position(index, todos.len()) {
            Some(at) => todos[at].todo.clone(),
            None => String::new(),
        },
        _ => String::new(),
    }
}

/// Applies one key to the buffer and says what the terminal has to show.
pub fn type_key(buffer: &mut String, key: InputKey) -> (echo: Echo)
    ensures
        final(buffer)@ == buffer_after(old(buffer)@, key),
        echo == echo_of(old(buffer)@, key),
{
    match key {
        InputKey::Confirm => Echo::Finish,
        InputKey::Erase => match pop_char(buffer) {
            Some(_) => Echo::Erase,
            None => Echo::Nothing,
        },
        InputKey::Char(ch) => {
            push_char(buffer, ch);
            Echo::Put(ch)
        },
    }
}

/// Confirms the prompt: puts `buffer` into the list as the screen asks and
/// goes back to the list screen. Returns whether the list changed, in which
/// case the caller has to save it.
pub fn commit_input(
    buffer: &str,
    screen: &mut Screen,
    cur_index: &mut i32,
    todos: &mut Vec<Todo>,
) -> (changed: bool)
    ensures
        items(final(todos)@) == list_after_commit(items(old(todos)@), *old(screen), buffer@),
        *final(cur_index) == cursor_after_commit(
            *old(cur_index) as int,
            items(old(todos)@).len() as int,
            *old(screen),
            buffer@,
        ),
        *final(screen) == Screen::List,
        changed == commit_changes_list(items(old(todos)@), *old(screen), buffer@),
        !changed ==> items(final(todos)@) == items(old(todos)@),
        state_valid(items(old(todos)@).len() as int, *old(cur_index) as int, *old(screen))
            ==> state_valid(
            items(final(todos)@).len() as int,
            *final(cur_index) as int,
            *final(screen),
        ),
{
    let changed = match *screen {
        Screen::Add => {
            if buffer.is_empty() {
                false
            } else {
                add_todo(buffer, todos);
                true
            }
        },
        Screen::Edit(index) => update_todo(buffer, todos, index, cur_index),
        Screen::List => false,
    };
    *screen = Screen::List;
    changed
}

} // verus!
