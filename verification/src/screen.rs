//! The list screen: keys, the cursor, and what each key does.
//!
//! The caller reads one key code, decodes it once with `decode_key`, and
//! hands the key to `listen_key` together with the state. What comes back
//! is the next state and whether the list changed and has to be saved.

use vstd::prelude::*;
use crate::item::{items, Item, Todo};
use crate::store::{
    cursor_after_delete, delete_todo, deleted, do_undo, duplicate_todo, duplicated, holds,
    toggled,
};

verus! {

/// The cursor value that ends the main loop.
pub const QUIT: i32 = -1;

/// The code of the enter key: edit the item under the cursor.
pub const CODE_ENTER: i32 = 10;

/// The code of `a`: add an item.
pub const CODE_A: i32 = 97;

/// The code of `c`: duplicate the item under the cursor.
pub const CODE_C: i32 = 99;

/// The code of `d`: delete the item under the cursor.
pub const CODE_D: i32 = 100;

/// The code of `e`: edit the item under the cursor.
pub const CODE_E: i32 = 101;

/// The code of `j`: move the cursor down.
pub const CODE_J: i32 = 106;

/// The code of `k`: move the cursor up.
pub const CODE_K: i32 = 107;

/// The code of `q`: quit.
pub const CODE_Q: i32 = 113;

/// The code of `x`: tick the item under the cursor off, or on again.
pub const CODE_X: i32 = 120;

/// The code that curses reports for the down arrow.
pub const CODE_DOWN: i32 = 258;

/// The code that curses reports for the up arrow.
pub const CODE_UP: i32 = 259;

/// Which interaction is active. `Edit` carries the index being edited.
#[derive(Debug, Clone, Copy, PartialEq, Eq)]
pub enum Screen {
    List,
    Add,
    Edit(i32),
}

/// A key as the list screen understands it.
#[derive(Debug, Clone, Copy, PartialEq, Eq)]
pub enum Key {
    Down,
    Up,
    Quit,
    Add,
    Toggle,
    Delete,
    Duplicate,
    Edit,
    Other,
}

/// The key that a key code stands for on the list screen.
pub open spec fn key_of(code: int) -> Key {
    if code == CODE_J || code == CODE_DOWN {
        Key::Down
    } else if code == CODE_K || code == CODE_UP {
        Key::Up
    } else if code == CODE_Q {
        Key::Quit
    } else if code == CODE_A {
        Key::Add
    } else if code == CODE_X {
        Key::Toggle
    } else if code == CODE_D {
        Key::Delete
    } else if code == CODE_C {
        Key::Duplicate
    } else if code == CODE_E || code == CODE_ENTER {
        Key::Edit
    } else {
        Key::Other
    }
}

/// The code of the down arrow, as the terminal library has it.
///
/// Trusted: the body reads the constant `ncurses::KEY_DOWN`, which the
/// crate defines as 0x102.
#[verifier::external_body]
fn key_down() -> (code: i32)
    ensures
        code == CODE_DOWN,
{
    ncurses::KEY_DOWN
}

/// The code of the up arrow, as the terminal library has it.
///
/// Trusted: the body reads the constant `ncurses::KEY_UP`, which the crate
/// defines as 0x103.
#[verifier::external_body]
fn key_up() -> (code: i32)
    ensures
        code == CODE_UP,
{
    ncurses::KEY_UP
}

/// Decodes a raw key code. Every code that the list screen gives no meaning
/// to becomes `Key::Other`.
pub fn decode_key(code: i32) -> (key: Key)
    ensures
        key == key_of(code as int),
{
    if code == CODE_J || code == key_down() {
        Key::Down
    } else if code == CODE_K || code == key_up() {
        Key::Up
    } else if code == CODE_Q {
        Key::Quit
    } else if code == CODE_A {
        Key::Add
    } else if code == CODE_X {
        Key::Toggle
    } else if code == CODE_D {
        Key::Delete
    } else if code == CODE_C {
        Key::Duplicate
    } else if code == CODE_E || code == CODE_ENTER {
        Key::Edit
    } else {
        Key::Other
    }
}

/// The cursor is a position that a list of `len` items admits: an index of
/// the list, or 0 when the list is empty.
pub open spec fn cursor_valid(cursor: int, len: int) -> bool {
    (len == 0 && cursor == 0) || (0 <= cursor < len)
}

/// The state is one that the program can be in: the cursor stands on the
/// list, and the edit screen edits the item under the cursor.
pub open spec fn state_valid(len: int, cursor: int, screen: Screen) -> bool {
    cursor_valid(cursor, len) && (screen matches Screen::Edit(index) ==> index == cursor && 0
        <= index < len)
}

/// One step down: the cursor moves on by one and stops at the last item.
/// An empty list leaves it alone. The cursor is a 32-bit number and never
/// moves past the largest of them.
pub open spec fn cursor_down(cursor: int, len: int) -> int {
    if len == 0 {
        cursor
    } else {
        let target = if cursor + 1 < len - 1 {
            cursor + 1
        } else {
            len - 1
        };
        if target > i32::MAX {
            i32::MAX as int
        } else {
            target
        }
    }
}

/// One step up: the cursor moves back by one and stops at 0.
pub open spec fn cursor_up(cursor: int) -> int {
    if cursor - 1 <= 0 {
        0
    } else {
        cursor - 1
    }
}

/// The list after `key` was pressed with the cursor at `cursor`.
pub open spec fn list_after_key(list: Seq<Item>, cursor: int, key: Key) -> Seq<Item> {
    match key {
        Key::Toggle => toggled(list, cursor),
        Key::Delete => deleted(list, cursor),
        Key::Duplicate => duplicated(list, cursor),
        _ => list,
    }
}

/// The cursor after `key` was pressed on a list of `len` items.
pub open spec fn cursor_after_key(cursor: int, len: int, key: Key) -> int {
    match key {
        Key::Down => cursor_down(cursor, len),
        Key::Up => cursor_up(cursor),
        Key::Quit => QUIT as int,
        Key::Delete => cursor_after_delete(cursor, len, cursor),
        _ => cursor,
    }
}

/// The screen after `key` was pressed: `Add` opens the prompt for a new
/// item, `Edit` opens it for the item under the cursor unless the list is
/// empty.
pub open spec fn screen_after_key(screen: Screen, cursor: i32, len: int, key: Key) -> Screen {
    match key {
        Key::Add => Screen::Add,
        Key::Edit => if len > 0 {
            Screen::Edit(cursor)
        } else {
            screen
        },
        _ => screen,
    }
}

/// Whether `key` changes the list: only toggling, deleting and duplicating
/// do, and only when the cursor names an item.
pub open spec fn key_changes_list(list: Seq<Item>, cursor: int, key: Key) -> bool {
    (key == Key::Toggle || key == Key::Delete || key == Key::Duplicate) && holds(list, cursor)
}

/// The cursor after `n` steps down.
pub open spec fn down_times(cursor: int, len: int, n: nat) -> int
    decreases n,
{
    if n == 0 {
        cursor
    } else {
        cursor_down(down_times(cursor, len, (n - 1) as nat), len)
    }
}

/// The cursor after `n` steps up.
pub open spec fn up_times(cursor: int, n: nat) -> int
    decreases n,
{
    if n == 0 {
        cursor
    } else {
        cursor_up(up_times(cursor, (n - 1) as nat))
    }
}

/// On a list whose last index is a 32-bit number, one step down is one
/// more, clamped to the last index.
pub proof fn lemma_down_is_clamped_step(cursor: int, len: int)
    requires
        0 < len <= i32::MAX + 1,
    ensures
        cursor_down(cursor, len) == if cursor + 1 < len - 1 {
            cursor + 1
        } else {
            len - 1
        },
{
}

/// On such a list `n` steps down from a cursor on the list are `n` more,
/// clamped to the last index.
pub proof fn lemma_down_times_is_clamped_sum(cursor: int, len: int, n: nat)
    requires
        0 <= cursor < len <= i32::MAX + 1,
    ensures
        down_times(cursor, len, n) == if cursor + n < len - 1 {
            cursor + n
        } else {
            len - 1
        },
    decreases n,
{
    if n > 0 {
        lemma_down_times_is_clamped_sum(cursor, len, (n - 1) as nat);
    }
}

/// `n` steps up from a cursor that is not negative are `n` less, clamped
/// to 0.
pub proof fn lemma_up_times_is_clamped_difference(cursor: int, n: nat)
    requires
        0 <= cursor,
    ensures
        up_times(cursor, n) == if cursor - n > 0 {
            cursor - n
        } else {
            0
        },
    decreases n,
{
    if n > 0 {
        lemma_up_times_is_clamped_difference(cursor, (n - 1) as nat);
    }
}

/// However often the cursor steps down, it stays on the list and never
/// passes the last item.
pub proof fn lemma_down_stays_on_list(cursor: int, len: int, n: nat)
    requires
        cursor_valid(cursor, len),
    ensures
        cursor_valid(down_times(cursor, len, n), len),
        len > 0 ==> down_times(cursor, len, n) <= len - 1,
    decreases n,
{
    if n > 0 {
        lemma_down_stays_on_list(cursor, len, (n - 1) as nat);
    }
}

/// However often the cursor steps up, it never goes below 0 and never
/// moves on.
pub proof fn lemma_up_stays_above_zero(cursor: int, n: nat)
    requires
        0 <= cursor,
    ensures
        0 <= up_times(cursor, n) <= cursor,
    decreases n,
{
    if n > 0 {
        lemma_up_stays_above_zero(cursor, (n - 1) as nat);
    }
}

/// On the list screen every key but the one that quits leads from a state
/// that the program can be in to another such state: the cursor stays on
/// the list whatever is deleted, and the edit screen opens only on an item.
pub proof fn lemma_key_keeps_state_valid(list: Seq<Item>, cursor: i32, key: Key)
    requires
        cursor_valid(cursor as int, list.len() as int),
        key != Key::Quit,
    ensures
        state_valid(
            list_after_key(list, cursor as int, key).len() as int,
            cursor_after_key(cursor as int, list.len() as int, key),
            screen_after_key(Screen::List, cursor, list.len() as int, key),
        ),
{
}

/// Moves the cursor one step down.
pub fn move_down(cur_index: i32, len: usize) -> (next: i32)
    ensures
        next == cursor_down(cur_index as int, len as int),
{
    if len == 0 {
        cur_index
    } else if cur_index >= 0 && cur_index as usize >= len - 1 {
        (len - 1) as i32
    } else if cur_index < i32::MAX {
        cur_index + 1
    } else {
        cur_index
    }
}

/// Moves the cursor one step up.
pub fn move_up(cur_index: i32) -> (next: i32)
    ensures
        next == cursor_up(cur_index as int),
{
    if cur_index <= 1 {
        0
    } else {
        cur_index - 1
    }
}

/// Applies one key of the list screen to the state. Returns whether the
/// list changed, in which case the caller has to save it.
pub fn listen_key(
    key: Key,
    cur_index: &mut i32,
    screen: &mut Screen,
    todos: &mut Vec<Todo>,
) -> (changed: bool)
    ensures
        items(final(todos)@) == list_after_key(items(old(todos)@), *old(cur_index) as int, key),
        *final(cur_index) == cursor_after_key(
            *old(cur_index) as int,
            items(old(todos)@).len() as int,
            key,
        ),
        *final(screen) == screen_after_key(
            *old(screen),
            *old(cur_index),
            items(old(todos)@).len() as int,
            key,
        ),
        changed == key_changes_list(items(old(todos)@), *old(cur_index) as int, key),
        !changed ==> items(final(todos)@) == items(old(todos)@),
        key != Key::Quit && *old(screen) == Screen::List && cursor_valid(
            *old(cur_index) as int,
            items(old(todos)@).len() as int,
        ) ==> state_valid(
            items(final(todos)@).len() as int,
            *final(cur_index) as int,
            *final(screen),
        ),
{
    match key {
        Key::Down => {
            *cur_index = move_down(*cur_index, todos.len());
            false
        },
        Key::Up => {
            *cur_index = move_up(*cur_index);
            false
        },
        Key::Quit => {
            *cur_index = QUIT;
            false
        },
        Key::Add => {
            *screen = Screen::Add;
            false
        },
        Key::Toggle => do_undo(*cur_index, todos),
        Key::Delete => {
            let at = *cur_index;
            delete_todo(at, cur_index, todos)
        },
        Key::Duplicate => duplicate_todo(*cur_index, todos),
        Key::Edit => {
            if !todos.is_empty() {
                *screen = Screen::Edit(*cur_index);
            }
            false
        },
        Key::Other => false,
    }
}

} // verus!
