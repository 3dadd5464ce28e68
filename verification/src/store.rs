//! The item store: the five operations that change the list.
//!
//! Every operation that takes an index is guarded: an index that names no
//! item leaves the list, and the cursor, as they were.

use vstd::prelude::*;
use crate::item::{items, Item, Todo};

verus! {

/// `index` names an item of `list`.
pub open spec fn holds(list: Seq<Item>, index: int) -> bool {
    0 <= index < list.len()
}

/// The list after a new, undone item with `text` was put at its end.
pub open spec fn added(list: Seq<Item>, text: Seq<char>) -> Seq<Item> {
    list.push(Item { text, done: false })
}

/// The list after the done flag at `index` was flipped.
pub open spec fn toggled(list: Seq<Item>, index: int) -> Seq<Item> {
    if holds(list, index) {
        list.update(index, Item { text: list[index].text, done: !list[index].done })
    } else {
        list
    }
}

/// The list after a copy of the item at `index` was put at its end.
pub open spec fn duplicated(list: Seq<Item>, index: int) -> Seq<Item> {
    if holds(list, index) {
        list.push(list[index])
    } else {
        list
    }
}

/// The list after the item at `index` was taken out.
pub open spec fn deleted(list: Seq<Item>, index: int) -> Seq<Item> {
    if holds(list, index) {
        list.remove(index)
    } else {
        list
    }
}

/// Where the cursor stands after the item at `index` was taken out of a
/// list of `len` items: taking out the last item of the list sends the
/// cursor to the new last item, or to 0 when none is left.
pub open spec fn cursor_after_delete(cursor: int, len: int, index: int) -> int {
    if 0 <= index && index == len - 1 {
        if index - 1 <= 0 {
            0
        } else {
            index - 1
        }
    } else {
        cursor
    }
}

/// The list after the item at `index` was given the text `text`. An empty
/// text takes the item out instead.
pub open spec fn updated(list: Seq<Item>, index: int, text: Seq<char>) -> Seq<Item> {
    if text.len() == 0 {
        deleted(list, index)
    } else if holds(list, index) {
        list.update(index, Item { text, done: list[index].done })
    } else {
        list
    }
}

/// Where the cursor stands after `updated`: it moves only when the empty
/// text took an item out.
pub open spec fn cursor_after_update(cursor: int, len: int, index: int, text: Seq<char>) -> int {
    if text.len() == 0 {
        cursor_after_delete(cursor, len, index)
    } else {
        cursor
    }
}

/// Adding puts exactly one item at the end of the list, with the given
/// text and not yet done, and leaves every other item where it was.
pub proof fn lemma_add_appends_one(list: Seq<Item>, text: Seq<char>)
    ensures
        added(list, text).len() == list.len() + 1,
        added(list, text).last() == (Item { text, done: false }),
        added(list, text).drop_last() == list,
{
    assert(added(list, text).drop_last() =~= list);
}

/// Giving an item the empty text deletes it: the list is one shorter, the
/// items before it stay, and the items behind it move up by one.
pub proof fn lemma_update_to_empty_deletes(list: Seq<Item>, index: int)
    requires
        holds(list, index),
    ensures
        updated(list, index, Seq::empty()) == deleted(list, index),
        updated(list, index, Seq::empty()).len() == list.len() - 1,
        forall|j: int| 0 <= j < index ==> updated(list, index, Seq::empty())[j] == list[j],
        forall|j: int|
            index <= j < list.len() - 1 ==> updated(list, index, Seq::empty())[j] == list[j + 1],
{
}

/// Giving an item a text that is not empty changes that text and nothing
/// else.
pub proof fn lemma_update_keeps_the_rest(list: Seq<Item>, index: int, text: Seq<char>)
    requires
        holds(list, index),
        text.len() > 0,
    ensures
        updated(list, index, text).len() == list.len(),
        updated(list, index, text)[index] == (Item { text, done: list[index].done }),
        forall|j: int|
            0 <= j < list.len() && j != index ==> updated(list, index, text)[j] == list[j],
{
}

/// Duplicating leaves the list as it was, the copied item included, and
/// puts the copy behind it.
pub proof fn lemma_duplicate_appends_copy(list: Seq<Item>, index: int)
    requires
        holds(list, index),
    ensures
        duplicated(list, index).len() == list.len() + 1,
        duplicated(list, index).last() == list[index],
        duplicated(list, index).drop_last() == list,
        duplicated(list, index)[index] == list[index],
{
    assert(duplicated(list, index).drop_last() =~= list);
}

/// Toggling twice gives the list back.
pub proof fn lemma_toggle_twice(list: Seq<Item>, index: int)
    ensures
        toggled(toggled(list, index), index) == list,
{
    assert(toggled(toggled(list, index), index) =~= list);
}

/// Deleting the last item of a list sends the cursor to the new last item,
/// or to 0 when the list is empty afterwards, wherever it stood.
pub proof fn lemma_delete_last_reclamps(cursor: int, len: int)
    requires
        len >= 1,
    ensures
        cursor_after_delete(cursor, len, len - 1) == if len >= 2 {
            len - 2
        } else {
            0
        },
{
}

/// Deleting the item under a cursor that stands on the list leaves the
/// cursor on the list.
pub proof fn lemma_delete_keeps_cursor_on_list(list: Seq<Item>, cursor: int)
    requires
        holds(list, cursor),
    ensures
        deleted(list, cursor).len() == list.len() - 1,
        deleted(list, cursor).len() == 0 ==> cursor_after_delete(
            cursor,
            list.len() as int,
            cursor,
        ) == 0,
        deleted(list, cursor).len() > 0 ==> holds(
            deleted(list, cursor),
            cursor_after_delete(cursor, list.len() as int, cursor),
        ),
{
}

/// The position in a vector that `index` names, if it names one.
pub(crate) fn position(index: i32, len: usize) -> (at: Option<usize>)
    ensures
        match at {
            Some(i) => 0 <= index < len && i == index,
            None => !(0 <= index < len),
        },
{
    if index >= 0 && (index as usize) < len {
        Some(index as usize)
    } else {
        None
    }
}

/// Appends a new item with the given text, not yet done.
pub fn add_todo(todo: &str, todos: &mut Vec<Todo>)
    ensures
        items(final(todos)@) == added(items(old(todos)@), todo@),
{
    todos.push(Todo::new(todo));
    assert(items(todos@) =~= added(items(old(todos)@), todo@));
}

/// Flips the done flag of the item at `cur_index`. Returns whether the list
/// changed, that is, whether `cur_index` named an item.
pub fn do_undo(cur_index: i32, todos: &mut Vec<Todo>) -> (changed: bool)
    ensures
        items(final(todos)@) == toggled(items(old(todos)@), cur_index as int),
        changed == holds(items(old(todos)@), cur_index as int),
{
    match position(cur_index, todos.len()) {
        Some(at) => {
            todos[at].done = !todos[at].done;
            assert(items(todos@) =~= toggled(items(old(todos)@), cur_index as int));
            true
        },
        None => false,
    }
}

/// Appends a copy of the item at `cur_index` to the end of the list.
/// Returns whether the list changed.
pub fn duplicate_todo(cur_index: i32, todos: &mut Vec<Todo>) -> (changed: bool)
    ensures
        items(final(todos)@) == duplicated(items(old(todos)@), cur_index as int),
        changed == holds(items(old(todos)@), cur_index as int),
{
    match position(cur_index, todos.len()) {
        Some(at) => {
            let copy = todos[at].clone();
            todos.push(copy);
            assert(items(todos@) =~= duplicated(items(old(todos)@), cur_index as int));
            true
        },
        None => false,
    }
}

/// Takes the item at `index` out of the list and, when that was the last
/// item of the list, moves the cursor to the new last item. Returns whether
/// the list changed.
pub fn delete_todo(index: i32, cur_index: &mut i32, todos: &mut Vec<Todo>) -> (changed: bool)
    ensures
        items(final(todos)@) == deleted(items(old(todos)@), index as int),
        changed == holds(items(old(todos)@), index as int),
        *final(cur_index) == cursor_after_delete(
            *old(cur_index) as int,
            items(old(todos)@).len() as int,
            index as int,
        ),
{
    let len = todos.len();
    match position(index, len) {
        Some(at) => {
            todos.remove(at);
            if at == len - 1 {
                if index - 1 <= 0 {
                    *cur_index = 0;
                } else {
                    *cur_index = index - 1;
                }
            }
            assert(items(todos@) =~= deleted(items(old(todos)@), index as int));
            true
        },
        None => false,
    }
}

/// Gives the item at `index` the text `todo`; an empty text deletes the
/// item instead, as `delete_todo` does. Returns whether the list changed.
pub fn update_todo(
    todo: &str,
    todos: &mut Vec<Todo>,
    index: i32,
    cur_index: &mut i32,
) -> (changed: bool)
    ensures
        items(final(todos)@) == updated(items(old(todos)@), index as int, todo@),
        changed == holds(items(old(todos)@), index as int),
        *final(cur_index) == cursor_after_update(
            *old(cur_index) as int,
            items(old(todos)@).len() as int,
            index as int,
            todo@,
        ),
{
    if todo.is_empty() {
        delete_todo(index, cur_index, todos)
    } else {
        match position(index, todos.len()) {
            Some(at) => {
                todos[at].todo = todo.to_owned();
                assert(items(todos@) =~= updated(items(old(todos)@), index as int, todo@));
                true
            },
            None => false,
        }
    }
}

} // verus!
