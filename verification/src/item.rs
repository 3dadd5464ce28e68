//! One todo entry and its mathematical view.

use vstd::prelude::*;

verus! {

/// What an entry is, independent of how its text is stored: the characters
/// of its text and whether it has been ticked off.
pub struct Item {
    pub text: Seq<char>,
    pub done: bool,
}

/// One todo entry. Its identity is its position in the list.
#[derive(Debug, PartialEq, Eq)]
pub struct Todo {
    pub todo: String,
    pub done: bool,
}

impl View for Todo {
    type V = Item;

    open spec fn view(&self) -> Item {
        Item { text: self.todo@, done: self.done }
    }
}

impl Clone for Todo {
    fn clone(&self) -> (copy: Self)
        ensures
            copy == *self,
    {
        Todo { todo: self.todo.clone(), done: self.done }
    }
}

/// The items that a list of entries stands for, in order.
pub open spec fn items(todos: Seq<Todo>) -> Seq<Item> {
    Seq::new(todos.len(), |i: int| todos[i]@)
}

impl Todo {
    /// A fresh entry with the given text, not yet done.
    pub fn new(text: &str) -> (entry: Todo)
        ensures
            entry@ == (Item { text: text@, done: false }),
    {
        Todo { todo: text.to_owned(), done: false }
    }
}

} // verus!
