//! What is drawn: one line per item, and the whole screen for each state.

use vstd::prelude::*;
use vstd::string::StringExecFns;
use crate::item::{items, Item, Todo};
use crate::screen::Screen;
use crate::text::{append_decimal, decimal};

verus! {

/// The line that shows `item` at position `i` of the list: the selection
/// marker, the ordinal counted from one, the done marker, and the text.
pub open spec fn line_of(item: Item, i: nat, cursor: int) -> Seq<char> {
    (if i == cursor {
        "* "@
    } else {
        "  "@
    }) + "#"@ + decimal(i + 1) + " "@ + (if item.done {
        "[x] "@
    } else {
        "[ ] "@
    }) + item.text + "\n"@
}

/// The lines of all items of `list`, in order.
pub open spec fn lines_of(list: Seq<Item>, cursor: int) -> Seq<char>
    decreases list.len(),
{
    if list.len() == 0 {
        Seq::empty()
    } else {
        lines_of(list.drop_last(), cursor) + line_of(
            list.last(),
            (list.len() - 1) as nat,
            cursor,
        )
    }
}

/// The banner and the help line that head every screen.
pub open spec fn banner() -> Seq<char> {
    "-------------------------------------------------------------------\n"@
        + "-----------------------------TODO LIST-----------------------------\n"@
        + "-------------------------------------------------------------------\n"@
        + "a: Add, e: Edit, d: Delete, x: Done/Undone, j: DOWN, k: UP, q: Quit\n\n"@
}

/// What the list screen shows below the banner: a notice when there is
/// nothing to do, else the lines of the items.
pub open spec fn list_screen(list: Seq<Item>, cursor: int) -> Seq<char> {
    if list.len() == 0 {
        "--- **NOTHING TODO** ---\n"@
    } else {
        lines_of(list, cursor)
    }
}

/// The whole screen: the banner, then the list on the list screen, and the
/// prompt with what was typed so far on the add and edit screens.
pub open spec fn frame(list: Seq<Item>, cursor: int, screen: Screen, buffer: Seq<char>) -> Seq<
    char,
> {
    match screen {
        Screen::List => banner() + list_screen(list, cursor),
        _ => banner() + "Enter Todo: "@ + buffer,
    }
}

impl Todo {
    /// The line that shows this item at position `i` of the list, with the
    /// selection marker when `cur_index` is `i`.
    pub fn show(&self, i: usize, cur_index: i32) -> (line: String)
        ensures
            line@ == line_of(self@, i as nat, cur_index as int),
    {
        let mut line = if cur_index >= 0 && i == cur_index as usize {
            String::from_str("* ")
        } else {
            String::from_str("  ")
        };
        line.append("#");
        append_decimal(&mut line, i as u128 + 1);
        line.append(" ");
        if self.done {
            line.append("[x] ");
        } else {
            line.append("[ ] ");
        }
        line.append(self.todo.as_str());
        line.append("\n");
        line
    }
}

impl Screen {
    /// Whether the terminal shows its text cursor: only while text is
    /// entered.
    pub fn shows_text_cursor(&self) -> (shown: bool)
        ensures
            shown == (*self != Screen::List),
    {
        match self {
            Screen::List => false,
            _ => true,
        }
    }
}

/// `lines_of` grows by one line when the list grows by one item.
proof fn lemma_lines_step(list: Seq<Item>, cursor: int, n: int)
    requires
        0 <= n < list.len(),
    ensures
        lines_of(list.take(n + 1), cursor) == lines_of(list.take(n), cursor) + line_of(
            list[n],
            n as nat,
            cursor,
        ),
{
    assert(list.take(n + 1).drop_last() =~= list.take(n));
}

/// The lines of all items, one after the other.
pub fn list_todos(todos: &[Todo], cur_index: i32) -> (lines: String)
    ensures
        lines@ == lines_of(items(todos@), cur_index as int),
{
    let mut lines = String::new();
    let mut i: usize = 0;
    while i < todos.len()
        invariant
            i <= todos@.len(),
            lines@ == lines_of(items(todos@).take(i as int), cur_index as int),
        decreases todos@.len() - i,
    {
        let line = todos[i].show(i, cur_index);
        proof {
            lemma_lines_step(items(todos@), cur_index as int, i as int);
        }
        lines.append(line.as_str());
        i += 1;
    }
    assert(items(todos@).take(i as int) =~= items(todos@));
    lines
}

/// The text of the whole screen for the given state. `buffer` is what was
/// typed at the prompt so far; the list screen does not show it.
pub fn render(todos: &[Todo], cur_index: i32, screen: Screen, buffer: &str) -> (text: String)
    ensures
        text@ == frame(items(todos@), cur_index as int, screen, buffer@),
{
    let mut text = String::from_str(
        "-------------------------------------------------------------------\n",
    );
    text.append("-----------------------------TODO LIST-----------------------------\n");
    text.append("-------------------------------------------------------------------\n");
    text.append("a: Add, e: Edit, d: Delete, x: Done/Undone, j: DOWN, k: UP, q: Quit\n\n");
    match screen {
        Screen::List => {
            if todos.len() == 0 {
                text.append("--- **NOTHING TODO** ---\n");
            } else {
                let lines = list_todos(todos, cur_index);
                text.append(lines.as_str());
            }
        },
        _ => {
            text.append("Enter Todo: ");
            text.append(buffer);
        },
    }
    text
}

} // verus!
