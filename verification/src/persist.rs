//! What saving needs besides the bytes: where the file lies, what it is
//! called when the user names none, and the line that keeps it out of
//! version control.
//!
//! Nothing here touches the file system. The caller reads the ignore file,
//! if there is one, and appends what `add_to_gitignore` hands back.

use vstd::prelude::*;
use vstd::string::StringExecFns;
use crate::text::{contains, occurs, occurs_at, push_char};

verus! {

/// The path of `filename` inside the directory `dir`.
pub open spec fn path_in(dir: Seq<char>, filename: Seq<char>) -> Seq<char> {
    dir.push('/') + filename
}

/// Joins a directory and a file name with a slash.
pub fn full_path(dir: &str, filename: &str) -> (path: String)
    ensures
        path@ == path_in(dir@, filename@),
{
    let mut path = String::from_str(dir);
    push_char(&mut path, '/');
    path.append(filename);
    path
}

/// The name of the todo file: the one the user gave, or `.todo.json`.
pub fn todo_filename(given: Option<String>) -> (filename: String)
    ensures
        match given {
            Some(name) => filename@ == name@,
            None => filename@ == ".todo.json"@,
        },
{
    match given {
        Some(name) => name,
        None => String::from_str(".todo.json"),
    }
}

/// The line that lists `filename` in an ignore file.
pub open spec fn ignore_line(filename: Seq<char>) -> Seq<char> {
    filename.push('\n')
}

/// The ignore file after saving: a file that already holds `filename`
/// somewhere stays as it is, any other gets the line for it at its end.
pub open spec fn gitignore_after(contents: Seq<char>, filename: Seq<char>) -> Seq<char> {
    if occurs(contents, filename) {
        contents
    } else {
        contents + ignore_line(filename)
    }
}

/// Decides what saving appends to the ignore file. `gitignore` is what the
/// file holds, or `None` when there is no such file. The answer is the text
/// to append, or `None` when nothing is to be done: there is no ignore
/// file, or it holds `filename` already.
pub fn add_to_gitignore(gitignore: Option<&str>, filename: &str) -> (line: Option<String>)
    ensures
        match (gitignore, line) {
            (Some(contents), Some(text)) => !occurs(contents@, filename@) && text@ == ignore_line(
                filename@,
            ),
            (Some(contents), None) => occurs(contents@, filename@),
            (None, Some(_)) => false,
            (None, None) => true,
        },
{
    match gitignore {
        Some(contents) => {
            if contains(contents, filename) {
                None
            } else {
                let mut text = String::from_str(filename);
                push_char(&mut text, '\n');
                Some(text)
            }
        },
        None => None,
    }
}

/// Once the line for `filename` was appended, the ignore file holds
/// `filename`.
pub proof fn lemma_listed_after_saving(contents: Seq<char>, filename: Seq<char>)
    ensures
        occurs(gitignore_after(contents, filename), filename),
{
    if !occurs(contents, filename) {
        let after = contents + ignore_line(filename);
        let at = contents.len() as int;
        assert(after.subrange(at, at + filename.len()) =~= filename);
        assert(occurs_at(after, filename, at));
    }
}

/// Saving twice leaves the ignore file as saving once does: the second
/// time nothing is appended, so no file name is ever listed twice by
/// saving.
pub proof fn lemma_gitignore_idempotent(contents: Seq<char>, filename: Seq<char>)
    ensures
        gitignore_after(gitignore_after(contents, filename), filename) == gitignore_after(
            contents,
            filename,
        ),
{
    lemma_listed_after_saving(contents, filename);
}

} // verus!
