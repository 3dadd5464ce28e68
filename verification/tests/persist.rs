use todo_list::persist::{add_to_gitignore, full_path, todo_filename};

#[test]
fn path_joins_with_a_slash() {
    assert_eq!(full_path("/home/me/work", ".todo.json"), "/home/me/work/.todo.json");
    assert_eq!(full_path("", "x"), "/x");
    assert_eq!(full_path("/tmp", ""), "/tmp/");
}

#[test]
fn filename_defaults_to_the_dotfile() {
    assert_eq!(todo_filename(None), ".todo.json");
    assert_eq!(todo_filename(Some("work.json".to_string())), "work.json");
    assert_eq!(todo_filename(Some(String::new())), "");
}

#[test]
fn no_ignore_file_means_nothing_to_append() {
    assert_eq!(add_to_gitignore(None, ".todo.json"), None);
}

#[test]
fn unlisted_file_gets_a_line() {
    assert_eq!(
        add_to_gitignore(Some("target\n"), ".todo.json"),
        Some(".todo.json\n".to_string())
    );
    assert_eq!(add_to_gitignore(Some(""), ".todo.json"), Some(".todo.json\n".to_string()));
}

#[test]
fn listed_file_gets_nothing() {
    assert_eq!(add_to_gitignore(Some("target\n.todo.json\n"), ".todo.json"), None);
    assert_eq!(add_to_gitignore(Some(".todo.json"), ".todo.json"), None);
    assert_eq!(add_to_gitignore(Some("my.todo.json.bak\n"), ".todo.json"), None);
}

#[test]
fn saving_twice_lists_the_file_once() {
    let filename = ".todo.json";
    for start in ["", "target\n", "target", "# notes\n*.log\n"] {
        let mut contents = start.to_string();
        for _ in 0..3 {
            if let Some(line) = add_to_gitignore(Some(&contents), filename) {
                contents.push_str(&line);
            }
        }
        assert_eq!(contents, format!("{}{}\n", start, filename));
        assert_eq!(contents.matches(filename).count(), 1);
        assert_eq!(add_to_gitignore(Some(&contents), filename), None);
    }
}

#[test]
fn already_listed_file_is_never_listed_again() {
    let start = ".todo.json\ntarget\n";
    assert_eq!(add_to_gitignore(Some(start), ".todo.json"), None);
}
