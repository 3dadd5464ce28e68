use todo_list::input::{commit_input, decode_input, start_input, type_key, Echo, InputKey};
use todo_list::item::Todo;
use todo_list::screen::Screen;

fn pair() -> Vec<Todo> {
    vec![
        Todo { todo: "milk".to_string(), done: false },
        Todo { todo: "eggs".to_string(), done: true },
    ]
}

#[test]
fn newline_confirms() {
    assert_eq!(decode_input(10), InputKey::Confirm);
}

#[test]
fn delete_and_backspace_erase() {
    assert_eq!(decode_input(127), InputKey::Erase);
    assert_eq!(decode_input(263), InputKey::Erase);
}

#[test]
fn other_codes_type_their_low_byte() {
    assert_eq!(decode_input(97), InputKey::Char('a'));
    assert_eq!(decode_input(32), InputKey::Char(' '));
    assert_eq!(decode_input(106), InputKey::Char('j'));
    assert_eq!(decode_input(233), InputKey::Char('é'));
    assert_eq!(decode_input(0), InputKey::Char('\0'));
    assert_eq!(decode_input(256 + 65), InputKey::Char('A'));
    assert_eq!(decode_input(259), InputKey::Char('\u{3}'));
    assert_eq!(decode_input(-1), InputKey::Char('\u{ff}'));
    assert_eq!(decode_input(-256), InputKey::Char('\0'));
    assert_eq!(decode_input(i32::MIN), InputKey::Char('\0'));
    assert_eq!(decode_input(i32::MAX), InputKey::Char('\u{ff}'));
}

#[test]
fn typing_appends_and_echoes() {
    let mut buffer = String::new();
    assert_eq!(type_key(&mut buffer, InputKey::Char('h')), Echo::Put('h'));
    assert_eq!(type_key(&mut buffer, InputKey::Char('i')), Echo::Put('i'));
    assert_eq!(buffer, "hi");
}

#[test]
fn erasing_drops_the_last_character() {
    let mut buffer = "héé".to_string();
    assert_eq!(type_key(&mut buffer, InputKey::Erase), Echo::Erase);
    assert_eq!(buffer, "hé");
    assert_eq!(type_key(&mut buffer, InputKey::Erase), Echo::Erase);
    assert_eq!(type_key(&mut buffer, InputKey::Erase), Echo::Erase);
    assert_eq!(buffer, "");
}

#[test]
fn erasing_an_empty_buffer_does_nothing() {
    let mut buffer = String::new();
    assert_eq!(type_key(&mut buffer, InputKey::Erase), Echo::Nothing);
    assert_eq!(buffer, "");
}

#[test]
fn confirming_leaves_the_buffer() {
    let mut buffer = "done".to_string();
    assert_eq!(type_key(&mut buffer, InputKey::Confirm), Echo::Finish);
    assert_eq!(buffer, "done");
}

#[test]
fn add_prompt_starts_empty() {
    assert_eq!(start_input(Screen::Add, &pair()), "");
    assert_eq!(start_input(Screen::List, &pair()), "");
}

#[test]
fn edit_prompt_starts_with_the_item_text() {
    assert_eq!(start_input(Screen::Edit(0), &pair()), "milk");
    assert_eq!(start_input(Screen::Edit(1), &pair()), "eggs");
}

#[test]
fn edit_prompt_for_no_item_starts_empty() {
    assert_eq!(start_input(Screen::Edit(2), &pair()), "");
    assert_eq!(start_input(Screen::Edit(-1), &pair()), "");
    assert_eq!(start_input(Screen::Edit(0), &Vec::new()), "");
}

#[test]
fn committing_an_add_appends_the_buffer() {
    let mut todos = pair();
    let mut cursor = 1;
    let mut screen = Screen::Add;
    assert!(commit_input("x", &mut screen, &mut cursor, &mut todos));
    assert_eq!(screen, Screen::List);
    assert_eq!(cursor, 1);
    assert_eq!(todos.len(), 3);
    assert_eq!(todos[2], Todo { todo: "x".to_string(), done: false });
    assert_eq!(&todos[..2], &pair()[..]);
}

#[test]
fn committing_an_empty_add_discards_it() {
    let mut todos = pair();
    let mut cursor = 0;
    let mut screen = Screen::Add;
    assert!(!commit_input("", &mut screen, &mut cursor, &mut todos));
    assert_eq!(screen, Screen::List);
    assert_eq!(todos, pair());
}

#[test]
fn committing_an_edit_replaces_the_text() {
    let mut todos = pair();
    let mut cursor = 1;
    let mut screen = Screen::Edit(1);
    assert!(commit_input("bread", &mut screen, &mut cursor, &mut todos));
    assert_eq!(screen, Screen::List);
    assert_eq!(cursor, 1);
    assert_eq!(todos[1], Todo { todo: "bread".to_string(), done: true });
    assert_eq!(todos[0], pair()[0]);
}

#[test]
fn committing_an_emptied_edit_deletes_the_item() {
    let mut todos = pair();
    let mut cursor = 1;
    let mut screen = Screen::Edit(1);
    assert!(commit_input("", &mut screen, &mut cursor, &mut todos));
    assert_eq!(screen, Screen::List);
    assert_eq!(todos, vec![Todo { todo: "milk".to_string(), done: false }]);
    assert_eq!(cursor, 0);
}

#[test]
fn committing_an_edit_of_no_item_changes_nothing() {
    let mut todos = pair();
    let mut cursor = 0;
    let mut screen = Screen::Edit(5);
    assert!(!commit_input("x", &mut screen, &mut cursor, &mut todos));
    assert_eq!(screen, Screen::List);
    assert_eq!(todos, pair());
    assert_eq!(cursor, 0);
}

#[test]
fn committing_on_the_list_screen_changes_nothing() {
    let mut todos = pair();
    let mut cursor = 0;
    let mut screen = Screen::List;
    assert!(!commit_input("x", &mut screen, &mut cursor, &mut todos));
    assert_eq!(screen, Screen::List);
    assert_eq!(todos, pair());
}

#[test]
fn a_whole_edit_session() {
    let mut todos = pair();
    let mut cursor = 0;
    let mut screen = Screen::Edit(0);
    let mut buffer = start_input(screen, &todos);
    let mut echoes = Vec::new();
    for code in [127, 263, 110, 116, 10] {
        echoes.push(type_key(&mut buffer, decode_input(code)));
    }
    assert_eq!(
        echoes,
        vec![Echo::Erase, Echo::Erase, Echo::Put('n'), Echo::Put('t'), Echo::Finish]
    );
    assert_eq!(buffer, "mint");
    assert!(commit_input(&buffer, &mut screen, &mut cursor, &mut todos));
    assert_eq!(todos[0].todo, "mint");
}

#[test]
fn backspace_code_of_the_terminal_library_erases() {
    assert_eq!(decode_input(ncurses::KEY_BACKSPACE), InputKey::Erase);
    assert_eq!(ncurses::KEY_BACKSPACE, todo_list::input::CODE_BACKSPACE);
}
