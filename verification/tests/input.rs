use mediatimer::input::TextInput;

#[test]
fn insert_goes_in_at_the_cursor() {
    let mut input = TextInput::new();
    assert_eq!(input.text(), "");
    assert_eq!(input.cursor(), 0);
    input.insert('a');
    input.insert('c');
    assert_eq!(input.text(), "ac");
    assert_eq!(input.cursor(), 2);
    input.move_left();
    input.insert('b');
    assert_eq!(input.text(), "abc");
    assert_eq!(input.cursor(), 2);
    input.move_left();
    input.move_left();
    input.insert('_');
    assert_eq!(input.text(), "_abc");
    assert_eq!(input.cursor(), 1);
}

#[test]
fn delete_takes_the_character_left_of_the_cursor() {
    let mut input = TextInput::with_text("abc");
    assert_eq!(input.cursor(), 3);
    input.delete_before_cursor();
    assert_eq!(input.text(), "ab");
    assert_eq!(input.cursor(), 2);
    input.move_left();
    input.delete_before_cursor();
    assert_eq!(input.text(), "b");
    assert_eq!(input.cursor(), 0);
    // at the start nothing happens
    input.delete_before_cursor();
    assert_eq!(input.text(), "b");
    assert_eq!(input.cursor(), 0);
}

#[test]
fn cursor_stays_within_the_text() {
    let mut input = TextInput::with_text("abcd");
    for _ in 0..10 {
        input.move_right();
        assert!(input.cursor() <= input.len());
    }
    assert_eq!(input.cursor(), 4);
    for step in 0..10 {
        input.move_left();
        assert_eq!(input.cursor(), 3usize.saturating_sub(step));
    }
    assert_eq!(input.cursor(), 0);
    input.move_right();
    input.move_left();
    input.move_right();
    input.move_right();
    assert_eq!(input.cursor(), 2);
    assert_eq!(input.text(), "abcd");
}

#[test]
fn cursor_of_an_empty_text_does_not_move() {
    let mut input = TextInput::new();
    input.move_left();
    assert_eq!(input.cursor(), 0);
    input.move_right();
    assert_eq!(input.cursor(), 0);
    input.delete_before_cursor();
    assert_eq!(input.len(), 0);
}

#[test]
fn positions_count_characters_not_bytes() {
    let mut input = TextInput::with_text("aé→z");
    assert_eq!(input.len(), 4);
    assert_eq!(input.cursor(), 4);
    input.move_left();
    input.move_left();
    input.insert('ß');
    assert_eq!(input.text(), "aéß→z");
    assert_eq!(input.cursor(), 3);
    input.delete_before_cursor();
    input.delete_before_cursor();
    assert_eq!(input.text(), "a→z");
    assert_eq!(input.cursor(), 1);
    assert_eq!(input.chars(), &vec!['a', '→', 'z']);
}

#[test]
fn clear_empties_the_line() {
    let mut input = TextInput::with_text("10:00:00-11:00:00");
    assert_eq!(input.len(), 17);
    input.move_to_start();
    assert_eq!(input.cursor(), 0);
    assert_eq!(input.len(), 17);
    input.clear();
    assert_eq!(input.text(), "");
    assert_eq!(input.cursor(), 0);
}
