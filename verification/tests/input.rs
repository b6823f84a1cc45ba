use paperclip::input::{string_of, TextBuffer};

#[test]
fn typing_goes_in_at_the_cursor() {
    let mut buffer = TextBuffer::new();
    assert!(buffer.is_empty());
    for c in "hello".chars() {
        buffer.add_char(c);
    }
    assert_eq!(buffer.text(), "hello");
    assert_eq!(buffer.cursor(), 5);
    buffer.move_cursor_left();
    buffer.move_cursor_left();
    assert_eq!(buffer.cursor(), 3);
    buffer.add_char('X');
    assert_eq!(buffer.text(), "helXlo");
    assert_eq!(buffer.cursor(), 4);
    assert_eq!(buffer.text_before_cursor(), "helX");
    assert_eq!(buffer.char_count(), 6);
}

#[test]
fn deleting_takes_the_character_before_the_cursor() {
    let mut buffer = TextBuffer::from_text("añb");
    assert_eq!(buffer.cursor(), 3);
    buffer.move_cursor_left();
    assert!(buffer.remove_char());
    assert_eq!(buffer.text(), "ab");
    assert_eq!(buffer.cursor(), 1);
    assert!(buffer.remove_char());
    assert_eq!(buffer.text(), "b");
    assert_eq!(buffer.cursor(), 0);
    assert!(!buffer.remove_char());
    assert_eq!(buffer.text(), "b");
}

#[test]
fn the_cursor_stops_at_both_ends() {
    let mut buffer = TextBuffer::from_text("ab");
    buffer.move_cursor_right();
    assert_eq!(buffer.cursor(), 2);
    buffer.move_cursor_left();
    buffer.move_cursor_left();
    buffer.move_cursor_left();
    assert_eq!(buffer.cursor(), 0);
    assert_eq!(buffer.text_before_cursor(), "");
    buffer.move_cursor_right();
    assert_eq!(buffer.cursor(), 1);
    assert_eq!(buffer.text(), "ab");
}

#[test]
fn characters_of_many_bytes_count_once() {
    let mut buffer = TextBuffer::new();
    buffer.add_char('日');
    buffer.add_char('本');
    assert_eq!(buffer.cursor(), 2);
    assert_eq!(buffer.text(), "日本");
    buffer.move_cursor_left();
    assert_eq!(buffer.text_before_cursor(), "日");
    buffer.add_char('!');
    assert_eq!(buffer.text(), "日!本");
}

#[test]
fn setting_and_clearing() {
    let mut buffer = TextBuffer::default();
    buffer.set_text("notes");
    assert_eq!(buffer.text(), "notes");
    assert_eq!(buffer.cursor(), 5);
    buffer.clear();
    assert!(buffer.is_empty());
    assert_eq!(buffer.cursor(), 0);
    assert_eq!(buffer.text(), "");
    assert_eq!(string_of(&vec!['a', 'b']), "ab");
}
