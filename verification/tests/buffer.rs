use finfo::buffer::BatchBuffer;

#[test]
fn a_new_buffer_is_empty() {
    let buffer = BatchBuffer::new();
    assert_eq!(buffer.len(), 0);
    assert!(buffer.is_empty());
    assert_eq!(buffer.joined(), "");
}

#[test]
fn one_line_is_joined_without_a_newline() {
    let mut buffer = BatchBuffer::new();
    buffer.append("a 1".to_string());
    assert_eq!(buffer.len(), 1);
    assert!(!buffer.is_empty());
    assert_eq!(buffer.joined(), "a 1");
}

#[test]
fn lines_are_joined_in_append_order_without_a_trailing_newline() {
    let mut buffer = BatchBuffer::new();
    buffer.append("a".to_string());
    buffer.append("b".to_string());
    buffer.append("c".to_string());
    assert_eq!(buffer.len(), 3);
    assert_eq!(buffer.joined(), "a\nb\nc");
    assert_eq!(buffer.len(), 3);
}

#[test]
fn empty_lines_are_lines_too() {
    let mut buffer = BatchBuffer::new();
    buffer.append(String::new());
    buffer.append("x".to_string());
    buffer.append(String::new());
    assert_eq!(buffer.joined(), "\nx\n");
}

#[test]
fn drain_hands_out_everything_and_empties_the_buffer() {
    let mut buffer = BatchBuffer::new();
    buffer.append("a".to_string());
    buffer.append("b".to_string());
    assert_eq!(buffer.drain(), "a\nb");
    assert_eq!(buffer.len(), 0);
    assert_eq!(buffer.drain(), "");
    buffer.append("c".to_string());
    assert_eq!(buffer.drain(), "c");
}

#[test]
fn extend_appends_in_order() {
    let mut buffer = BatchBuffer::new();
    buffer.append("a".to_string());
    buffer.extend(vec!["b".to_string(), "c".to_string()]);
    buffer.extend(Vec::new());
    assert_eq!(buffer.len(), 3);
    assert_eq!(buffer.joined(), "a\nb\nc");
}

#[test]
fn joined_front_takes_the_oldest_lines() {
    let mut buffer = BatchBuffer::new();
    buffer.extend(vec!["a".to_string(), "b".to_string(), "c".to_string()]);
    assert_eq!(buffer.joined_front(0), "");
    assert_eq!(buffer.joined_front(1), "a");
    assert_eq!(buffer.joined_front(2), "a\nb");
    assert_eq!(buffer.joined_front(3), "a\nb\nc");
    assert_eq!(buffer.joined_front(9), "a\nb\nc");
    assert_eq!(buffer.len(), 3);
}

#[test]
fn discard_front_removes_the_oldest_lines() {
    let mut buffer = BatchBuffer::new();
    buffer.extend(vec!["a".to_string(), "b".to_string(), "c".to_string()]);
    buffer.discard_front(0);
    assert_eq!(buffer.joined(), "a\nb\nc");
    buffer.discard_front(2);
    assert_eq!(buffer.joined(), "c");
    buffer.discard_front(5);
    assert!(buffer.is_empty());
}
