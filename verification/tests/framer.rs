use arduino_client::framer::{encode_line, FrameError, LineFramer};

#[test]
fn next_line_yields_complete_line() {
    let mut framer = LineFramer::new();
    framer.push_bytes(b"hello\nworld");
    let line = framer.next_line();
    assert_eq!(line, Some(b"hello".to_vec()));
    assert!(framer.has_pending());
    assert_eq!(framer.next_line(), None);
}

#[test]
fn next_line_buffers_partial_line_across_pushes() {
    let mut framer = LineFramer::new();
    framer.push_bytes(b"12");
    assert_eq!(framer.next_line(), None);
    framer.push_bytes(b"3\n45\n");
    assert_eq!(framer.next_line(), Some(b"123".to_vec()));
    assert_eq!(framer.next_line(), Some(b"45".to_vec()));
    assert_eq!(framer.next_line(), None);
    assert!(!framer.has_pending());
}

#[test]
fn next_line_strips_carriage_return() {
    let mut framer = LineFramer::new();
    framer.push_bytes(b"ok\r\nrest\n");
    assert_eq!(framer.next_line(), Some(b"ok".to_vec()));
    assert_eq!(framer.next_line(), Some(b"rest".to_vec()));
}

#[test]
fn next_line_keeps_inner_carriage_return() {
    let mut framer = LineFramer::new();
    framer.push_bytes(b"a\rb\n");
    assert_eq!(framer.next_line(), Some(b"a\rb".to_vec()));
}

#[test]
fn next_line_empty_line_is_a_line() {
    let mut framer = LineFramer::new();
    framer.push_bytes(b"\n");
    assert_eq!(framer.next_line(), Some(Vec::new()));
    assert!(!framer.has_pending());
}

#[test]
fn finish_clean_end_of_stream() {
    let mut framer = LineFramer::new();
    framer.push_bytes(b"done\n");
    assert_eq!(framer.next_line(), Some(b"done".to_vec()));
    assert_eq!(framer.finish(), Ok(()));
}

#[test]
fn finish_rejects_incomplete_trailing_frame() {
    let mut framer = LineFramer::new();
    framer.push_bytes(b"no terminator");
    assert_eq!(framer.finish(), Err(FrameError::IncompleteTrailingFrame));
}

#[test]
fn encode_line_appends_terminator() {
    assert_eq!(encode_line(b"ping"), b"ping\n".to_vec());
    assert_eq!(encode_line(b""), b"\n".to_vec());
}
