use trestle::stream::{chunk_data_lines, sse_data_lines};

#[test]
fn keeps_only_data_lines() {
    let text = "event: x\ndata: {\"a\":1}\r\n\ndata: [DONE]";
    assert_eq!(sse_data_lines(text), vec!["{\"a\":1}".to_string(), "[DONE]".to_string()]);
}

#[test]
fn empty_and_prefix_only() {
    assert!(sse_data_lines("").is_empty());
    assert_eq!(sse_data_lines("data: \n"), vec!["".to_string()]);
    assert!(sse_data_lines("data:x\n").is_empty());
    assert!(sse_data_lines(" data: x\n").is_empty());
}

#[test]
fn carriage_return_is_kept_without_line_feed() {
    assert_eq!(sse_data_lines("data: a\r"), vec!["a\r".to_string()]);
    assert_eq!(sse_data_lines("data: a\r\n"), vec!["a".to_string()]);
}

#[test]
fn chunks_are_decoded_lossily() {
    let bytes = b"data: ok\ndata: \xff!\n";
    assert_eq!(
        chunk_data_lines(bytes),
        vec!["ok".to_string(), "\u{fffd}!".to_string()]
    );
}
