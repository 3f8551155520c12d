use devlink::text::frame_line;
use devlink::text::greet;
use devlink::text::not_found_message;
use devlink::text::serial_open_error_message;
use devlink::text::tagged_message;
use devlink::text::trim_line_end;

#[test]
fn frame_appends_newline() {
    assert_eq!(frame_line("hello"), b"hello\n".to_vec());
}

#[test]
fn frame_normalizes_an_existing_terminator() {
    // Input already ending in a newline still goes out with exactly one.
    assert_eq!(frame_line("hello\n"), b"hello\n".to_vec());
}

#[test]
fn frame_collapses_repeated_terminators() {
    assert_eq!(frame_line("a\n\n"), b"a\n".to_vec());
}

#[test]
fn frame_empty_line() {
    assert_eq!(frame_line(""), b"\n".to_vec());
}

#[test]
fn frame_terminator_is_last_byte() {
    let framed = frame_line("abc");
    assert_eq!(*framed.last().unwrap(), b'\n');
    assert_eq!(framed.len(), 4);
}

#[test]
fn trim_strips_line_terminators() {
    assert_eq!(trim_line_end("abc\r\n"), "abc".to_string());
    assert_eq!(trim_line_end("abc\n"), "abc".to_string());
}

#[test]
fn trim_keeps_untrimmed_line() {
    assert_eq!(trim_line_end("abc"), "abc".to_string());
}

#[test]
fn trim_keeps_inner_blanks() {
    assert_eq!(trim_line_end("a b\t c\n"), "a b\t c".to_string());
}

#[test]
fn trim_strips_the_terminator_only() {
    // Trailing blanks that are part of the payload stay.
    assert_eq!(trim_line_end("x \n"), "x ".to_string());
    assert_eq!(trim_line_end(" \t\r\n"), " \t".to_string());
    assert_eq!(trim_line_end(""), "".to_string());
}

#[test]
fn not_found_message_exact() {
    assert_eq!(
        not_found_message("COM7"),
        "Connection COM7 not found".to_string()
    );
}

#[test]
fn serial_open_error_message_exact() {
    assert_eq!(
        serial_open_error_message("/dev/ttyUSB0", "busy"),
        "Failed to open serial port /dev/ttyUSB0: busy".to_string()
    );
}

#[test]
fn tagged_message_concatenates() {
    assert_eq!(
        tagged_message("Failed to flush TCP: ", "broken pipe"),
        "Failed to flush TCP: broken pipe".to_string()
    );
}

#[test]
fn greet_exact() {
    assert_eq!(
        greet("Ada"),
        "Hello, Ada! You've been greeted from Rust!".to_string()
    );
}

#[test]
fn frame_keeps_multibyte_text_intact() {
    let framed = frame_line("héllo");
    let mut expected = "héllo".as_bytes().to_vec();
    expected.push(b'\n');
    assert_eq!(framed, expected);
}

#[test]
fn trim_handles_multibyte_text() {
    assert_eq!(trim_line_end("héllo\r\n"), "héllo".to_string());
}
