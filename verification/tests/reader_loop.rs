use devlink::reader::reader_step;
use devlink::reader::run_reader;
use devlink::reader::ReadEvent;

#[test]
fn line_is_trimmed_and_emitted() {
    let step = reader_step("dev", &ReadEvent::Line("hello\r\n".to_string()), 42);
    assert!(step.keep_running);
    let msg = step.message.unwrap();
    assert_eq!(msg.connection_id, "dev".to_string());
    assert_eq!(msg.data, "hello".to_string());
    assert_eq!(msg.timestamp, 42);
    assert!(!msg.is_error);
}

#[test]
fn timeout_is_a_non_event() {
    let step = reader_step("dev", &ReadEvent::Timeout, 1);
    assert!(step.keep_running);
    assert!(step.message.is_none());
}

#[test]
fn eof_ends_the_loop_silently() {
    let step = reader_step("dev", &ReadEvent::Eof, 1);
    assert!(!step.keep_running);
    assert!(step.message.is_none());
}

#[test]
fn failure_emits_one_error_message_and_ends_the_loop() {
    let step = reader_step(
        "dev",
        &ReadEvent::Failure("Read error: device unplugged".to_string()),
        9,
    );
    assert!(!step.keep_running);
    let msg = step.message.unwrap();
    assert_eq!(msg.data, "Read error: device unplugged".to_string());
    assert!(msg.is_error);
    assert_eq!(msg.timestamp, 9);
}

#[test]
fn lines_around_a_timeout_arrive_in_order() {
    // A stream yielding "a", a timeout, "b", then end-of-stream delivers
    // exactly the two non-error messages, in order, nothing for the timeout.
    let events = vec![
        (ReadEvent::Line("a\n".to_string()), 1),
        (ReadEvent::Timeout, 2),
        (ReadEvent::Line("b\n".to_string()), 3),
        (ReadEvent::Eof, 4),
    ];
    let msgs = run_reader("dev", &events);
    assert_eq!(msgs.len(), 2);
    assert_eq!(msgs[0].data, "a".to_string());
    assert_eq!(msgs[1].data, "b".to_string());
    assert!(!msgs[0].is_error);
    assert!(!msgs[1].is_error);
    assert_eq!(msgs[0].timestamp, 1);
    assert_eq!(msgs[1].timestamp, 3);
}

#[test]
fn failure_after_a_line_is_reported_once_then_nothing() {
    // A stream yielding "x" then a non-timeout failure delivers the "x"
    // message, exactly one error-flagged message, and nothing after it.
    let events = vec![
        (ReadEvent::Line("x\n".to_string()), 1),
        (ReadEvent::Failure("Read error: io".to_string()), 2),
        (ReadEvent::Line("never\n".to_string()), 3),
    ];
    let msgs = run_reader("dev", &events);
    assert_eq!(msgs.len(), 2);
    assert_eq!(msgs[0].data, "x".to_string());
    assert!(!msgs[0].is_error);
    assert_eq!(msgs[1].data, "Read error: io".to_string());
    assert!(msgs[1].is_error);
}

#[test]
fn nothing_read_after_end_of_stream() {
    let events = vec![
        (ReadEvent::Eof, 1),
        (ReadEvent::Line("late\n".to_string()), 2),
    ];
    let msgs = run_reader("dev", &events);
    assert_eq!(msgs.len(), 0);
}

#[test]
fn payload_blanks_survive_the_trim() {
    let step = reader_step("dev", &ReadEvent::Line("x \n".to_string()), 5);
    let msg = step.message.unwrap();
    assert_eq!(msg.data, "x ".to_string());
}
