//! Reads and writes on in-memory streams, and the engine helpers that
//! use them.
use std::io::{Read, Write};

use fetp::session::{
    await_command, greet_new_connection, parse_next_command, run_command, write_result_to_peer,
    ShouldExit,
};
use fetp::executor::OutsideAnswer;
use fetp::sessionstate::SessionState;
use fetp::verb::Verb;
use fetp::wire::{read, read_line, validate_outgoing_message, write_multiline};

struct MockStream {
    out: Vec<u8>,
}

impl MockStream {
    fn new() -> MockStream {
        MockStream { out: Vec::new() }
    }
}

impl Write for MockStream {
    fn write(&mut self, buf: &[u8]) -> std::io::Result<usize> {
        self.out.extend_from_slice(buf);
        self.flush()?;
        Ok(buf.len())
    }

    fn flush(&mut self) -> std::io::Result<()> {
        Ok(())
    }
}

#[derive(Default)]
struct MockErrorStream {}

impl Write for MockErrorStream {
    fn write(&mut self, _buf: &[u8]) -> std::io::Result<usize> {
        self.flush()?;
        Err(std::io::Error::new(std::io::ErrorKind::Other, "Fake error"))
    }

    fn flush(&mut self) -> std::io::Result<()> {
        Ok(())
    }
}

struct ErrorStream {}

impl Read for ErrorStream {
    fn read(&mut self, _: &mut [u8]) -> std::io::Result<usize> {
        Err(std::io::Error::new(std::io::ErrorKind::Other, "Fake error"))
    }
}

#[test]
fn write_writes_correct_to_out() {
    let mut out = MockStream::new();
    fetp::wire::write(&mut out, 220, "Service ready").unwrap();
    assert_eq!(out.out, b"220 Service ready\r\n");
}

#[test]
fn write_mutliline_correct() {
    let mut out = MockStream::new();
    write_multiline(&mut out, 220, &["foo", "bar"]).unwrap();
    assert_eq!(out.out, b"220-foo\r\n220 bar\r\n");
}

#[test]
fn write_multiline_correct_single() {
    let mut out = MockStream::new();
    write_multiline(&mut out, 220, &["foo"]).unwrap();
    assert_eq!(out.out, b"220 foo\r\n");
}

#[test]
fn write_mutliline_empty_msg_returns() {
    let mut out = MockStream::new();
    let res = write_multiline(&mut out, 220, &[]);
    assert!(res.is_ok());
    let res = res.unwrap();
    assert_eq!(res.len(), 0);
}

#[test]
fn write_error_if_message_contains_eol_chars() {
    let mut out = MockStream::new();
    let res = fetp::wire::write(&mut out, 220, "Service ready\r");
    assert!(res.is_err());
    let res = fetp::wire::write(&mut out, 220, "Service ready\n");
    assert!(res.is_err());
}

#[test]
fn validate_outgoing_rejects_line_endings_only() {
    assert!(validate_outgoing_message("plain text").is_ok());
    assert!(validate_outgoing_message("").is_ok());
    assert!(validate_outgoing_message("tab\tok").is_ok());
    assert!(validate_outgoing_message("bad\rtext").is_err());
    assert!(validate_outgoing_message("bad\ntext").is_err());
}

#[test]
fn read_line_into_vec() {
    let com = "220 Service ready\r\n";
    let mut mock = com.as_bytes();
    let buff = read_line(&mut mock).unwrap();
    assert_eq!(buff, com.as_bytes());
}

#[test]
fn read_line_by_line() {
    let mut mock = "220 Service ready\r\n123 foo\n".as_bytes();
    assert_eq!(read_line(&mut mock).unwrap(), b"220 Service ready\r\n");
    assert_eq!(read_line(&mut mock).unwrap(), b"123 foo\n");
}

#[test]
fn read_line_io_error() {
    let mut stream = ErrorStream {};
    assert!(read_line(&mut stream).is_err());
}

#[test]
fn read_into_vec() {
    let com = "220 Service ready\r\n";
    let mut mock = com.as_bytes();
    let buff = read(&mut mock).unwrap();
    assert_eq!(buff, com.as_bytes());
}

#[test]
fn await_command_correct() {
    let mut input = "USER foo\r\n".as_bytes();
    let res = await_command(&mut input);
    assert!(res.is_ok());
    let command = res.unwrap();
    assert_eq!(command.verb, Verb::USER);
    assert_eq!(command.arg, "foo");
}

#[test]
fn await_command_err() {
    let mut input = "USR-foo\r\n".as_bytes();
    let res = await_command(&mut input);
    assert!(res.is_err());
    assert_eq!(res.unwrap_err().0, 500);
}

#[test]
fn test_read_next_command_correct() {
    let mut input = "USER foo\r\n".as_bytes();
    let command = parse_next_command(&mut input);
    assert!(command.is_ok());
    let command = command.unwrap();
    assert_eq!(command.verb, Verb::USER);
    assert_eq!(command.arg, "foo");
}

#[test]
fn test_read_next_command_incorrect() {
    let mut input = "USR-foo\r\n".as_bytes();
    let command = parse_next_command(&mut input);
    assert!(command.is_err());
}

#[test]
fn test_read_more_than_one_command() {
    let mut input = "USER foo\r\nUSER bar\r\n".as_bytes();
    let command = parse_next_command(&mut input);
    assert!(command.is_ok());
    let command = command.unwrap();
    assert_eq!(command.verb, Verb::USER);
    assert_eq!(command.arg, "foo");
    let command = parse_next_command(&mut input);
    let command = command.unwrap();
    assert_eq!(command.verb, Verb::USER);
    assert_eq!(command.arg, "bar");
}

#[test]
fn test_read_empty_command() {
    let mut input = "".as_bytes();
    let command = parse_next_command(&mut input);
    assert!(command.is_err());
}

#[test]
fn test_read_io_error() {
    let mut input = ErrorStream {};
    let command = parse_next_command(&mut input);
    assert!(command.is_err());
}

#[test]
fn test_handle_command() {
    let verb = Verb::USER;
    let command = fetp::command::Command { verb: Verb::USER, arg: "foo".to_string() };
    let state = SessionState::default();
    let ((status, msg), new_state) = run_command(&command, &state, &OutsideAnswer::Nothing);

    assert_eq!(new_state.user, Some("foo".to_string()));
    assert_eq!(new_state.is_authenticated, false);
    assert_eq!(new_state.previous_command, Some(verb));
    assert_eq!(status, 331);
    assert!(msg != "");
}

#[test]
fn write_result_correct() {
    let mut stream = MockStream::new();
    let res = write_result_to_peer(&mut stream, 200, "foobar");
    assert_eq!(res, ShouldExit::No);
    assert_eq!(stream.out, b"200 foobar\r\n");
}

#[test]
fn write_result_error() {
    let mut stream = MockErrorStream {};
    let res = write_result_to_peer(&mut stream, 200, "foobar");
    assert_eq!(res, ShouldExit::Yes);
}

#[test]
fn write_result_splits_banner_lines() {
    let mut stream = MockStream::new();
    let res = write_result_to_peer(&mut stream, 211, "first\nsecond");
    assert_eq!(res, ShouldExit::No);
    assert_eq!(stream.out, b"211-first\r\n211 second\r\n");
}

#[test]
fn test_write_greeting() {
    let mut stream = MockStream::new();
    let result = greet_new_connection(&mut stream);
    assert_eq!(result, ShouldExit::No);
    assert_eq!(stream.out, b"220 Welcome to the FeTP FTP server.\r\n");
}

#[test]
fn write_greeting_error() {
    let mut stream = MockErrorStream::default();
    let result = greet_new_connection(&mut stream);
    assert_eq!(result, ShouldExit::Yes);
}
