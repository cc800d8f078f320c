use std::io::ErrorKind;

use gromaq::pty::{is_pty_reader_eof, PtyError};

#[test]
fn pty_io_error_preserves_kind_and_message() {
    let error = PtyError::io(std::io::Error::new(ErrorKind::BrokenPipe, "writer closed"));

    match error {
        PtyError::Io { kind, message } => {
            assert_eq!(kind, ErrorKind::BrokenPipe);
            assert_eq!(message, "writer closed");
        },
        other => panic!("expected PTY I/O error, got {other:?}"),
    }
}

#[test]
fn pty_reader_treats_unix_eio_as_eof() {
    let error = std::io::Error::from_raw_os_error(5);

    assert!(is_pty_reader_eof(error.raw_os_error(), true));
}

#[test]
fn pty_reader_keeps_other_read_errors_fatal() {
    let error = std::io::Error::new(ErrorKind::BrokenPipe, "writer closed");

    assert!(!is_pty_reader_eof(error.raw_os_error(), true));
}

#[test]
fn only_eio_codes_end_pty_output_on_unix() {
    assert!(is_pty_reader_eof(Some(5), true));
    assert!(!is_pty_reader_eof(Some(4), true));
    assert!(!is_pty_reader_eof(None, true));
    assert!(!is_pty_reader_eof(Some(5), false));
}
