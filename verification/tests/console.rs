use ppapi::console::{send_to_console_or_terminal, CurrentInstanceStdIo, LineDestination};
use ppapi::ffi;

fn lines(v: Vec<Vec<u8>>) -> Vec<String> {
    v.into_iter().map(|l| String::from_utf8(l).unwrap()).collect()
}

#[test]
fn nothing_is_sent_before_a_newline() {
    let mut io = CurrentInstanceStdIo::new(ffi::PP_LOGLEVEL_LOG, 1);
    assert!(io.write(b"hello").is_empty());
    assert!(io.write(b", world").is_empty());
    assert_eq!(io.buffer, b"hello, world".to_vec());
}

#[test]
fn a_line_goes_with_what_was_pending() {
    let mut io = CurrentInstanceStdIo::new(ffi::PP_LOGLEVEL_LOG, 1);
    io.write(b"par");
    let sent = io.write(b"tial\n");
    assert_eq!(lines(sent), vec!["partial".to_string()]);
    assert!(io.buffer.is_empty());
}

#[test]
fn every_line_is_sent_whole() {
    let mut io = CurrentInstanceStdIo::new(ffi::PP_LOGLEVEL_ERROR, 2);
    let sent = io.write(b"ab\ncd\n");
    assert_eq!(lines(sent), vec!["ab".to_string(), "cd".to_string()]);
    assert!(io.buffer.is_empty());
    let sent = io.write(b"one\ntwo\nthree");
    assert_eq!(lines(sent), vec!["one".to_string(), "two".to_string()]);
    assert_eq!(io.buffer, b"three".to_vec());
    let sent = io.write(b"a\n\nb\n");
    assert_eq!(lines(sent), vec!["threea".to_string(), "".to_string(), "b".to_string()]);
    assert!(io.buffer.is_empty());
}

#[test]
fn no_newline_reaches_the_console() {
    let mut io = CurrentInstanceStdIo::new(ffi::PP_LOGLEVEL_LOG, 1);
    let sent = io.write(b"\n\n\n\nx\n\n");
    for l in sent.iter() {
        assert!(!l.contains(&b'\n'));
    }
    assert!(!io.buffer.contains(&b'\n'));
}

#[test]
fn failed_send_drops_pending() {
    let mut io = CurrentInstanceStdIo::new(ffi::PP_LOGLEVEL_LOG, 1);
    io.write(b"abc");
    io.send_failed();
    assert!(io.buffer.is_empty());
    assert_eq!(io.level, ffi::PP_LOGLEVEL_LOG);
}

#[test]
fn console_or_terminal() {
    assert!(matches!(send_to_console_or_terminal(true, b"ok"), LineDestination::Console(s) if s == "ok"));
    assert!(matches!(send_to_console_or_terminal(false, b"ok"), LineDestination::Terminal(b) if b == b"ok".to_vec()));
    assert!(matches!(send_to_console_or_terminal(true, &[0xff, 0xfe]), LineDestination::Terminal(b) if b == vec![0xffu8, 0xfe]));
}
