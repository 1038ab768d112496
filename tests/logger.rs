use ch32_bringup::logger::{read, set_logger, Logger};
use ch32_bringup::serial::{ErrorKind, NbError, Serial};

fn serial(looped: bool) -> Serial {
    Serial::new(72_000_000, 115_200, looped).unwrap()
}

#[test]
fn write_without_sink_is_silent() {
    let mut l = Logger::new();
    assert_eq!(l.write_text("hello"), Ok(()));
    assert_eq!(l.write_line("hello"), Ok(()));
    assert!(l.sink().is_none());
}

#[test]
fn write_text_reaches_the_line() {
    let mut l = Logger::new();
    set_logger(&mut l, serial(false));
    assert_eq!(l.write_text("hello"), Ok(()));
    assert_eq!(l.write_line(" world"), Ok(()));
    assert_eq!(l.sink().unwrap().sent(), &b"hello world\r\n"[..]);
    assert!(l.sink().unwrap().status().tx_complete);
}

#[test]
fn write_line_alone_is_crlf() {
    let mut l = Logger::new();
    set_logger(&mut l, serial(false));
    assert_eq!(l.write_line(""), Ok(()));
    assert_eq!(l.sink().unwrap().sent(), &b"\r\n"[..]);
}

#[test]
fn set_logger_replaces_sink() {
    let mut l = Logger::new();
    set_logger(&mut l, serial(false));
    l.write_text("first").unwrap();
    set_logger(&mut l, serial(false));
    l.write_text("second").unwrap();
    assert_eq!(l.sink().unwrap().sent(), &b"second"[..]);
}

#[test]
fn fault_stops_writing() {
    let mut l = Logger::new();
    set_logger(&mut l, serial(true));
    let r = l.write_text("abc");
    assert_eq!(r.map_err(|e| e.kind()), Err(ErrorKind::Overrun));
    assert_eq!(l.sink().unwrap().sent(), &b"ab"[..]);
}

#[test]
fn read_without_sink_is_idle() {
    let mut l = Logger::new();
    assert_eq!(read(&mut l), Err(NbError::WouldBlock));
}

#[test]
fn read_takes_waiting_byte_once() {
    let mut l = Logger::new();
    let mut s = serial(false);
    s.receive(b'x');
    set_logger(&mut l, s);
    assert_eq!(read(&mut l), Ok(b'x'));
    assert_eq!(read(&mut l), Err(NbError::WouldBlock));
}

#[test]
fn read_tells_zero_byte_from_nothing() {
    let mut l = Logger::new();
    let mut s = serial(false);
    s.receive(0);
    set_logger(&mut l, s);
    assert_eq!(read(&mut l), Ok(0));
    assert_eq!(read(&mut l), Err(NbError::WouldBlock));
}

#[test]
fn read_reports_overrun() {
    let mut l = Logger::new();
    let mut s = serial(false);
    s.receive(1);
    s.receive(2);
    set_logger(&mut l, s);
    assert_eq!(read(&mut l).map_err(|e| matches!(e, NbError::Other(x) if x.kind() == ErrorKind::Overrun)), Err(true));
    assert_eq!(read(&mut l), Err(NbError::WouldBlock));
}

#[test]
fn clear_rx_pending_on_logger() {
    let mut l = Logger::new();
    l.clear_rx_pending();
    let mut s = serial(false);
    s.receive(b'q');
    set_logger(&mut l, s);
    l.clear_rx_pending();
    assert_eq!(read(&mut l), Err(NbError::WouldBlock));
}

#[test]
fn write_bytes_sends_raw() {
    let mut l = Logger::new();
    set_logger(&mut l, serial(false));
    assert_eq!(l.write_bytes(&[0, 0xff, 10]), Ok(()));
    assert_eq!(l.sink().unwrap().sent(), &[0u8, 0xff, 10][..]);
}
