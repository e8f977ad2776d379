use garden_wifi::wifi_control::web_server::{
    cooldown_deadline, cooldown_over, find_header_end, needs_listen, ReadOutcome, RequestReader, COOLDOWN_MILLIS, REQUEST_CAPACITY,
    REQUEST_TIMEOUT_MILLIS, RESPONSE_PAGE,
};

#[test]
fn header_end_is_found_anywhere() {
    assert!(find_header_end(b"\r\n\r\n"));
    assert!(find_header_end(b"GET / HTTP/1.0\r\n\r\n"));
    assert!(find_header_end(b"GET / HTTP/1.0\r\n\r\nbody"));
    assert!(!find_header_end(b"GET / HTTP/1.0\r\n"));
    assert!(!find_header_end(b"\r\n\r"));
    assert!(!find_header_end(b""));
}

#[test]
fn request_completes_across_chunks() {
    let mut r = RequestReader::start(1000);
    assert_eq!(r.deadline(), 1000 + REQUEST_TIMEOUT_MILLIS);
    assert_eq!(r.room(), REQUEST_CAPACITY);
    assert_eq!(r.on_read(Some(b"GET / HTTP/1.0\r\n\r"), 1500), ReadOutcome::Pending);
    assert_eq!(r.room(), REQUEST_CAPACITY - 17);
    let out = r.on_read(Some(b"\n"), 1600);
    assert_eq!(out, ReadOutcome::Complete);
    assert!(out.answers());
    assert_eq!(r.received(), b"GET / HTTP/1.0\r\n\r\n");
}

#[test]
fn failed_read_is_still_answered() {
    let mut r = RequestReader::start(0);
    r.on_read(Some(b"GET"), 10);
    let out = r.on_read(None, 10);
    assert_eq!(out, ReadOutcome::ReadFailed);
    assert!(out.answers());
    assert_eq!(r.received(), b"GET");
}

#[test]
fn late_request_is_dropped() {
    let mut r = RequestReader::start(0);
    assert_eq!(r.on_read(Some(b"GET"), 20_000), ReadOutcome::Pending);
    let out = r.on_read(Some(b" /"), 20_001);
    assert_eq!(out, ReadOutcome::TimedOut);
    assert!(!out.answers());
    assert!(!out.reads_on());
}

#[test]
fn complete_header_wins_over_the_deadline() {
    let mut r = RequestReader::start(0);
    assert_eq!(r.on_read(Some(b"GET\r\n\r\n"), 99_999), ReadOutcome::Complete);
}

#[test]
fn empty_reads_keep_waiting() {
    let mut r = RequestReader::start(0);
    assert!(r.on_read(Some(b""), 5).reads_on());
    assert_eq!(r.received(), b"");
}

#[test]
fn buffer_fills_to_capacity() {
    let mut r = RequestReader::start(0);
    let chunk = vec![b'a'; REQUEST_CAPACITY];
    assert_eq!(r.on_read(Some(&chunk), 1), ReadOutcome::Pending);
    assert_eq!(r.room(), 0);
}

#[test]
fn server_constants() {
    assert_eq!(REQUEST_TIMEOUT_MILLIS, 20_000);
    assert_eq!(COOLDOWN_MILLIS, 5_000);
    assert_eq!(
        RESPONSE_PAGE,
        "HTTP/1.0 200 OK\r\n\r\n<html><body><h1>Hello Rust! Hello esp-wifi!</h1></body></html>\r\n"
    );
}

#[test]
fn closed_socket_listens_again() {
    assert!(needs_listen(false));
    assert!(!needs_listen(true));
}

#[test]
fn cooldown_lasts_five_seconds() {
    assert_eq!(cooldown_deadline(0), Some(5_000));
    assert_eq!(cooldown_deadline(123_456), Some(128_456));
    assert_eq!(cooldown_deadline(u64::MAX - 5_000), Some(u64::MAX));
    assert_eq!(cooldown_deadline(u64::MAX - 4_999), None);
    assert!(!cooldown_over(4_999, 5_000));
    assert!(cooldown_over(5_000, 5_000));
    assert!(cooldown_over(6_000, 5_000));
}
