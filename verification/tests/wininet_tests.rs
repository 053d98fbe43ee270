use wininet::wininet::AccessType;
use wininet::wininet::Bytes;
use wininet::wininet::Internet;
use wininet::wininet::Next;
use wininet::wininet::Response;
use wininet::wininet::CHUNK_SIZE;

/// Drives the reader over a scripted list of platform-read outcomes and
/// collects everything it yields, stopping at end or failure.
fn drain(reader: &mut Bytes, mut script: Vec<(bool, Vec<u8>)>) -> (Vec<u8>, bool) {
    script.reverse();
    let mut out = Vec::new();
    loop {
        match reader.next() {
            Next::Byte(b) => out.push(b),
            Next::NeedChunk => {
                let (ok, chunk) = script.pop().expect("reader asked for more than scripted");
                reader.supply_chunk(ok, chunk);
            }
            Next::End => return (out, false),
            Next::Failed => return (out, true),
        }
    }
}

#[test]
fn open_without_proxy_is_direct() {
    let r = Internet::open("agent", None);
    assert_eq!(r.access, AccessType::Direct);
    assert!(r.proxy.is_none());
    assert_eq!(r.agent.units().as_slice(), &[97u16, 103, 101, 110, 116, 0]);
}

#[test]
fn open_with_proxy_routes_through_it() {
    let r = Internet::open("agent", Some("proxy:8080"));
    assert_eq!(r.access, AccessType::Proxy);
    let p = r.proxy.expect("proxy address must be carried along");
    let expected: Vec<u16> = "proxy:8080".encode_utf16().chain([0]).collect();
    assert_eq!(p.units().as_slice(), expected.as_slice());
}

#[test]
fn session_handle_null_means_no_session() {
    assert!(Internet::from_handle(0).is_none());
    let s = Internet::from_handle(0x1234).expect("non-null handle opens a session");
    assert_eq!(s.raw_handle(), 0x1234);
}

#[test]
fn get_uses_fixed_flags_and_wide_url() {
    let s = Internet::from_handle(1).unwrap();
    let r = s.get("http://example.com/", None);
    assert!(r.flags.reload && r.flags.no_cache && r.flags.raw_data && r.flags.secure);
    assert!(r.headers.is_none());
    let expected: Vec<u16> = "http://example.com/".encode_utf16().chain([0]).collect();
    assert_eq!(r.url.units().as_slice(), expected.as_slice());
}

#[test]
fn get_carries_extra_headers() {
    let s = Internet::from_handle(1).unwrap();
    let r = s.get("http://example.com/", Some("X-Custom: 1"));
    let h = r.headers.expect("headers must be carried along");
    let expected: Vec<u16> = "X-Custom: 1".encode_utf16().chain([0]).collect();
    assert_eq!(h.units().as_slice(), expected.as_slice());
}

#[test]
fn response_handle_null_means_no_response() {
    assert!(Response::from_handle(0).is_none());
    let r = Response::from_handle(7).expect("non-null handle is a response");
    assert_eq!(r.raw_handle(), 7);
}

#[test]
fn status_reports_the_queried_code() {
    let r = Response::from_handle(7).unwrap();
    assert_eq!(r.status(true, 200), 200);
    assert_eq!(r.status(true, 404), 404);
}

#[test]
fn status_is_zero_when_the_query_fails() {
    let r = Response::from_handle(7).unwrap();
    assert_eq!(r.status(false, 77), 0);
}

#[test]
fn drained_reader_reconstructs_the_body() {
    let mut reader = Bytes::new();
    let script = vec![
        (true, b"hello ".to_vec()),
        (true, b"world".to_vec()),
        (true, Vec::new()),
    ];
    let (out, failed) = drain(&mut reader, script);
    assert!(!failed);
    assert_eq!(out, b"hello world".to_vec());
    assert_eq!(out.len(), 11);
    // idempotent emptiness: a drained reader keeps saying so
    assert_eq!(reader.next(), Next::End);
    assert_eq!(reader.next(), Next::End);
}

#[test]
fn body_of_exact_chunk_multiple_terminates_cleanly() {
    let mut reader = Bytes::new();
    let chunk: Vec<u8> = (0..CHUNK_SIZE).map(|i| (i % 251) as u8).collect();
    let body: Vec<u8> = chunk.iter().chain(chunk.iter()).copied().collect();
    let script = vec![(true, chunk.clone()), (true, chunk), (true, Vec::new())];
    let (out, failed) = drain(&mut reader, script);
    assert!(!failed);
    assert_eq!(out.len(), 2 * CHUNK_SIZE);
    assert_eq!(out, body);
    assert_eq!(reader.next(), Next::End);
}

#[test]
fn failed_read_is_distinct_from_end_of_body() {
    let mut reader = Bytes::new();
    let script = vec![(true, b"part".to_vec()), (false, Vec::new())];
    let (out, failed) = drain(&mut reader, script);
    assert!(failed);
    assert_eq!(out, b"part".to_vec());
    // the failure is sticky: no byte is ever served from a stale buffer
    assert_eq!(reader.next(), Next::Failed);
    assert_eq!(reader.next(), Next::Failed);
}

#[test]
fn fresh_reader_asks_before_serving() {
    let mut reader = Bytes::new();
    assert!(reader.wants_chunk());
    assert_eq!(reader.next(), Next::NeedChunk);
}

#[test]
fn end_to_end_against_scripted_platform() {
    // the decisions of a whole exchange, with the platform's side scripted:
    // open with agent "test-agent" and no proxy, fetch http://example.com/,
    // see status 200, and drain a body that holds the expected heading
    let plan = Internet::open("test-agent", None);
    assert_eq!(plan.access, AccessType::Direct);
    let session = Internet::from_handle(0x10).expect("scripted open succeeds");

    let request = session.get("http://example.com/", None);
    assert!(request.flags.secure);
    let response = Response::from_handle(0x20).expect("scripted fetch succeeds");

    assert_eq!(response.status(true, 200), 200);

    let body = b"<html><body><h1>Example Domain</h1></body></html>".to_vec();
    let mut reader = response.as_bytes();
    let script = vec![(true, body.clone()), (true, Vec::new())];
    let (out, failed) = drain(&mut reader, script);
    assert!(!failed);
    assert_eq!(out, body);
    let text = String::from_utf8(out).unwrap();
    assert!(text.contains("<h1>Example Domain</h1>"));
}
