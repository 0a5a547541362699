use gurl::client::{interest_for, Exchange, GeminiClient, Interest};
use gurl::response::{Response, ResponseError};
use gurl::{frame_request, Agent, AgentError, Request, RequestError, GEMINI_PORT};
use std::sync::Arc;

fn decode(bytes: &[u8]) -> Result<Response, ResponseError> {
    Response::from_raw(bytes)
}

#[test]
fn decodes_success_example() {
    let resp = decode(b"20 text/gemini\r\nHello").unwrap();
    assert_eq!(resp.status, 20);
    assert_eq!(resp.meta, "text/gemini");
    assert_eq!(resp.body, b"Hello".to_vec());
}

#[test]
fn missing_crlf_is_bad_response() {
    assert!(matches!(decode(b"51 Not foun"), Err(ResponseError::BadResponse)));
}

#[test]
fn short_buffers_are_bad_responses() {
    assert!(matches!(decode(b""), Err(ResponseError::BadResponse)));
    assert!(matches!(decode(b"2"), Err(ResponseError::BadResponse)));
    assert!(matches!(decode(b"20"), Err(ResponseError::BadResponse)));
}

#[test]
fn crlf_inside_status_region_does_not_count() {
    assert!(matches!(decode(b"20\r\n"), Err(ResponseError::BadResponse)));
    assert!(matches!(decode(b"20 \r"), Err(ResponseError::BadResponse)));
}

#[test]
fn non_numeric_status_is_bad_response() {
    assert!(matches!(decode(b"2x ok\r\n"), Err(ResponseError::BadResponse)));
    assert!(matches!(decode(b"+5 ok\r\n"), Err(ResponseError::BadResponse)));
    assert!(matches!(decode(b"\xff\xfe ok\r\n"), Err(ResponseError::BadResponse)));
}

#[test]
fn invalid_utf8_meta_is_bad_response() {
    assert!(matches!(decode(b"20 \xff\xfe\r\nbody"), Err(ResponseError::BadResponse)));
}

#[test]
fn empty_meta_and_body() {
    let resp = decode(b"30 \r\n").unwrap();
    assert_eq!(resp.status, 30);
    assert_eq!(resp.meta, "");
    assert!(resp.body.is_empty());
}

#[test]
fn body_keeps_later_crlf_and_raw_bytes() {
    let resp = decode(b"20 text/plain\r\nline one\r\nline two\xff").unwrap();
    assert_eq!(resp.meta, "text/plain");
    assert_eq!(resp.body, b"line one\r\nline two\xff".to_vec());
}

#[test]
fn separator_is_not_checked() {
    let resp = decode(b"44_slow down\r\n").unwrap();
    assert_eq!(resp.status, 44);
    assert_eq!(resp.meta, "slow down");
}

#[test]
fn round_trip_of_framed_reply() {
    for status in [0u8, 9, 10, 51, 99] {
        let meta = "text/gemini; lang=fr \u{e9}t\u{e9}\r";
        let body: Vec<u8> = vec![0, 13, 10, 255, 32];
        let mut wire = vec![b'0' + status / 10, b'0' + status % 10, b' '];
        wire.extend_from_slice(meta.as_bytes());
        wire.extend_from_slice(b"\r\n");
        wire.extend_from_slice(&body);
        let resp = decode(&wire).unwrap();
        assert_eq!(resp.status, status);
        assert_eq!(resp.meta, meta);
        assert_eq!(resp.body, body);
    }
}

#[test]
fn interest_follows_session_needs() {
    assert_eq!(interest_for(true, true), Interest { readable: true, writable: true });
    assert_eq!(interest_for(false, true), Interest { readable: false, writable: true });
    assert_eq!(interest_for(true, false), Interest { readable: true, writable: false });
    assert_eq!(interest_for(false, false), Interest { readable: true, writable: false });
}

#[test]
fn orderly_close_after_full_reply_decodes() {
    let mut ex = Exchange::new();
    assert!(!ex.is_closed());
    assert!(!ex.clean_closure());
    ex.on_plaintext(b"20 text/gemini\r\nHello", false);
    assert!(!ex.is_closed());
    ex.on_eof();
    assert!(ex.is_closed());
    assert!(ex.clean_closure());
    let resp = ex.finish().ok().unwrap();
    assert_eq!(resp.status, 20);
    assert_eq!(resp.meta, "text/gemini");
    assert_eq!(resp.body, b"Hello".to_vec());
}

#[test]
fn close_notify_ends_the_exchange() {
    let mut ex = Exchange::new();
    ex.on_plaintext(b"20 text/plain\r\n", false);
    ex.on_plaintext(b"done", true);
    assert!(ex.is_closed());
    assert!(ex.clean_closure());
    assert_eq!(ex.received(), b"20 text/plain\r\ndone");
}

#[test]
fn split_delivery_matches_single_delivery() {
    let wire: &[u8] = b"20 text/gemini\r\nHello, split world\r\n";
    let mut whole = Exchange::new();
    whole.on_plaintext(wire, false);
    whole.on_eof();
    let expected = whole.finish().ok().unwrap();
    for cuts in [vec![1usize, 2, 3], vec![15, 16], vec![5, 10, 20, 30], vec![0, 0, 36]] {
        let mut ex = Exchange::new();
        let mut start = 0;
        for &cut in &cuts {
            ex.on_plaintext(&wire[start..cut], false);
            start = cut;
        }
        ex.on_plaintext(&wire[start..], false);
        ex.on_eof();
        let resp = ex.finish().ok().unwrap();
        assert_eq!(resp.status, expected.status);
        assert_eq!(resp.meta, expected.meta);
        assert_eq!(resp.body, expected.body);
    }
}

#[test]
fn truncated_reply_fails_to_decode() {
    let mut ex = Exchange::new();
    ex.on_plaintext(b"51 Not foun", false);
    ex.on_eof();
    assert!(matches!(ex.finish(), Err(RequestError::DecodeError(ResponseError::BadResponse))));
}

#[test]
fn request_line_is_url_and_crlf() {
    assert_eq!(frame_request("gemini://example.org/"), b"gemini://example.org/\r\n".to_vec());
    assert_eq!(frame_request(""), b"\r\n".to_vec());
    assert_eq!(frame_request("gemini://h/\u{e9}"), "gemini://h/\u{e9}\r\n".as_bytes().to_vec());
}

#[test]
fn agent_prepares_request_for_host() {
    let url = url::Url::parse("gemini://example.org/docs/").unwrap();
    let req = Agent::get(url).ok().unwrap();
    assert_eq!(req.host_name(), "example.org");
    assert_eq!(req.port_number(), GEMINI_PORT);
    assert_eq!(req.port_number(), 1965);
    assert_eq!(req.request_line(), b"gemini://example.org/docs/\r\n".to_vec());
}

#[test]
fn agent_refuses_url_without_host() {
    let url = url::Url::parse("data:text/plain,hello").unwrap();
    assert!(matches!(Agent::get(url), Err(AgentError::UrlError)));
}

#[test]
fn request_from_parts() {
    let url = url::Url::parse("gemini://a.test/").unwrap();
    let req = Request::from_parts(url.clone(), Some("a.test".to_string())).ok().unwrap();
    assert_eq!(req.host_name(), "a.test");
    assert!(matches!(Request::from_parts(url, None), Err(AgentError::UrlError)));
}

fn client() -> GeminiClient {
    let config = rustls::ClientConfig::builder()
        .with_safe_defaults()
        .with_root_certificates(rustls::RootCertStore::empty())
        .with_no_client_auth();
    let name = rustls::ServerName::try_from("example.org").unwrap();
    GeminiClient::new(name, Arc::new(config)).ok().unwrap()
}

#[test]
fn new_client_starts_active_and_wants_to_write() {
    let mut c = client();
    assert!(!c.is_closed());
    assert!(c.exchange.received().is_empty());
    assert!(c.event_set().writable);
    assert!(c.send_request(b"gemini://example.org/\r\n").is_ok());
    assert!(!c.is_closed());
}

#[test]
fn client_end_of_file_closes_cleanly() {
    let mut c = client();
    assert!(c.after_read(0).is_ok());
    assert!(c.is_closed());
    assert!(c.exchange.clean_closure());
    assert!(matches!(c.finish(), Err(RequestError::DecodeError(ResponseError::BadResponse))));
}

#[test]
fn event_set_follows_session_needs() {
    let c = client();
    let expected = interest_for(c.tls_conn.wants_read(), c.tls_conn.wants_write());
    assert_eq!(c.event_set(), expected);
}

#[test]
fn failed_processing_is_tls_error() {
    let mut c = client();
    let r = c.on_processed(Err(rustls::Error::General("bad record".to_string())));
    match r {
        Err(RequestError::TlsError(rustls::Error::General(m))) => assert_eq!(m, "bad record"),
        _ => panic!("expected the TLS error back"),
    }
    assert!(!c.is_closed());
    assert!(c.exchange.received().is_empty());
}

#[test]
fn processing_without_plaintext_keeps_output() {
    let mut c = client();
    assert!(c.on_processed(Ok((0, false))).is_ok());
    assert!(!c.is_closed());
    assert!(c.on_processed(Ok((0, true))).is_ok());
    assert!(c.is_closed());
    assert!(c.exchange.received().is_empty());
}

#[test]
fn would_block_read_changes_nothing() {
    let mut c = client();
    let r = c.on_read(Err(std::io::Error::new(std::io::ErrorKind::WouldBlock, "later")));
    assert!(r.is_ok());
    assert!(!c.is_closed());
}

#[test]
fn other_read_failure_is_io_error() {
    let mut c = client();
    let r = c.on_read(Err(std::io::Error::new(std::io::ErrorKind::ConnectionReset, "reset")));
    match r {
        Err(RequestError::IoError(e)) => assert_eq!(e.kind(), std::io::ErrorKind::ConnectionReset),
        _ => panic!("expected an I/O error"),
    }
    assert!(!c.is_closed());
}

#[test]
fn read_of_end_of_file_closes() {
    let mut c = client();
    assert!(c.on_read(Ok(0)).is_ok());
    assert!(c.is_closed());
}

#[test]
fn errors_convert_into_request_error() {
    assert!(matches!(
        RequestError::from(ResponseError::BadResponse),
        RequestError::DecodeError(ResponseError::BadResponse)
    ));
    let io: RequestError = std::io::Error::new(std::io::ErrorKind::Other, "x").into();
    assert!(matches!(io, RequestError::IoError(_)));
    let tls: RequestError = rustls::Error::General("y".to_string()).into();
    assert!(matches!(tls, RequestError::TlsError(_)));
}
