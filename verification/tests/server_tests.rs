use grpc::errors::GrpcError;
use grpc::num::IntErrorKind;
use grpc::server::{Duration, GrpcRequest, GrpcResponses, GrpcRouter, GrpcStatus, GrpcStream, Header};
use grpc::server::is_connection_preface;

#[test]
fn test_parse_timeout() {
    assert_eq!(GrpcRequest::parse_timeout(&b"1H"[..]).unwrap().as_secs(), 60 * 60);
    assert_eq!(GrpcRequest::parse_timeout(&b"2M"[..]).unwrap().as_secs(), 2 * 60);
    assert_eq!(GrpcRequest::parse_timeout(&b"3S"[..]).unwrap().as_secs(), 3);
    assert_eq!(GrpcRequest::parse_timeout(&b"4m"[..]).unwrap().subsec_nanos(), 4_000_000);
    assert_eq!(GrpcRequest::parse_timeout(&b"5u"[..]).unwrap().subsec_nanos(), 5_000);
    assert_eq!(GrpcRequest::parse_timeout(&b"6n"[..]).unwrap().subsec_nanos(), 6);

    assert!(GrpcRequest::parse_timeout(&b"test"[..]).is_err());
}

#[test]
fn test_request() {
    let mut stream = GrpcStream::with_id(123);

    assert!(GrpcRequest::new(&stream).is_err());

    stream.set_headers(vec![
        Header::new(&b":scheme"[..], &b"https"[..]),
        Header::new(&b":method"[..], &b"POST"[..]),
        Header::new(&b":path"[..], &b"/helloworld"[..]),
        Header::new(&b":authority"[..], &b"test.com"[..]),
        Header::new(&b"grpc-timeout"[..], &b"30S"[..]),
        Header::new(&b"content-type"[..], &b"application/grpc"[..]),
        Header::new(&b"grpc-encoding"[..], &b"gzip"[..]),
        Header::new(&b"grpc-accept-encoding"[..], &b"deflate"[..]),
        Header::new(&b"grpc-timeout"[..], &b"30S"[..]),
        Header::new(&b"user-agent"[..], &b"test"[..]),
        Header::new(&b"grpc-message-type"[..], &b"HelloWorld"[..]),
    ]);

    let req = GrpcRequest::new(&stream).unwrap();

    assert_eq!(req.stream_id, 123);
    assert_eq!(req.scheme, Some(&b"https"[..]));
    assert_eq!(req.method, Some(&b"POST"[..]));
    assert_eq!(req.path, Some(&b"/helloworld"[..]));
    assert_eq!(req.authority, Some(&b"test.com"[..]));
    assert_eq!(req.timeout, Some(Duration::new(30, 0)));
    assert_eq!(req.content_type, Some(&b"application/grpc"[..]));
    assert_eq!(req.encoding, Some(&b"gzip"[..]));
    assert_eq!(req.accept_encoding, Some(&b"deflate"[..]));
    assert_eq!(req.user_agent, Some(&b"test"[..]));
    assert_eq!(req.message_type, Some(&b"HelloWorld"[..]));
}

fn stream_with(id: u32, headers: Vec<Header>, body: &[u8]) -> GrpcStream {
    let mut s = GrpcStream::with_id(id);
    s.set_headers(headers);
    s.body = body.to_vec();
    s
}

fn header_pairs(hs: &[Header]) -> Vec<(Vec<u8>, Vec<u8>)> {
    hs.iter().map(|h| (h.name.clone(), h.value.clone())).collect()
}

fn pair(n: &str, v: &str) -> (Vec<u8>, Vec<u8>) {
    (n.as_bytes().to_vec(), v.as_bytes().to_vec())
}

#[test]
fn timeout_units_split_into_seconds_and_nanos() {
    let d = GrpcRequest::parse_timeout(b"1500m").unwrap();
    assert_eq!((d.as_secs(), d.subsec_nanos()), (1, 500_000_000));
    let d = GrpcRequest::parse_timeout(b"2500001u").unwrap();
    assert_eq!((d.as_secs(), d.subsec_nanos()), (2, 500_001_000));
    let d = GrpcRequest::parse_timeout(b"3000000007n").unwrap();
    assert_eq!((d.as_secs(), d.subsec_nanos()), (3, 7));
    // An unknown unit counts as seconds.
    let d = GrpcRequest::parse_timeout(b"7x").unwrap();
    assert_eq!((d.as_secs(), d.subsec_nanos()), (7, 0));
    // A leading plus sign is accepted.
    assert_eq!(GrpcRequest::parse_timeout(b"+9S").unwrap().as_secs(), 9);
}

#[test]
fn timeout_errors_name_their_kind() {
    let kind = |s: &[u8]| match GrpcRequest::parse_timeout(s) {
        Err(GrpcError::ParseIntError(e)) => e.kind,
        _ => panic!("expected a parse error"),
    };
    assert_eq!(kind(b"S"), IntErrorKind::Empty);
    assert_eq!(kind(b"+S"), IntErrorKind::InvalidDigit);
    assert_eq!(kind(b"-5S"), IntErrorKind::InvalidDigit);
    assert_eq!(kind(b"1a2S"), IntErrorKind::InvalidDigit);
    assert_eq!(kind(b"18446744073709551616S"), IntErrorKind::PosOverflow);
    assert_eq!(GrpcRequest::parse_timeout(b"18446744073709551615n").unwrap().as_secs(), 18446744073);
}

#[test]
fn error_display_and_description() {
    let e = GrpcRequest::parse_timeout(b"xS").err().unwrap();
    assert_eq!(e.description(), "invalid digit found in string");
    assert_eq!(e.to_display_string(), "parse int error, invalid digit found in string");
    let e = GrpcError::BadRequest("malformed stream");
    assert_eq!(e.to_display_string(), "bad request, malformed stream");
    #[allow(deprecated)]
    let expected = format!(
        "io error, {}",
        std::error::Error::description(&std::io::Error::from(std::io::ErrorKind::BrokenPipe))
    );
    let e = GrpcError::from(std::io::Error::from(std::io::ErrorKind::BrokenPipe));
    assert_eq!(e.to_display_string(), expected);
    assert_eq!(GrpcError::SslError("y".to_string()).to_display_string(), "ssl error, y");
}

#[test]
fn malformed_streams_are_bad_requests() {
    let mut s = GrpcStream::with_id(1);
    s.set_headers(vec![]);
    match GrpcRequest::new(&s) {
        Err(GrpcError::BadRequest(m)) => assert_eq!(m, "malformed stream"),
        _ => panic!("expected a bad request"),
    }
    let s = GrpcStream { stream_id: None, headers: Some(vec![Header::new(b":method", b"POST")]), body: vec![] };
    assert!(GrpcRequest::new(&s).is_err());
}

#[test]
fn last_header_wins_and_bad_timeouts_are_passed_over() {
    let s = stream_with(
        5,
        vec![
            Header::new(b":path", b"/a"),
            Header::new(b"grpc-timeout", b"10S"),
            Header::new(b"x-other", b"ignored"),
            Header::new(b":path", b"/b"),
            Header::new(b"grpc-timeout", b"oopsS"),
        ],
        b"",
    );
    let req = GrpcRequest::new(&s).unwrap();
    assert_eq!(req.path, Some(&b"/b"[..]));
    assert_eq!(req.timeout, Some(Duration::new(10, 0)));
    assert_eq!(req.scheme, None);
}

#[test]
fn status_codes_and_names() {
    assert_eq!(GrpcStatus::OK.as_str(), b"0");
    assert_eq!(GrpcStatus::DataLoss.as_str(), b"15");
    assert_eq!(GrpcStatus::Unauthenticated.as_str(), b"16");
    assert_eq!(GrpcStatus::ResourceExhausted.as_str(), b"8");
    assert_eq!(GrpcStatus::Unimplemented.as_str(), b"12");
    assert_eq!(GrpcStatus::OK.reason(), "Ok");
    assert_eq!(GrpcStatus::DeadlineExceeded.reason(), "DeadlineExceeded");
    assert_eq!(GrpcStatus::Unauthenticated.reason(), "Unauthenticated");
}

#[test]
fn status_texts_are_distinct_and_read_back_as_codes() {
    let all = [
        GrpcStatus::OK, GrpcStatus::Canceled, GrpcStatus::Unknown, GrpcStatus::InvalidArgument,
        GrpcStatus::DeadlineExceeded, GrpcStatus::NotFound, GrpcStatus::AlreadyExists,
        GrpcStatus::PermissionDenied, GrpcStatus::ResourceExhausted, GrpcStatus::FailedPrecondition,
        GrpcStatus::Aborted, GrpcStatus::OutOfRange, GrpcStatus::Unimplemented, GrpcStatus::Internal,
        GrpcStatus::Unavailable, GrpcStatus::DataLoss, GrpcStatus::Unauthenticated,
    ];
    for (i, a) in all.iter().enumerate() {
        for (j, b) in all.iter().enumerate() {
            if i != j {
                assert_ne!(a.as_str(), b.as_str());
            }
        }
        assert_eq!(grpc::num::parse_u64(a.as_str()).unwrap(), i as u64);
    }
}

#[test]
fn bad_request_response() {
    let r = GrpcResponses::bad_request(7, GrpcStatus::NotFound, "no such method");
    assert_eq!(r.stream_id, 7);
    assert_eq!(
        header_pairs(&r.headers),
        vec![
            pair(":status", "400"),
            pair("content-type", "application/grpc"),
            pair("grpc-status", "5"),
            pair("grpc-message", "no such method"),
        ]
    );
    assert!(r.body.is_empty());
}

#[test]
fn router_echoes_post_and_refuses_other_methods() {
    let router = GrpcRouter::new();
    let s = stream_with(3, vec![Header::new(b":method", b"POST")], b"hello");
    let r = router.handle_request(GrpcRequest::new(&s).unwrap());
    assert_eq!(r.stream_id, 3);
    assert_eq!(
        header_pairs(&r.headers),
        vec![pair(":status", "200"), pair("content-type", "application/grpc"), pair("grpc-status", "0")]
    );
    assert_eq!(r.body, b"hello".to_vec());

    let s = stream_with(4, vec![Header::new(b":method", b"GET")], b"hello");
    let r = router.handle_request(GrpcRequest::new(&s).unwrap());
    assert_eq!(r.stream_id, 4);
    assert_eq!(
        header_pairs(&r.headers),
        vec![
            pair(":status", "400"),
            pair("content-type", "application/grpc"),
            pair("grpc-status", "12"),
            pair("grpc-message", "only support POST method"),
        ]
    );
    assert!(r.body.is_empty());
}

#[test]
fn handle_requests_answers_each_closed_stream() {
    let router = GrpcRouter::default();
    let closed = vec![
        (9, stream_with(9, vec![Header::new(b":method", b"POST")], b"abc")),
        (11, GrpcStream::with_id(11)),
    ];
    let rs = router.handle_requests(&closed);
    assert_eq!(rs.len(), 2);
    assert_eq!(rs[0].stream_id, 9);
    assert_eq!(rs[0].body, b"abc".to_vec());
    assert_eq!(rs[1].stream_id, 11);
    assert_eq!(
        header_pairs(&rs[1].headers),
        vec![
            pair(":status", "400"),
            pair("content-type", "application/grpc"),
            pair("grpc-status", "2"),
            pair("grpc-message", "malformed stream"),
        ]
    );
}

#[test]
fn connection_preface() {
    assert!(is_connection_preface(b"PRI * HTTP/2.0\r\n\r\nSM\r\n\r\n"));
    assert!(!is_connection_preface(b"PRI * HTTP/1.1\r\n\r\nSM\r\n\r\n"));
    assert!(!is_connection_preface(b""));
}

#[test]
fn outside_errors_are_kept_as_they_came() {
    match GrpcError::from(std::io::Error::new(std::io::ErrorKind::TimedOut, "slow")) {
        GrpcError::IoError(e) => assert_eq!(e.kind(), std::io::ErrorKind::TimedOut),
        _ => panic!("expected an I/O error"),
    }
    let bad = vec![0xffu8];
    let utf8 = std::str::from_utf8(&bad).unwrap_err();
    match GrpcError::from(utf8) {
        GrpcError::Utf8Error(e) => assert_eq!(e, utf8),
        _ => panic!("expected a UTF-8 error"),
    }
    let e = GrpcError::from(solicit::http::HttpError::InvalidFrame);
    assert!(matches!(e, GrpcError::HttpError(solicit::http::HttpError::InvalidFrame)));
    assert_eq!(e.to_display_string(), "http error, Encountered an invalid HTTP/2 frame");
    assert!(GrpcError::from(utf8).to_display_string().starts_with("parse utf8 error, "));
}

#[test]
fn malformed_stream_is_refused_before_its_headers_are_read() {
    let s = GrpcStream { stream_id: None, headers: Some(vec![Header::new(b"grpc-timeout", b"")]), body: vec![] };
    match GrpcRequest::new(&s) {
        Err(GrpcError::BadRequest(m)) => assert_eq!(m, "malformed stream"),
        _ => panic!("expected a bad request"),
    }
    let r = GrpcRouter::new().handle_requests(&vec![(8, s)]);
    assert_eq!(r[0].stream_id, 8);
}

#[test]
fn headers_read_twice_or_with_others_between_give_the_same_request() {
    let with_other = stream_with(
        2,
        vec![
            Header::new(b":method", b"POST"),
            Header::new(b":Method", b"GET"),
            Header::new(b"User-Agent", b"x"),
            Header::new(b"grpc-timeout", b"5m"),
        ],
        b"",
    );
    let without = stream_with(2, vec![Header::new(b":method", b"POST"), Header::new(b"grpc-timeout", b"5m")], b"");
    let mut a = GrpcRequest::new(&with_other).unwrap();
    let b = GrpcRequest::new(&without).unwrap();
    assert_eq!(a.method, b.method);
    assert_eq!(a.user_agent, None);
    assert_eq!(a.timeout, b.timeout);
    assert!(a.parse_headers().is_ok());
    assert_eq!(a.method, Some(&b"POST"[..]));
    assert_eq!(a.timeout, Some(Duration::new(0, 5_000_000)));
}

#[test]
fn http_errors_are_described_by_their_variant() {
    let cases: Vec<(solicit::http::HttpError, &str)> = vec![
        (solicit::http::HttpError::IoError(std::io::Error::from(std::io::ErrorKind::Other)), "Encountered an IO error"),
        (solicit::http::HttpError::InvalidFrame, "Encountered an invalid HTTP/2 frame"),
        (solicit::http::HttpError::UnknownStreamId, "Attempted an operation with an unknown HTTP/2 stream ID"),
        (solicit::http::HttpError::UnableToConnect, "An error attempting to establish an HTTP/2 connection"),
        (solicit::http::HttpError::MalformedResponse, "The received response was malformed"),
        (solicit::http::HttpError::Other("boom".into()), "An unknown error"),
    ];
    for (err, text) in cases {
        let e = GrpcError::from(err);
        assert_eq!(e.description(), text);
        assert_eq!(e.to_display_string(), format!("http error, {}", text));
    }
}

#[test]
fn display_with_puts_the_kind_before_the_description() {
    let io = GrpcError::from(std::io::Error::from(std::io::ErrorKind::BrokenPipe));
    assert_eq!(io.display_with("pipe"), "io error, pipe");
    let bad = vec![0xc3u8];
    let utf8 = GrpcError::from(std::str::from_utf8(&bad).unwrap_err());
    assert_eq!(utf8.display_with("cut"), "parse utf8 error, cut");
    assert_eq!(utf8.to_display_string(), utf8.display_with(utf8.description()));
    assert_eq!(io.to_display_string(), io.display_with(io.description()));
    assert_eq!(GrpcError::BadRequest("a").display_with(""), "bad request, ");
    assert_eq!(GrpcError::SslError("t".to_string()).display_with("u"), "ssl error, u");
}

#[test]
fn duration_carries_whole_seconds_out_of_the_nanoseconds() {
    let d = Duration::new(1, 1_500_000_000);
    assert_eq!(d.as_secs(), 2);
    assert_eq!(d.subsec_nanos(), 500_000_000);
    assert_eq!(Duration::new(7, 999_999_999).as_secs(), 7);
    assert_eq!(Duration::new(7, 999_999_999).subsec_nanos(), 999_999_999);
    assert_eq!(Duration::new(0, 4_000_000_000), Duration::new(4, 0));
}

#[test]
fn status_numbers_follow_the_codes() {
    assert_eq!(GrpcStatus::OK as i32, 0);
    assert_eq!(GrpcStatus::PermissionDenied as i32, 7);
    assert_eq!(GrpcStatus::ResourceExhausted as i32, 8);
    assert_eq!(GrpcStatus::DataLoss as i32, 15);
    assert_eq!(GrpcStatus::Unauthenticated as i32, 16);
    assert_eq!(GrpcStatus::Unauthenticated.as_str(), b"16");
}

#[test]
fn several_unknown_headers_anywhere_are_ignored() {
    let noisy = stream_with(
        3,
        vec![
            Header::new(b"x-a", b"1"),
            Header::new(b":path", b"/svc/M"),
            Header::new(b"Content-Type", b"text/plain"),
            Header::new(b"GRPC-TIMEOUT", b"9S"),
            Header::new(b"content-type", b"application/grpc"),
            Header::new(b"x-b", b"2"),
            Header::new(b"grpc-timeout", b"3S"),
            Header::new(b":Path", b"/other"),
        ],
        b"",
    );
    let plain = stream_with(
        3,
        vec![
            Header::new(b":path", b"/svc/M"),
            Header::new(b"content-type", b"application/grpc"),
            Header::new(b"grpc-timeout", b"3S"),
        ],
        b"",
    );
    let a = GrpcRequest::new(&noisy).unwrap();
    let b = GrpcRequest::new(&plain).unwrap();
    assert_eq!(a.path, b.path);
    assert_eq!(a.content_type, b.content_type);
    assert_eq!(a.timeout, b.timeout);
    assert_eq!(a.timeout, Some(Duration::new(3, 0)));
    assert_eq!(a.scheme, b.scheme);
    assert_eq!(a.method, b.method);
    assert_eq!(a.authority, b.authority);
    assert_eq!(a.encoding, b.encoding);
    assert_eq!(a.accept_encoding, b.accept_encoding);
    assert_eq!(a.user_agent, b.user_agent);
    assert_eq!(a.message_type, b.message_type);
}
