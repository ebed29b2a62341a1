use mdpls::headers::{find_content_length, Header, HeaderFault, MAX_HEADERS};
use mdpls::json::{Json, JsonNumber};
use mdpls::protocol::{
    locate_frame_end, Decoded, LspTransport, Message, Notification, PayloadError, ProtocolError,
    Request, Starved, StreamEnd,
};

fn fed(bytes: &[u8]) -> LspTransport {
    let mut transport = LspTransport::new();
    transport.feed(bytes);
    transport
}

fn message(decoded: Result<Decoded, ProtocolError>) -> Message {
    match decoded {
        Ok(Decoded::Message(message)) => message,
        other => panic!("no message: {:?}", other),
    }
}

#[test]
fn decode_multiple_frames() {
    let frames = [
        "Content-Length: 52\r\n\r\n",
        r#"{"jsonrpc":"2.0","method":"initialized","params":{}}"#,
        "Content-Length: 44\r\n\r\n",
        r#"{"jsonrpc":"2.0","id":1,"method":"shutdown"}"#,
    ].concat();

    let mut transport = fed(frames.as_bytes());

    let first = message(transport.decode());
    let second = message(transport.decode());

    assert_eq!(
        first,
        Message::Notification(Notification::new(
            "initialized",
            Some(Json::Object(vec![]))
        ))
    );
    assert_eq!(
        second,
        Message::Request(Request::new(
            Json::Number(JsonNumber::Int(1)),
            "shutdown",
            None
        ))
    );
    assert_eq!(transport.buffered(), 0);
    assert!(matches!(
        transport.decode(),
        Ok(Decoded::Starved(Starved::Empty))
    ));
}

#[test]
fn decode_short_read() {
    let frame = [
        "Content-Length: 38\r\n\r\n",
        r#"{"jsonrpc":"2.0","id":1,"result":null}"#
    ].concat();

    let mut transport = fed(&frame.as_bytes()[..20]);
    assert!(matches!(
        transport.decode(),
        Ok(Decoded::Starved(Starved::Headers))
    ));
    assert_eq!(transport.buffered(), 20);

    transport.feed(&frame.as_bytes()[20..]);
    message(transport.decode());
}

#[test]
fn decode_eof() {
    let mut transport = fed(&[]);

    assert!(matches!(
        transport.decode().unwrap(),
        Decoded::Starved(Starved::Empty)
    ));
}

#[test]
fn decode_missing_content_length() {
    let frame = [
        "Content-Type: application/vscode-jsonrpc; charset=utf8\r\n\r\n",
        r#"{"jsonrpc":"2.0","id":1,"result":null}"#
    ].concat();
    let mut transport = fed(frame.as_bytes());

    let err = transport.decode().unwrap_err();

    assert!(matches!(err, ProtocolError::MissingContentLength));
}

#[test]
fn decode_invalid_content_length() {
    let frame = [
        "Content-Length: not a number\r\n\r\n",
        r#"{"jsonrpc":"2.0","id":1,"result":null}"#
    ].concat();
    let mut transport = fed(frame.as_bytes());

    let err = transport.decode().unwrap_err();

    assert!(matches!(err, ProtocolError::InvalidContentLength));
}

#[test]
fn decode_invalid_header() {
    let frame = [
        "Internal Whitespace: yes\r\n\r\n",
        r#"{"jsonrpc":"2.0","id":1,"result":null}"#
    ].concat();
    let mut transport = fed(frame.as_bytes());

    let err = transport.decode().unwrap_err();

    assert!(matches!(
        err,
        ProtocolError::HTTP(httparse::Error::HeaderName)
    ));
}

#[test]
fn decode_invalid_json() {
    let frame = [
        "Content-Length: 38\r\n\r\n",
        r#"{"jsonrpc":"1.0","id":1,"result":null}"#
    ].concat();

    let mut transport = fed(frame.as_bytes());

    let err = transport.decode().unwrap_err();

    assert!(matches!(err, ProtocolError::InvalidJson(_)));
}

#[test]
fn header_fault_is_met_again() {
    let mut transport = fed(b"not http");

    for _ in 0..3 {
        assert!(matches!(
            transport.decode(),
            Err(ProtocolError::HTTP(httparse::Error::HeaderName))
        ));
        assert_eq!(transport.buffered(), 8);
    }
}

#[test]
fn length_faults_take_nothing() {
    let missing = "Content-Type: x\r\n\r\n{}";
    let mut transport = fed(missing.as_bytes());
    for _ in 0..2 {
        assert!(matches!(
            transport.decode(),
            Err(ProtocolError::MissingContentLength)
        ));
        assert_eq!(transport.buffered(), missing.len());
    }

    let invalid = "Content-Length: x\r\n\r\n{}";
    let mut transport = fed(invalid.as_bytes());
    for _ in 0..2 {
        assert!(matches!(
            transport.decode(),
            Err(ProtocolError::InvalidContentLength)
        ));
        assert_eq!(transport.buffered(), invalid.len());
    }
}

#[test]
fn payload_fault_lets_the_next_frame_through() {
    let frames = [
        "Content-Length: 8\r\n\r\n",
        "not json",
        "Content-Length: 44\r\n\r\n",
        r#"{"jsonrpc":"2.0","id":1,"method":"shutdown"}"#,
    ].concat();
    let mut transport = fed(frames.as_bytes());

    match transport.decode() {
        Err(ProtocolError::InvalidJson(PayloadError::Document(_))) => {}
        other => panic!("unexpected: {:?}", other),
    }
    assert_eq!(transport.buffered(), 22 + 44);
    assert_eq!(
        message(transport.decode()),
        Message::Request(Request::new(
            Json::Number(JsonNumber::Int(1)),
            "shutdown",
            None
        ))
    );
}

#[test]
fn payload_that_is_no_message_is_taken_too() {
    let frames = ["Content-Length: 2\r\n\r\n", "{}", "rest"].concat();
    let mut transport = fed(frames.as_bytes());

    match transport.decode() {
        Err(ProtocolError::InvalidJson(PayloadError::Message(_))) => {}
        other => panic!("unexpected: {:?}", other),
    }
    assert_eq!(transport.buffered(), 4);
}

#[test]
fn short_payload_says_how_much_is_missing() {
    let mut transport = fed(b"Content-Length: 10\r\n\r\n{\"a\"");

    assert!(matches!(
        transport.decode(),
        Ok(Decoded::Starved(Starved::Payload(6)))
    ));
    assert_eq!(transport.buffered(), 26);
}

#[test]
fn too_many_headers_are_a_fault() {
    assert_eq!(MAX_HEADERS, 4);
    let four = "A: 1\r\nB: 2\r\nC: 3\r\nContent-Length: 2\r\n\r\n{}";
    let mut transport = fed(four.as_bytes());
    assert!(matches!(
        transport.decode(),
        Err(ProtocolError::InvalidJson(PayloadError::Message(_)))
    ));

    let five = "A: 1\r\nB: 2\r\nC: 3\r\nD: 4\r\nContent-Length: 2\r\n\r\n{}";
    let mut transport = fed(five.as_bytes());
    assert!(matches!(
        transport.decode(),
        Err(ProtocolError::HTTP(httparse::Error::TooManyHeaders))
    ));
}

#[test]
fn length_header_is_matched_letter_for_letter() {
    let mut transport = fed(b"content-length: 2\r\n\r\n{}");

    assert!(matches!(
        transport.decode(),
        Err(ProtocolError::MissingContentLength)
    ));
}

#[test]
fn first_length_header_counts() {
    let headers = vec![
        Header {
            name: String::from("Accept"),
            value: b"x".to_vec(),
        },
        Header {
            name: String::from("Content-Length"),
            value: b"1".to_vec(),
        },
        Header {
            name: String::from("Content-Length"),
            value: b"2".to_vec(),
        },
    ];

    assert_eq!(find_content_length(&headers), Some(1));
    assert_eq!(find_content_length(&headers[..1].to_vec()), None);
}

#[test]
fn length_is_read_as_a_leading_number() {
    let cases: [(&str, Option<usize>); 9] = [
        ("2", Some(2)),
        ("002", Some(2)),
        ("+2", Some(2)),
        ("2 bytes", Some(2)),
        ("-0", Some(0)),
        ("-2", None),
        ("", None),
        ("x2", None),
        ("99999999999999999999999999", None),
    ];
    for (value, length) in cases {
        let frame = format!("Content-Length: {}\r\n\r\n{{}}", value);
        let mut transport = fed(frame.as_bytes());
        let decoded = transport.decode();
        match length {
            Some(2) => assert!(
                matches!(
                    decoded,
                    Err(ProtocolError::InvalidJson(PayloadError::Message(_)))
                ),
                "{}",
                value
            ),
            Some(_) => assert!(
                matches!(
                    decoded,
                    Err(ProtocolError::InvalidJson(PayloadError::Document(_)))
                ),
                "{}",
                value
            ),
            None => assert!(
                matches!(decoded, Err(ProtocolError::InvalidContentLength)),
                "{}",
                value
            ),
        }
    }
}

#[test]
fn encode_writes_length_header_and_payload() {
    let transport = LspTransport::new();
    let message = Message::Request(Request::new(
        Json::Number(JsonNumber::Int(1)),
        "shutdown",
        None,
    ));

    assert_eq!(
        String::from_utf8(transport.encode(&message)).unwrap(),
        [
            "Content-Length: 44\r\n\r\n",
            r#"{"jsonrpc":"2.0","id":1,"method":"shutdown"}"#
        ].concat()
    );
}

#[test]
fn encoded_frames_are_decoded_in_order() {
    let mut transport = LspTransport::new();
    let first = Message::Notification(Notification::new(
        "textDocument/didOpen",
        Some(Json::parse(r#"{"text":"héllo \"wörld\"\n"}"#.as_bytes()).unwrap()),
    ));
    let second = Message::Request(Request::new(Json::Text(String::from("x")), "m", None));
    let mut bytes = transport.encode(&first);
    bytes.extend(transport.encode(&second));

    transport.feed(&bytes);

    assert_eq!(message(transport.decode()), first);
    assert_eq!(message(transport.decode()), second);
    assert!(matches!(
        transport.decode(),
        Ok(Decoded::Starved(Starved::Empty))
    ));
}

#[test]
fn error_codes_and_messages() {
    let mut transport = fed(b"not http");
    let err = transport.decode().unwrap_err();
    assert_eq!(err.code(), Some(-32700));
    assert_eq!(err.message(), "Could not parse HTTP: invalid header name");

    let mut transport = fed(b"Content-Length: 8\r\n\r\nnot json");
    let err = transport.decode().unwrap_err();
    assert_eq!(err.code(), Some(-32600));
    assert_eq!(
        err.message(),
        "Invalid JSON: expected ident at line 1 column 2"
    );

    let mut transport = fed(b"Content-Length: 19\r\n\r\n{\"jsonrpc\":\"2.0\"}  ");
    let err = transport.decode().unwrap_err();
    assert_eq!(err.code(), Some(-32600));
    assert_eq!(err.message(), "Invalid JSON: missing field `method`");

    assert_eq!(ProtocolError::MissingContentLength.code(), Some(-32700));
    assert_eq!(
        ProtocolError::MissingContentLength.message(),
        "Missing Content-Length header"
    );
    assert_eq!(ProtocolError::InvalidContentLength.code(), Some(-32700));
    assert_eq!(
        ProtocolError::InvalidContentLength.message(),
        "Content-Length was not a number"
    );
    let io = ProtocolError::Io(String::from("broken pipe"));
    assert_eq!(io.code(), None);
    assert_eq!(io.message(), "I/O error: broken pipe");
}

#[test]
fn frame_end_or_missing_bytes() {
    assert_eq!(locate_frame_end(26, 22, 10), Err(6));
    assert_eq!(locate_frame_end(32, 22, 10), Ok(32));
    assert_eq!(locate_frame_end(40, 22, 10), Ok(32));
    assert_eq!(locate_frame_end(22, 22, 0), Ok(22));
    assert_eq!(locate_frame_end(22, 22, 1), Err(1));
    assert_eq!(locate_frame_end(0, 0, usize::MAX), Err(usize::MAX));
    assert_eq!(locate_frame_end(3, 5, 2), Err(2));
    assert_eq!(locate_frame_end(3, 5, 0), Ok(5));
    assert_eq!(locate_frame_end(usize::MAX, 0, usize::MAX), Ok(usize::MAX));
}

#[test]
fn end_of_stream_by_kind_of_starvation() {
    assert_eq!(Starved::Empty.at_end_of_stream(), StreamEnd::Clean);
    assert_eq!(Starved::Headers.at_end_of_stream(), StreamEnd::Pending);
    assert_eq!(Starved::Payload(3).at_end_of_stream(), StreamEnd::Truncated);
}

#[test]
fn payload_faults_in_words() {
    let mut transport = fed(b"Content-Length: 8\r\n\r\nnot json");
    match transport.decode() {
        Err(ProtocolError::InvalidJson(fault)) => {
            assert_eq!(fault.text(), "expected ident at line 1 column 2")
        }
        other => panic!("unexpected: {:?}", other),
    }

    let mut transport = fed(b"Content-Length: 2\r\n\r\n[]");
    match transport.decode() {
        Err(ProtocolError::InvalidJson(fault)) => {
            assert_eq!(fault.text(), "invalid type: expected a message object")
        }
        other => panic!("unexpected: {:?}", other),
    }
}

#[test]
fn header_faults_by_kind_and_in_words() {
    let cases: [(&[u8], HeaderFault, &str); 4] = [
        (
            b"not http",
            HeaderFault::HeaderName,
            "Could not parse HTTP: invalid header name",
        ),
        (
            b"A: b\x01\r\n\r\n",
            HeaderFault::HeaderValue,
            "Could not parse HTTP: invalid header value",
        ),
        (
            b"\rX",
            HeaderFault::NewLine,
            "Could not parse HTTP: invalid new line",
        ),
        (
            b"A: 1\r\nB: 2\r\nC: 3\r\nD: 4\r\nE: 5\r\n\r\n",
            HeaderFault::TooManyHeaders,
            "Could not parse HTTP: too many headers",
        ),
    ];
    for (bytes, kind, message) in cases {
        let failure = fed(bytes).decode().unwrap_err();
        assert_eq!(failure.header_fault(), Some(kind));
        assert_eq!(failure.message(), message);
    }
    assert_eq!(ProtocolError::MissingContentLength.header_fault(), None);
}
