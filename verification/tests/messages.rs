use mdpls::json::{Json, JsonNumber};
use mdpls::protocol::{
    Field, Message, MessageError, Notification, Request, Response, ResponseError, ResultExt,
};

fn document(text: &str) -> Json {
    Json::parse(text.as_bytes()).unwrap()
}

fn written_and_read(message: &Message) -> Message {
    let text = message.serialize().to_text();
    Message::deserialize(&Json::parse(&text).unwrap()).unwrap()
}

#[test]
fn deseialize_request_string_id() {
    let json = document(r#"{ "jsonrpc": "2.0", "id": "1", "method": "foo" }"#);

    let request = match Message::deserialize(&json) {
        Ok(Message::Request(req)) => req,
        other => panic!("unexpected message: {:?}", other),
    };

    assert_eq!(request.id, document(r#""1""#));
}

#[test]
fn deseialize_request_missing_method() {
    let json = document(r#"{ "jsonrpc": "2.0", "id": 1}"#);

    let err = Message::deserialize(&json).unwrap_err();

    assert!(err.text().contains("missing field `method`"));
}

#[test]
fn deserialize_response() {
    let json = document(r#"{ "jsonrpc": "2.0", "id": 1, "result": null}"#);

    let response = match Message::deserialize(&json) {
        Ok(Message::Response(res)) => res,
        other => panic!("unexpected message: {:?}", other),
    };

    assert_eq!(response.into_result(), Ok(Json::Null));
}

#[test]
fn deserialize_unknown_fields() {
    let json = document(r#"{ "jsonrpc": "2.0", "id": 1, "result": null, "extra": 1 }"#);

    let err = Message::deserialize(&json).unwrap_err();

    assert!(err.text().contains("unknown"));
}

#[test]
fn deserialize_bad_version() {
    let json = document(r#"{ "jsonrpc": "1.0" }"#);

    let err = Message::deserialize(&json).unwrap_err();

    assert!(err.text().contains("protocol version"));
}

#[test]
fn deserialize_result_and_error() {
    let json = document(
        r#"{
            "jsonrpc": "2.0",
            "id": 1,
            "result": null,
            "error": {
                "code": 1,
                "message": "error"
            }
        }"#,
    );

    let err = Message::deserialize(&json).unwrap_err();

    assert!(err
        .text()
        .contains("expected exactly one of result or error"));
}

#[test]
fn deserialize_response_missing_id() {
    let json = document(r#"{ "jsonrpc": "2.0", "result": null }"#);

    let err = Message::deserialize(&json).unwrap_err();
    assert_eq!(err.text(), "missing field `id`");
}

#[test]
fn deserialize_response_null_id() {
    let json = document(
        r#"{
        "jsonrpc": "2.0",
        "id": null,
        "error": {
            "code": 1,
            "message": "error"
        }}"#,
    );

    let response = match Message::deserialize(&json).unwrap() {
        Message::Response(res) => res,
        other => panic!("unexpected message: {:?}", other),
    };
    assert_eq!(response.id, Json::Null);
}

#[test]
fn deserialize_notification_missing_method() {
    let json = document(r#"{ "jsonrpc": "2.0" }"#);

    let err = Message::deserialize(&json).unwrap_err();

    assert!(err.text().contains("missing field `method`"));
}

#[test]
fn error_without_id_is_rejected() {
    let json = document(r#"{ "jsonrpc": "2.0", "error": { "code": 1, "message": "m" } }"#);

    assert_eq!(
        Message::deserialize(&json),
        Err(MessageError::MissingField(Field::Id))
    );
}

#[test]
fn each_fault_has_its_error() {
    let cases = [
        ("[]", MessageError::NotAnObject),
        (r#""2.0""#, MessageError::NotAnObject),
        (
            r#"{ "jsonrpc": "2.0", "method": "m", "other": 1 }"#,
            MessageError::UnknownField(String::from("other")),
        ),
        (
            r#"{ "jsonrpc": 2, "method": "m" }"#,
            MessageError::InvalidField(Field::Jsonrpc),
        ),
        (
            r#"{ "jsonrpc": "2.0", "method": 7 }"#,
            MessageError::InvalidField(Field::Method),
        ),
        (
            r#"{ "jsonrpc": "2.0", "id": 1, "error": null }"#,
            MessageError::InvalidField(Field::Error),
        ),
        (
            r#"{ "jsonrpc": "2.0", "id": 1, "error": { "code": 1.5, "message": "m" } }"#,
            MessageError::InvalidField(Field::Error),
        ),
        (
            r#"{ "jsonrpc": "2.0", "id": 1, "error": { "code": 1 } }"#,
            MessageError::InvalidField(Field::Error),
        ),
        (
            r#"{ "method": "m" }"#,
            MessageError::MissingField(Field::Jsonrpc),
        ),
        (
            r#"{ "jsonrpc": "2.0", "method": null }"#,
            MessageError::MissingField(Field::Method),
        ),
        (r#"{ "jsonrpc": "2", "method": "m" }"#, MessageError::BadVersion),
        (
            r#"{ "jsonrpc": "2.0", "id": 1, "result": 1, "error": { "code": 1, "message": "m" } }"#,
            MessageError::ResultAndError,
        ),
    ];
    for (text, fault) in cases {
        assert_eq!(Message::deserialize(&document(text)), Err(fault), "{}", text);
    }
}

#[test]
fn the_first_fault_in_document_order_is_reported() {
    let json = document(r#"{ "zzz": 1, "jsonrpc": 3 }"#);
    assert_eq!(
        Message::deserialize(&json),
        Err(MessageError::UnknownField(String::from("zzz")))
    );
    let json = document(r#"{ "jsonrpc": 3, "zzz": 1 }"#);
    assert_eq!(
        Message::deserialize(&json),
        Err(MessageError::InvalidField(Field::Jsonrpc))
    );
}

#[test]
fn fault_texts() {
    assert_eq!(
        MessageError::UnknownField(String::from("extra")).text(),
        "unknown field `extra`, expected one of `jsonrpc`, `id`, `method`, `params`, `result`, `error`"
    );
    assert_eq!(
        MessageError::BadVersion.text(),
        "invalid value: JSON-RPC protocol version, expected 2.0"
    );
    assert_eq!(
        MessageError::MissingField(Field::Jsonrpc).text(),
        "missing field `jsonrpc`"
    );
    assert_eq!(
        MessageError::InvalidField(Field::Error).text(),
        "invalid type for field `error`"
    );
    assert_eq!(
        MessageError::NotAnObject.text(),
        "invalid type: expected a message object"
    );
    assert_eq!(
        MessageError::ResultAndError.text(),
        "expected exactly one of result or error"
    );
}

#[test]
fn request_with_params_is_read() {
    let json = document(r#"{ "jsonrpc": "2.0", "id": 7, "method": "m", "params": [1, "two"] }"#);

    assert_eq!(
        Message::deserialize(&json),
        Ok(Message::Request(Request::new(
            Json::Number(JsonNumber::Int(7)),
            "m",
            Some(document(r#"[1, "two"]"#)),
        )))
    );
}

#[test]
fn null_params_are_present_params() {
    let json = document(r#"{ "jsonrpc": "2.0", "method": "m", "params": null }"#);

    assert_eq!(
        Message::deserialize(&json),
        Ok(Message::Notification(Notification::new("m", Some(Json::Null))))
    );
}

#[test]
fn request_is_written_with_jsonrpc_first() {
    let message = Message::Request(Request::new(
        Json::Number(JsonNumber::Int(1)),
        "shutdown",
        None,
    ));

    assert_eq!(
        String::from_utf8(message.serialize().to_text()).unwrap(),
        r#"{"jsonrpc":"2.0","id":1,"method":"shutdown"}"#
    );
}

#[test]
fn notification_is_written_without_id() {
    let message = Message::Notification(Notification::new("initialized", Some(document("{}"))));

    assert_eq!(
        String::from_utf8(message.serialize().to_text()).unwrap(),
        r#"{"jsonrpc":"2.0","method":"initialized","params":{}}"#
    );
}

#[test]
fn responses_are_written_with_one_of_result_and_error() {
    let ok = Message::Response(Ok(Json::Null).into_response(Json::Text(String::from("a"))));
    assert_eq!(
        String::from_utf8(ok.serialize().to_text()).unwrap(),
        r#"{"jsonrpc":"2.0","id":"a","result":null}"#
    );

    let failed = Message::error(ResponseError {
        code: -32700,
        message: String::from("bad"),
        data: None,
    });
    assert_eq!(
        String::from_utf8(failed.serialize().to_text()).unwrap(),
        r#"{"jsonrpc":"2.0","id":null,"error":{"code":-32700,"message":"bad","data":null}}"#
    );
}

#[test]
fn messages_survive_writing_and_reading() {
    let ids = [
        Json::Text(String::from("seven")),
        Json::Number(JsonNumber::Int(7)),
        Json::Number(JsonNumber::Int(-7)),
        Json::Number(JsonNumber::Big(u64::MAX)),
        Json::Null,
    ];
    for id in ids {
        let messages = [
            Message::Request(Request::new(id.duplicate(), "a/b", None)),
            Message::Request(Request::new(
                id.duplicate(),
                "a/b",
                Some(document(r#"{"k":[true,false,null,"s\"\\\né"]}"#)),
            )),
            Message::Response(Response {
                id: id.duplicate(),
                outcome: Ok(document(r#"{"nested":{"deep":[[],{}]}}"#)),
            }),
            Message::Response(Response {
                id: id.duplicate(),
                outcome: Err(ResponseError {
                    code: i64::MIN,
                    message: String::from("no"),
                    data: Some(document("[1]")),
                }),
            }),
            Message::Response(Response {
                id: id.duplicate(),
                outcome: Err(ResponseError {
                    code: i64::MAX,
                    message: String::new(),
                    data: None,
                }),
            }),
        ];
        for message in messages {
            assert_eq!(written_and_read(&message), message);
        }
    }
    let notification = Message::Notification(Notification::new("exit", None));
    assert_eq!(written_and_read(&notification), notification);
}

#[test]
fn null_error_data_is_read_back_as_absent() {
    let message = Message::Response(Response {
        id: Json::Null,
        outcome: Err(ResponseError {
            code: 1,
            message: String::from("m"),
            data: Some(Json::Null),
        }),
    });

    assert_eq!(
        written_and_read(&message),
        Message::Response(Response {
            id: Json::Null,
            outcome: Err(ResponseError {
                code: 1,
                message: String::from("m"),
                data: None,
            }),
        })
    );
}

#[test]
fn into_response_keeps_id_and_outcome() {
    let id = Json::Number(JsonNumber::Int(3));
    let failure = ResponseError {
        code: 1,
        message: String::from("m"),
        data: None,
    };

    let response = Err(failure.duplicate()).into_response(id.duplicate());

    assert_eq!(response.id, id);
    assert_eq!(response.into_result(), Err(failure));
}

#[test]
fn error_message_has_null_id() {
    let failure = ResponseError {
        code: -32600,
        message: String::from("m"),
        data: None,
    };

    assert_eq!(
        Message::error(failure.duplicate()),
        Message::Response(Response {
            id: Json::Null,
            outcome: Err(failure),
        })
    );
}
