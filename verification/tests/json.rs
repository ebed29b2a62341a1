use mdpls::json::{
    write_decimal, write_signed_decimal, Json, JsonError, JsonNumber, Member,
    MAX_DEPTH,
};

fn printed(j: &Json) -> String {
    String::from_utf8(j.to_text()).unwrap()
}

#[test]
fn scalars_are_read() {
    assert_eq!(Json::parse(b"null").unwrap(), Json::Null);
    assert_eq!(Json::parse(b" true ").unwrap(), Json::Bool(true));
    assert_eq!(Json::parse(b"false").unwrap(), Json::Bool(false));
    assert_eq!(
        Json::parse(br#""a\u00e9\n""#).unwrap(),
        Json::Text(String::from("aé\n"))
    );
}

#[test]
fn numbers_are_read_by_their_range() {
    assert_eq!(
        Json::parse(b"0").unwrap(),
        Json::Number(JsonNumber::Int(0))
    );
    assert_eq!(
        Json::parse(b"-9223372036854775808").unwrap(),
        Json::Number(JsonNumber::Int(i64::MIN))
    );
    assert_eq!(
        Json::parse(b"9223372036854775807").unwrap(),
        Json::Number(JsonNumber::Int(i64::MAX))
    );
    assert_eq!(
        Json::parse(b"9223372036854775808").unwrap(),
        Json::Number(JsonNumber::Big(9223372036854775808))
    );
    assert_eq!(
        Json::parse(b"1.5").unwrap(),
        Json::Number(JsonNumber::Float(b"1.5".to_vec()))
    );
    assert_eq!(
        Json::parse(b"1e2").unwrap(),
        Json::Number(JsonNumber::Float(b"100.0".to_vec()))
    );
}

#[test]
fn number_ranges() {
    assert_eq!(JsonNumber::Int(-1).as_i64(), Some(-1));
    assert_eq!(JsonNumber::Int(-1).as_u64(), None);
    assert_eq!(JsonNumber::Int(7).as_u64(), Some(7));
    assert_eq!(JsonNumber::Big(7).as_i64(), Some(7));
    assert_eq!(JsonNumber::Big(u64::MAX).as_i64(), None);
    assert_eq!(JsonNumber::Big(u64::MAX).as_u64(), Some(u64::MAX));
    assert_eq!(JsonNumber::Float(b"1.5".to_vec()).as_i64(), None);
    assert_eq!(JsonNumber::Float(b"1.5".to_vec()).as_u64(), None);
}

#[test]
fn containers_are_read_in_document_order() {
    assert_eq!(
        Json::parse(br#"{"b":[1,{"a":null}],"a":"x"}"#).unwrap(),
        Json::Object(vec![
            Member::new(
                "b",
                Json::Array(vec![
                    Json::Number(JsonNumber::Int(1)),
                    Json::Object(vec![Member::new("a", Json::Null)]),
                ])
            ),
            Member::new("a", Json::Text(String::from("x"))),
        ])
    );
    assert_eq!(Json::parse(b"[]").unwrap(), Json::Array(vec![]));
    assert_eq!(Json::parse(b"{}").unwrap(), Json::Object(vec![]));
}

#[test]
fn rejected_texts_are_syntax_errors() {
    for text in ["", "not json", "{", "[1,]", "{\"a\"}", "1 2", "\"\\x\""] {
        assert!(
            matches!(Json::parse(text.as_bytes()), Err(JsonError::Syntax(_))),
            "{}",
            text
        );
    }
}

#[test]
fn deep_documents_are_read_up_to_the_limit() {
    assert_eq!(MAX_DEPTH, 128);
    let nested = |depth: usize| format!("{}{}", "[".repeat(depth), "]".repeat(depth));

    let mut doc = Json::parse(nested(100).as_bytes()).unwrap();
    let mut levels = 0;
    while let Json::Array(mut items) = doc {
        levels += 1;
        match items.pop() {
            Some(inner) => doc = inner,
            None => break,
        }
    }
    assert_eq!(levels, 100);

    assert!(Json::parse(nested(200).as_bytes()).is_err());
}

#[test]
fn documents_are_written_compactly() {
    let doc = Json::Object(vec![
        Member::new("n", Json::Null),
        Member::new("t", Json::Bool(true)),
        Member::new("f", Json::Bool(false)),
        Member::new("i", Json::Number(JsonNumber::Int(-12))),
        Member::new("u", Json::Number(JsonNumber::Big(u64::MAX))),
        Member::new("x", Json::Number(JsonNumber::Float(b"2.5e-3".to_vec()))),
        Member::new("s", Json::Text(String::from("a\"b\\c\n\u{1}é"))),
        Member::new("a", Json::Array(vec![Json::Array(vec![]), Json::Object(vec![])])),
        Member::new("k\"", Json::Array(vec![Json::Null, Json::Null])),
    ]);

    assert_eq!(
        printed(&doc),
        r#"{"n":null,"t":true,"f":false,"i":-12,"u":18446744073709551615,"x":2.5e-3,"s":"a\"b\\c\n\u0001é","a":[[],{}],"k\"":[null,null]}"#
    );
}

#[test]
fn writing_agrees_with_serde_json() {
    let texts = [
        "null",
        "true",
        "false",
        "0",
        "-9223372036854775808",
        "18446744073709551615",
        "3.141592653589793",
        "-1e-7",
        "123456789012345678901234567890",
        r#""""#,
        r#""\u0000\u001f\u007f\"\\/""#,
        "[]",
        "{}",
        r#"{"":{"":[[[]]]}}"#,
        r#"{"z":1,"a":2,"m":{"z":1,"a":2}}"#,
        r#"{"jsonrpc":"2.0","id":null,"error":{"code":-32700,"message":"bad","data":null}}"#,
        r#"{"jsonrpc":"2.0","id":1,"method":"m","params":{"a":[1,2,{"b":"\u2028\t"}],"c":-0.25}}"#,
        r#"[0,-1,18446744073709551615,1e300,"",{},[],null,true,false]"#,
        r#""\ud83d\ude00 \/ \b\f""#,
    ];
    for text in texts {
        let ours = Json::parse(text.as_bytes()).unwrap().to_text();
        let theirs =
            serde_json::to_vec(&serde_json::from_str::<serde_json::Value>(text).unwrap()).unwrap();
        assert_eq!(String::from_utf8(ours).unwrap(), String::from_utf8(theirs).unwrap());
    }
}

#[test]
fn written_documents_are_read_back() {
    let doc = Json::parse(br#"{"a":[1,"two",{"three":[null,true]}],"b":{"c":{"d":-4}}}"#).unwrap();

    assert_eq!(Json::parse(&doc.to_text()).unwrap(), doc);
    assert_eq!(doc.duplicate(), doc);
}

#[test]
fn get_finds_the_first_member() {
    let doc = Json::Object(vec![
        Member::new("a", Json::Bool(true)),
        Member::new("b", Json::Null),
        Member::new("a", Json::Bool(false)),
    ]);

    assert_eq!(doc.get("a"), Some(&Json::Bool(true)));
    assert_eq!(doc.get("b"), Some(&Json::Null));
    assert_eq!(doc.get("c"), None);
    assert_eq!(Json::Array(vec![]).get("a"), None);
    assert_eq!(Json::Null.get("a"), None);
}

#[test]
fn decimals_are_written_digit_by_digit() {
    let unsigned = |n: u64| {
        let mut out = b">".to_vec();
        write_decimal(n, &mut out);
        String::from_utf8(out).unwrap()
    };
    let signed = |i: i64| {
        let mut out = b">".to_vec();
        write_signed_decimal(i, &mut out);
        String::from_utf8(out).unwrap()
    };

    assert_eq!(unsigned(0), ">0");
    assert_eq!(unsigned(9), ">9");
    assert_eq!(unsigned(10), ">10");
    assert_eq!(unsigned(1234567890), ">1234567890");
    assert_eq!(unsigned(u64::MAX), ">18446744073709551615");
    assert_eq!(signed(0), ">0");
    assert_eq!(signed(-1), ">-1");
    assert_eq!(signed(i64::MAX), ">9223372036854775807");
    assert_eq!(signed(i64::MIN), ">-9223372036854775808");
}
