//! The messages of the protocol and their mapping to JSON-RPC 2.0 documents.

use crate::headers::{
    content_length_value, find_content_length, header_block, header_error_text,
    header_fault_kind, header_fault_of, header_fault_words, leading_number,
    written_length_is_read, HeaderFault,
    read_header_block, read_leading_number, HeaderBlock, MAX_HEADERS,
};
use crate::json::{
    decimal, joined, lemma_object_value, lookup, members_value, parsed, same_text,
    syntax_error_text, syntax_fault_words, text_of, write_decimal, Json, JsonError, JsonNumber, JsonView, Member,
    NumberView, MAX_DEPTH,
};
use vstd::prelude::*;

verus! {

/// The error that a response carries in place of a result.
#[derive(Debug, PartialEq, Eq)]
pub struct ResponseError {
    pub code: i64,
    pub message: String,
    pub data: Option<Json>,
}

/// A call that expects a response with the same `id`.
#[derive(Debug, PartialEq, Eq)]
pub struct Request {
    pub id: Json,
    pub method: String,
    pub params: Option<Json>,
}

/// A call that expects no response.
#[derive(Debug, PartialEq, Eq)]
pub struct Notification {
    pub method: String,
    pub params: Option<Json>,
}

/// The answer to a request: its `id` and either a result or an error.
#[derive(Debug, PartialEq, Eq)]
pub struct Response {
    pub id: Json,
    pub outcome: Result<Json, ResponseError>,
}

/// One message of the protocol.
#[derive(Debug, PartialEq, Eq)]
pub enum Message {
    Request(Request),
    Notification(Notification),
    Response(Response),
}

/// The mathematical value of a [`ResponseError`].
pub struct ResponseErrorView {
    pub code: i64,
    pub message: Seq<char>,
    pub data: Option<JsonView>,
}

/// The mathematical value of a [`Request`].
pub struct RequestView {
    pub id: JsonView,
    pub method: Seq<char>,
    pub params: Option<JsonView>,
}

/// The mathematical value of a [`Notification`].
pub struct NotificationView {
    pub method: Seq<char>,
    pub params: Option<JsonView>,
}

/// The mathematical value of a [`Response`].
pub struct ResponseView {
    pub id: JsonView,
    pub outcome: Result<JsonView, ResponseErrorView>,
}

/// The mathematical value of a [`Message`].
pub enum MessageView {
    Request(RequestView),
    Notification(NotificationView),
    Response(ResponseView),
}

/// The value of an optional document.
pub open spec fn optional_value(j: Option<Json>) -> Option<JsonView> {
    match j {
        Some(j) => Some(j@),
        None => None,
    }
}

impl View for ResponseError {
    type V = ResponseErrorView;

    open spec fn view(&self) -> ResponseErrorView {
        ResponseErrorView { code: self.code, message: self.message@, data: optional_value(self.data) }
    }
}

impl View for Request {
    type V = RequestView;

    open spec fn view(&self) -> RequestView {
        RequestView { id: self.id@, method: self.method@, params: optional_value(self.params) }
    }
}

impl View for Notification {
    type V = NotificationView;

    open spec fn view(&self) -> NotificationView {
        NotificationView { method: self.method@, params: optional_value(self.params) }
    }
}

impl View for Response {
    type V = ResponseView;

    open spec fn view(&self) -> ResponseView {
        ResponseView {
            id: self.id@,
            outcome: match self.outcome {
                Ok(value) => Ok(value@),
                Err(error) => Err(error@),
            },
        }
    }
}

impl View for Message {
    type V = MessageView;

    open spec fn view(&self) -> MessageView {
        match self {
            Message::Request(request) => MessageView::Request(request@),
            Message::Notification(notification) => MessageView::Notification(notification@),
            Message::Response(response) => MessageView::Response(response@),
        }
    }
}

/// A top-level field of a message document.
#[derive(Debug, Clone, Copy, PartialEq, Eq, Structural)]
pub enum Field {
    Jsonrpc,
    Id,
    Method,
    Params,
    Result,
    Error,
}

/// Why a JSON document is no message.
#[derive(Debug, PartialEq, Eq)]
pub enum MessageError {
    /// The document is not an object.
    NotAnObject,
    /// The object has a member that no message has.
    UnknownField(String),
    /// A member holds a value of the wrong kind.
    InvalidField(Field),
    /// A member that the message needs is absent.
    MissingField(Field),
    /// `jsonrpc` is not `"2.0"`.
    BadVersion,
    /// Both `result` and `error` are present.
    ResultAndError,
}

/// The mathematical value of a [`MessageError`].
pub enum MessageErrorView {
    NotAnObject,
    UnknownField(Seq<char>),
    InvalidField(Field),
    MissingField(Field),
    BadVersion,
    ResultAndError,
}

impl View for MessageError {
    type V = MessageErrorView;

    open spec fn view(&self) -> MessageErrorView {
        match self {
            MessageError::NotAnObject => MessageErrorView::NotAnObject,
            MessageError::UnknownField(key) => MessageErrorView::UnknownField(key@),
            MessageError::InvalidField(field) => MessageErrorView::InvalidField(*field),
            MessageError::MissingField(field) => MessageErrorView::MissingField(*field),
            MessageError::BadVersion => MessageErrorView::BadVersion,
            MessageError::ResultAndError => MessageErrorView::ResultAndError,
        }
    }
}

/// The error object that a document holds: an integer `code`, a string
/// `message` and, where `data` is present and not `null`, that value.
pub open spec fn error_of(doc: JsonView) -> Option<ResponseErrorView> {
    match (doc.member("code"@), doc.member("message"@)) {
        (Some(JsonView::Number(n)), Some(JsonView::Text(message))) => match n.as_i64() {
            Some(code) => Some(
                ResponseErrorView {
                    code,
                    message,
                    data: match doc.member("data"@) {
                        None => None,
                        Some(JsonView::Null) => None,
                        Some(data) => Some(data),
                    },
                },
            ),
            None => None,
        },
        _ => None,
    }
}

/// The document of an error object; an absent `data` is written as `null`.
pub open spec fn error_document(error: ResponseErrorView) -> JsonView {
    JsonView::Object(
        seq![
            ("code"@, JsonView::Number(NumberView::Int(error.code))),
            ("message"@, JsonView::Text(error.message)),
            (
                "data"@,
                match error.data {
                    Some(data) => data,
                    None => JsonView::Null,
                },
            ),
        ],
    )
}

/// What is wrong with one member of a message document, if anything.
pub open spec fn member_fault(key: Seq<char>, value: JsonView) -> Option<MessageErrorView> {
    if key == "jsonrpc"@ {
        if value is Text {
            None
        } else {
            Some(MessageErrorView::InvalidField(Field::Jsonrpc))
        }
    } else if key == "method"@ {
        if value is Text || value is Null {
            None
        } else {
            Some(MessageErrorView::InvalidField(Field::Method))
        }
    } else if key == "error"@ {
        if error_of(value) is Some {
            None
        } else {
            Some(MessageErrorView::InvalidField(Field::Error))
        }
    } else if key == "id"@ || key == "params"@ || key == "result"@ {
        None
    } else {
        Some(MessageErrorView::UnknownField(key))
    }
}

/// The fault of the first member, in document order, that has one.
pub open spec fn first_fault(members: Seq<(Seq<char>, JsonView)>) -> Option<MessageErrorView>
    decreases members.len(),
{
    if members.len() == 0 {
        None
    } else {
        match member_fault(members[0].0, members[0].1) {
            Some(fault) => Some(fault),
            None => first_fault(members.skip(1)),
        }
    }
}

/// The method that a `method` member names; `null` names none.
pub open spec fn method_of(value: Option<JsonView>) -> Option<Seq<char>> {
    match value {
        Some(JsonView::Text(method)) => Some(method),
        _ => None,
    }
}

/// The message that the members of a faultless document with the right
/// version stand for.
pub open spec fn classified(members: Seq<(Seq<char>, JsonView)>) -> Result<
    MessageView,
    MessageErrorView,
> {
    let id = lookup(members, "id"@);
    let params = lookup(members, "params"@);
    let result = lookup(members, "result"@);
    let error = lookup(members, "error"@);
    if result is Some || error is Some {
        if result is Some && error is Some {
            Err(MessageErrorView::ResultAndError)
        } else {
            match id {
                None => Err(MessageErrorView::MissingField(Field::Id)),
                Some(id) => match result {
                    Some(value) => Ok(MessageView::Response(ResponseView { id, outcome: Ok(value) })),
                    None => match error_of(error.unwrap()) {
                        Some(error) => Ok(
                            MessageView::Response(ResponseView { id, outcome: Err(error) }),
                        ),
                        None => Err(MessageErrorView::InvalidField(Field::Error)),
                    },
                },
            }
        }
    } else {
        match method_of(lookup(members, "method"@)) {
            None => Err(MessageErrorView::MissingField(Field::Method)),
            Some(method) => match id {
                Some(id) => Ok(MessageView::Request(RequestView { id, method, params })),
                None => Ok(MessageView::Notification(NotificationView { method, params })),
            },
        }
    }
}

/// The message that a JSON document stands for, or why it stands for none.
///
/// The document must be an object whose members are all known and of the
/// right kind, with `jsonrpc` equal to `"2.0"`. With `result` or `error` it
/// is a response, which needs an `id` and only one of the two. Without them
/// it needs a `method`, and is a request with an `id` and a notification
/// without one.
pub open spec fn message_of(doc: JsonView) -> Result<MessageView, MessageErrorView> {
    match doc {
        JsonView::Object(members) => match first_fault(members) {
            Some(fault) => Err(fault),
            None => match lookup(members, "jsonrpc"@) {
                None => Err(MessageErrorView::MissingField(Field::Jsonrpc)),
                Some(version) => if version == JsonView::Text("2.0"@) {
                    classified(members)
                } else {
                    Err(MessageErrorView::BadVersion)
                },
            },
        },
        _ => Err(MessageErrorView::NotAnObject),
    }
}

/// The members that follow `jsonrpc` in the document of a message.
pub open spec fn body_members(message: MessageView) -> Seq<(Seq<char>, JsonView)> {
    match message {
        MessageView::Request(request) => seq![
            ("id"@, request.id),
            ("method"@, JsonView::Text(request.method)),
        ] + optional_member("params"@, request.params),
        MessageView::Notification(notification) => seq![
            ("method"@, JsonView::Text(notification.method)),
        ] + optional_member("params"@, notification.params),
        MessageView::Response(response) => seq![
            ("id"@, response.id),
            match response.outcome {
                Ok(value) => ("result"@, value),
                Err(error) => ("error"@, error_document(error)),
            },
        ],
    }
}

/// One member where the value is present, none where it is not.
pub open spec fn optional_member(key: Seq<char>, value: Option<JsonView>) -> Seq<
    (Seq<char>, JsonView),
> {
    match value {
        Some(value) => seq![(key, value)],
        None => Seq::empty(),
    }
}

/// The JSON document of a message: `jsonrpc` first, then the message's own
/// members.
pub open spec fn document_of(message: MessageView) -> JsonView {
    JsonView::Object(seq![("jsonrpc"@, JsonView::Text("2.0"@))] + body_members(message))
}

fn duplicate_optional(value: &Option<Json>) -> (r: Option<Json>)
    ensures
        optional_value(r) == optional_value(*value),
{
    match value {
        Some(value) => Some(value.duplicate()),
        None => None,
    }
}

impl ResponseError {
    /// Reads an error object.
    pub fn deserialize(doc: &Json) -> (r: Option<ResponseError>)
        ensures
            r matches Some(error) ==> error_of(doc@) == Some(error@),
            r is None ==> error_of(doc@) is None,
    {
        let code = match doc.get("code") {
            Some(Json::Number(n)) => match n.as_i64() {
                Some(code) => code,
                None => {
                    return None;
                },
            },
            _ => {
                return None;
            },
        };
        let message = match doc.get("message") {
            Some(Json::Text(message)) => message.clone(),
            _ => {
                return None;
            },
        };
        let data = match doc.get("data") {
            None => None,
            Some(Json::Null) => None,
            Some(data) => Some(data.duplicate()),
        };
        Some(ResponseError { code, message, data })
    }

    /// The document of the error object.
    pub fn serialize(&self) -> (r: Json)
        ensures
            r@ == error_document(self@),
    {
        let mut members: Vec<Member> = Vec::new();
        members.push(Member::new("code", Json::Number(JsonNumber::Int(self.code))));
        members.push(Member::new("message", Json::Text(self.message.clone())));
        let data = match &self.data {
            Some(data) => data.duplicate(),
            None => Json::Null,
        };
        members.push(Member::new("data", data));
        let doc = Json::Object(members);
        proof {
            lemma_object_value(members);
            assert(members_value(members@) =~= error_document(self@)->Object_0);
        }
        doc
    }

    /// A copy of the error.
    pub fn duplicate(&self) -> (r: ResponseError)
        ensures
            r@ == self@,
    {
        ResponseError {
            code: self.code,
            message: self.message.clone(),
            data: duplicate_optional(&self.data),
        }
    }
}

fn check_member(member: &Member) -> (r: Option<MessageError>)
    ensures
        r matches Some(fault) ==> member_fault(member.key@, member.value@) == Some(fault@),
        r is None ==> member_fault(member.key@, member.value@) is None,
{
    let key = member.key.as_str();
    if same_text(key, "jsonrpc") {
        match &member.value {
            Json::Text(_) => None,
            _ => Some(MessageError::InvalidField(Field::Jsonrpc)),
        }
    } else if same_text(key, "method") {
        match &member.value {
            Json::Text(_) => None,
            Json::Null => None,
            _ => Some(MessageError::InvalidField(Field::Method)),
        }
    } else if same_text(key, "error") {
        match ResponseError::deserialize(&member.value) {
            Some(_) => None,
            None => Some(MessageError::InvalidField(Field::Error)),
        }
    } else if same_text(key, "id") || same_text(key, "params") || same_text(key, "result") {
        None
    } else {
        Some(MessageError::UnknownField(member.key.clone()))
    }
}

fn classify(doc: &Json) -> (r: Result<Message, MessageError>)
    requires
        doc@ is Object,
    ensures
        r matches Ok(message) ==> classified(doc@->Object_0) == Ok::<MessageView, MessageErrorView>(
            message@,
        ),
        r matches Err(fault) ==> classified(doc@->Object_0) == Err::<MessageView, MessageErrorView>(
            fault@,
        ),
{
    let id = doc.get("id");
    let params = doc.get("params");
    let result = doc.get("result");
    let error = doc.get("error");
    if result.is_some() || error.is_some() {
        if result.is_some() && error.is_some() {
            return Err(MessageError::ResultAndError);
        }
        let id = match id {
            Some(id) => id.duplicate(),
            None => {
                return Err(MessageError::MissingField(Field::Id));
            },
        };
        match result {
            Some(value) => Ok(Message::Response(Response { id, outcome: Ok(value.duplicate()) })),
            None => match ResponseError::deserialize(error.unwrap()) {
                Some(error) => Ok(Message::Response(Response { id, outcome: Err(error) })),
                None => Err(MessageError::InvalidField(Field::Error)),
            },
        }
    } else {
        let method = match doc.get("method") {
            Some(Json::Text(method)) => method.clone(),
            _ => {
                return Err(MessageError::MissingField(Field::Method));
            },
        };
        let params = match params {
            Some(params) => Some(params.duplicate()),
            None => None,
        };
        match id {
            Some(id) => Ok(Message::Request(Request { id: id.duplicate(), method, params })),
            None => Ok(Message::Notification(Notification { method, params })),
        }
    }
}

impl Message {
    /// Reads a message from its JSON document.
    pub fn deserialize(doc: &Json) -> (r: Result<Message, MessageError>)
        ensures
            r matches Ok(message) ==> message_of(doc@) == Ok::<MessageView, MessageErrorView>(
                message@,
            ),
            r matches Err(fault) ==> message_of(doc@) == Err::<MessageView, MessageErrorView>(
                fault@,
            ),
    {
        let members = match doc {
            Json::Object(members) => members,
            _ => {
                return Err(MessageError::NotAnObject);
            },
        };
        let ghost all = doc@->Object_0;
        proof {
            lemma_object_value(*members);
            assert(all.skip(0) =~= all);
        }
        let mut k: usize = 0;
        while k < members.len()
            invariant
                k <= members.len(),
                all == members_value(members@),
                doc@ == JsonView::Object(all),
                first_fault(all) == first_fault(all.skip(k as int)),
            decreases members.len() - k,
        {
            assert(all.skip(k as int).skip(1) =~= all.skip(k + 1));
            assert(all.skip(k as int)[0] == (members[k as int].key@, members[k as int].value@));
            match check_member(&members[k]) {
                Some(fault) => {
                    return Err(fault);
                },
                None => {},
            }
            k += 1;
        }
        match doc.get("jsonrpc") {
            None => Err(MessageError::MissingField(Field::Jsonrpc)),
            Some(Json::Text(version)) => if same_text(version.as_str(), "2.0") {
                classify(doc)
            } else {
                Err(MessageError::BadVersion)
            },
            Some(_) => Err(MessageError::BadVersion),
        }
    }

    /// The JSON document of the message.
    pub fn serialize(&self) -> (r: Json)
        ensures
            r@ == document_of(self@),
    {
        let mut members: Vec<Member> = Vec::new();
        members.push(Member::new("jsonrpc", Json::Text("2.0".to_owned())));
        match self {
            Message::Request(request) => {
                members.push(Member::new("id", request.id.duplicate()));
                members.push(Member::new("method", Json::Text(request.method.clone())));
                match &request.params {
                    Some(params) => members.push(Member::new("params", params.duplicate())),
                    None => {},
                }
            },
            Message::Notification(notification) => {
                members.push(Member::new("method", Json::Text(notification.method.clone())));
                match &notification.params {
                    Some(params) => members.push(Member::new("params", params.duplicate())),
                    None => {},
                }
            },
            Message::Response(response) => {
                members.push(Member::new("id", response.id.duplicate()));
                match &response.outcome {
                    Ok(value) => members.push(Member::new("result", value.duplicate())),
                    Err(error) => members.push(Member::new("error", error.serialize())),
                }
            },
        }
        proof {
            lemma_object_value(members);
            assert(members_value(members@) =~= document_of(self@)->Object_0);
        }
        Json::Object(members)
    }

    /// The response that reports `err` for a message whose `id` could not be
    /// read: its `id` is `null`.
    pub fn error(err: ResponseError) -> (r: Message)
        ensures
            r == Message::Response(Response { id: Json::Null, outcome: Err(err) }),
    {
        Message::Response(Response { id: Json::Null, outcome: Err(err) })
    }
}

impl Request {
    /// A request for `method`.
    pub fn new(id: Json, method: &str, params: Option<Json>) -> (r: Request)
        ensures
            r.id == id,
            r.method@ == method@,
            r.params == params,
    {
        Request { id, method: method.to_owned(), params }
    }
}

impl Notification {
    /// A notification of `method`.
    pub fn new(method: &str, params: Option<Json>) -> (r: Notification)
        ensures
            r.method@ == method@,
            r.params == params,
    {
        Notification { method: method.to_owned(), params }
    }
}

impl Response {
    /// The result or the error that the response carries.
    pub fn into_result(self) -> (r: Result<Json, ResponseError>)
        ensures
            r == self.outcome,
    {
        self.outcome
    }
}

/// Turns the outcome of handling a request into the response to it.
pub trait ResultExt {
    /// The response to the request `id` that carries this outcome.
    fn into_response(self, id: Json) -> Response;
}

impl ResultExt for Result<Json, ResponseError> {
    fn into_response(self, id: Json) -> (r: Response)
        ensures
            r == (Response { id, outcome: self }),
    {
        Response { id, outcome: self }
    }
}

/// Whether a key names one of the members that a message may have.
pub open spec fn known_key(key: Seq<char>) -> bool {
    key == "jsonrpc"@ || key == "id"@ || key == "method"@ || key == "params"@ || key == "result"@
        || key == "error"@
}

/// Whether a response's error would be read back as it is: an error whose
/// `data` is `null` is read back without `data`.
pub open spec fn survives_writing(message: MessageView) -> bool {
    message matches MessageView::Response(response) ==> (response.outcome matches Err(error)
        ==> error.data != Some(JsonView::Null))
}

proof fn lemma_keys_differ()
    ensures
        "jsonrpc"@.len() == 7 && "jsonrpc"@[0] == 'j',
        "id"@.len() == 2,
        "method"@.len() == 6 && "method"@[0] == 'm',
        "params"@.len() == 6 && "params"@[0] == 'p',
        "result"@.len() == 6 && "result"@[0] == 'r',
        "error"@.len() == 5,
        "code"@.len() == 4 && "code"@[0] == 'c',
        "message"@.len() == 7 && "message"@[0] == 'm',
        "data"@.len() == 4 && "data"@[0] == 'd',
{
    reveal_strlit("jsonrpc");
    reveal_strlit("id");
    reveal_strlit("method");
    reveal_strlit("params");
    reveal_strlit("result");
    reveal_strlit("error");
    reveal_strlit("code");
    reveal_strlit("message");
    reveal_strlit("data");
}

/// An error object that is written and read back is the same error, unless
/// its `data` is `null`.
pub proof fn error_round_trip(error: ResponseErrorView)
    requires
        error.data != Some(JsonView::Null),
    ensures
        error_of(error_document(error)) == Some(error),
{
    lemma_keys_differ();
    let members = error_document(error)->Object_0;
    reveal_with_fuel(lookup, 4);
    assert(members.skip(1)[0] == members[1]);
    assert(members.skip(1).skip(1)[0] == members[2]);
    assert(lookup(members, "code"@) == Some(members[0].1));
    assert(lookup(members, "message"@) == Some(members[1].1));
    assert(lookup(members, "data"@) == Some(members[2].1));
}

/// A message that is written as a document and read back is the same
/// message, whichever of the three kinds it is and whatever its `id` holds.
/// The one exception is a response with an error whose `data` is `null`.
pub proof fn message_round_trip(message: MessageView)
    requires
        survives_writing(message),
    ensures
        message_of(document_of(message)) == Ok::<MessageView, MessageErrorView>(message),
{
    lemma_keys_differ();
    let members = document_of(message)->Object_0;
    reveal_with_fuel(lookup, 5);
    reveal_with_fuel(first_fault, 5);
    assert(members[0] == ("jsonrpc"@, JsonView::Text("2.0"@)));
    assert(members.skip(1)[0] == members[1]);
    assert(members.skip(1).skip(1) =~= members.skip(2));
    match message {
        MessageView::Request(request) => {
            assert(members[1] == ("id"@, request.id));
            assert(members[2] == ("method"@, JsonView::Text(request.method)));
            if request.params is Some {
                assert(members.len() == 4);
                assert(members.skip(2).skip(1) =~= members.skip(3));
                assert(members.skip(3).skip(1) =~= members.skip(4));
                assert(members[3] == ("params"@, request.params.unwrap()));
                assert(members.skip(2)[0] == members[2]);
                assert(members.skip(3)[0] == members[3]);
            } else {
                assert(members.len() == 3);
                assert(members.skip(2).skip(1) =~= members.skip(3));
                assert(members.skip(2)[0] == members[2]);
            }
        },
        MessageView::Notification(notification) => {
            assert(members[1] == ("method"@, JsonView::Text(notification.method)));
            if notification.params is Some {
                assert(members.len() == 3);
                assert(members.skip(2).skip(1) =~= members.skip(3));
                assert(members[2] == ("params"@, notification.params.unwrap()));
                assert(members.skip(2)[0] == members[2]);
            } else {
                assert(members.len() == 2);
            }
        },
        MessageView::Response(response) => {
            assert(members.len() == 3);
            assert(members.skip(2).skip(1) =~= members.skip(3));
            assert(members[1] == ("id"@, response.id));
            assert(members.skip(2)[0] == members[2]);
            match response.outcome {
                Ok(value) => {
                    assert(members[2] == ("result"@, value));
                },
                Err(error) => {
                    assert(members[2] == ("error"@, error_document(error)));
                    error_round_trip(error);
                },
            }
        },
    }
}

/// A document with both `result` and `error` is rejected for holding both,
/// and a document with neither is never read as a response.
pub proof fn response_holds_one_of_result_and_error(doc: JsonView)
    ensures
        doc.member("result"@) is Some && doc.member("error"@) is Some ==> message_of(doc) is Err,
        doc.member("result"@) is Some && doc.member("error"@) is Some && first_fault(
            doc->Object_0,
        ) is None && doc.member("jsonrpc"@) == Some(JsonView::Text("2.0"@)) ==> message_of(doc)
            == Err::<MessageView, MessageErrorView>(MessageErrorView::ResultAndError),
        doc.member("result"@) is None && doc.member("error"@) is None ==> !(message_of(
            doc,
        ) matches Ok(MessageView::Response(_))),
{
}

/// A document with `result` or `error` but without `id` is rejected: a
/// response needs its `id` also where it only reports an error.
pub proof fn response_needs_id(doc: JsonView)
    ensures
        (doc.member("result"@) is Some || doc.member("error"@) is Some) && doc.member("id"@)
            is None ==> message_of(doc) is Err,
        doc.member("error"@) is Some && doc.member("result"@) is None && doc.member("id"@)
            is None && first_fault(doc->Object_0) is None && doc.member("jsonrpc"@) == Some(
            JsonView::Text("2.0"@),
        ) ==> message_of(doc) == Err::<MessageView, MessageErrorView>(
            MessageErrorView::MissingField(Field::Id),
        ),
{
}

proof fn lemma_fault_is_found(members: Seq<(Seq<char>, JsonView)>, i: int)
    requires
        0 <= i < members.len(),
        member_fault(members[i].0, members[i].1) is Some,
    ensures
        first_fault(members) is Some,
    decreases i,
{
    if i > 0 && member_fault(members[0].0, members[0].1) is None {
        assert(members.skip(1)[i - 1] == members[i]);
        lemma_fault_is_found(members.skip(1), i - 1);
    }
}

/// A document with a member that no message has is rejected.
pub proof fn unknown_field_is_rejected(doc: JsonView, i: int)
    requires
        doc is Object,
        0 <= i < doc->Object_0.len(),
        !known_key(doc->Object_0[i].0),
    ensures
        message_of(doc) is Err,
{
    lemma_fault_is_found(doc->Object_0, i);
}

/// Why a payload is no message: its text is no JSON document, or the
/// document is no message.
#[derive(Debug)]
pub enum PayloadError {
    Document(JsonError),
    Message(MessageError),
}

/// Why no message could be taken from the stream.
#[derive(Debug)]
pub enum ProtocolError {
    /// The stream failed; the text says how.
    Io(String),
    /// The header block is malformed.
    HTTP(httparse::Error),
    /// The header block names no length.
    MissingContentLength,
    /// The length header holds no number.
    InvalidContentLength,
    /// The payload is no message.
    InvalidJson(PayloadError),
}

impl MessageErrorView {
    /// The fault in words.
    pub open spec fn words(self) -> Seq<char> {
        match self {
            MessageErrorView::NotAnObject => "invalid type: expected a message object"@,
            MessageErrorView::UnknownField(key) => "unknown field `"@ + key
                + "`, expected one of `jsonrpc`, `id`, `method`, `params`, `result`, `error`"@,
            MessageErrorView::InvalidField(field) => "invalid type for field `"@ + field.key()
                + "`"@,
            MessageErrorView::MissingField(field) => "missing field `"@ + field.key() + "`"@,
            MessageErrorView::BadVersion => "invalid value: JSON-RPC protocol version, expected 2.0"@,
            MessageErrorView::ResultAndError => "expected exactly one of result or error"@,
        }
    }
}

impl MessageError {
    /// The fault in words.
    pub fn text(&self) -> (r: String)
        ensures
            r@ == self@.words(),
    {
        match self {
            MessageError::NotAnObject => "invalid type: expected a message object".to_owned(),
            MessageError::UnknownField(key) => {
                let head = joined("unknown field `", key.as_str());
                joined(
                    head.as_str(),
                    "`, expected one of `jsonrpc`, `id`, `method`, `params`, `result`, `error`",
                )
            },
            MessageError::InvalidField(field) => {
                let head = joined("invalid type for field `", field.name());
                joined(head.as_str(), "`")
            },
            MessageError::MissingField(field) => {
                let head = joined("missing field `", field.name());
                joined(head.as_str(), "`")
            },
            MessageError::BadVersion => "invalid value: JSON-RPC protocol version, expected 2.0".to_owned(),
            MessageError::ResultAndError => "expected exactly one of result or error".to_owned(),
        }
    }
}

impl Field {
    /// The key of the field in a document.
    pub fn name(&self) -> (r: &'static str)
        ensures
            r@ == self.key(),
    {
        match self {
            Field::Jsonrpc => "jsonrpc",
            Field::Id => "id",
            Field::Method => "method",
            Field::Params => "params",
            Field::Result => "result",
            Field::Error => "error",
        }
    }

    /// The key of the field in a document.
    pub open spec fn key(self) -> Seq<char> {
        match self {
            Field::Jsonrpc => "jsonrpc"@,
            Field::Id => "id"@,
            Field::Method => "method"@,
            Field::Params => "params"@,
            Field::Result => "result"@,
            Field::Error => "error"@,
        }
    }
}

impl PayloadError {
    /// The fault in words: what `serde_json` says of a rejected text, or
    /// what is wrong with the message.
    pub open spec fn words(self) -> Seq<char> {
        match self {
            PayloadError::Document(JsonError::Syntax(error)) => syntax_fault_words(error),
            PayloadError::Document(JsonError::TooDeep) => "recursion limit exceeded"@,
            PayloadError::Message(fault) => fault@.words(),
        }
    }

    /// The fault in words.
    pub fn text(&self) -> (r: String)
        ensures
            r@ == self.words(),
    {
        match self {
            PayloadError::Document(JsonError::Syntax(error)) => syntax_error_text(error),
            PayloadError::Document(JsonError::TooDeep) => "recursion limit exceeded".to_owned(),
            PayloadError::Message(fault) => fault.text(),
        }
    }
}

impl ProtocolError {
    /// The code under which the failure is reported to the peer; a failure
    /// of the stream itself is not reported.
    pub open spec fn peer_code(self) -> Option<i64> {
        match self {
            ProtocolError::Io(_) => None,
            ProtocolError::HTTP(_) => Some(-32700i64),
            ProtocolError::MissingContentLength => Some(-32700i64),
            ProtocolError::InvalidContentLength => Some(-32700i64),
            ProtocolError::InvalidJson(_) => Some(-32600i64),
        }
    }

    /// The code under which the failure is reported to the peer.
    pub fn code(&self) -> (r: Option<i64>)
        ensures
            r == self.peer_code(),
    {
        match self {
            ProtocolError::Io(_) => None,
            ProtocolError::HTTP(_) => Some(-32700),
            ProtocolError::MissingContentLength => Some(-32700),
            ProtocolError::InvalidContentLength => Some(-32700),
            ProtocolError::InvalidJson(_) => Some(-32600),
        }
    }

    /// The failure in words: what kind it is and, where there is one, the
    /// cause underneath.
    pub open spec fn words(self) -> Seq<char> {
        match self {
            ProtocolError::Io(cause) => "I/O error: "@ + cause@,
            ProtocolError::HTTP(error) => "Could not parse HTTP: "@ + header_fault_words(error),
            ProtocolError::MissingContentLength => "Missing Content-Length header"@,
            ProtocolError::InvalidContentLength => "Content-Length was not a number"@,
            ProtocolError::InvalidJson(fault) => "Invalid JSON: "@ + fault.words(),
        }
    }

    /// The kind of fault in the header block, where the failure is one.
    pub fn header_fault(&self) -> (r: Option<HeaderFault>)
        ensures
            r == match *self {
                ProtocolError::HTTP(error) => Some(header_fault_of(error)),
                _ => None,
            },
    {
        match self {
            ProtocolError::HTTP(error) => Some(header_fault_kind(error)),
            _ => None,
        }
    }

    /// The failure in words.
    pub fn message(&self) -> (r: String)
        ensures
            r@ == self.words(),
    {
        match self {
            ProtocolError::Io(cause) => joined("I/O error: ", cause.as_str()),
            ProtocolError::HTTP(error) => {
                let cause = header_error_text(error);
                joined("Could not parse HTTP: ", cause.as_str())
            },
            ProtocolError::MissingContentLength => "Missing Content-Length header".to_owned(),
            ProtocolError::InvalidContentLength => "Content-Length was not a number".to_owned(),
            ProtocolError::InvalidJson(fault) => {
                let cause = fault.text();
                joined("Invalid JSON: ", cause.as_str())
            },
        }
    }
}

/// What stands at the front of the bytes that were received and not yet
/// taken.
pub enum FrameView {
    /// Nothing was received.
    Empty,
    /// The header block does not end yet.
    Partial,
    /// The header block is malformed.
    Malformed(httparse::Error),
    /// The header block names no length.
    MissingLength,
    /// The length header holds no number.
    InvalidLength,
    /// The payload is `missing` bytes short.
    Short { missing: nat },
    /// A whole frame: `header_len` bytes of header, then the payload.
    Whole { header_len: nat, payload: Seq<u8> },
}

/// Where a frame ends whose header block takes `header_len` of the
/// `buffered` bytes and whose payload is `length` bytes long, or, where the
/// payload is not all there yet, how many bytes of it are missing.
pub open spec fn frame_end(buffered: int, header_len: int, length: int) -> Result<int, int> {
    let waiting = if header_len <= buffered {
        buffered - header_len
    } else {
        0
    };
    if waiting < length {
        Err(length - waiting)
    } else {
        Ok(header_len + length)
    }
}

/// Finds where a frame ends, or how many bytes of its payload are missing.
pub fn locate_frame_end(buffered: usize, header_len: usize, length: usize) -> (r: Result<
    usize,
    usize,
>)
    ensures
        r matches Ok(end) ==> frame_end(buffered as int, header_len as int, length as int) == Ok::<
            int,
            int,
        >(end as int),
        r matches Err(missing) ==> frame_end(buffered as int, header_len as int, length as int)
            == Err::<int, int>(missing as int),
{
    let waiting = if header_len <= buffered {
        buffered - header_len
    } else {
        0
    };
    if waiting < length {
        Err(length - waiting)
    } else {
        Ok(header_len + length)
    }
}

/// The frame at the front of `buffer`.
///
/// The header block may have up to [`MAX_HEADERS`] lines and must have one
/// named `Content-Length`, which gives the payload's length in bytes.
pub open spec fn frame_at(buffer: Seq<u8>) -> FrameView {
    if buffer.len() == 0 {
        FrameView::Empty
    } else {
        match header_block(buffer, MAX_HEADERS) {
            HeaderBlock::Malformed(error) => FrameView::Malformed(error),
            HeaderBlock::Partial => FrameView::Partial,
            HeaderBlock::Complete(n, headers) => match content_length_value(headers) {
                None => FrameView::MissingLength,
                Some(value) => match leading_number(value) {
                    None => FrameView::InvalidLength,
                    Some(length) => match frame_end(buffer.len() as int, n as int, length as int) {
                        Err(missing) => FrameView::Short { missing: missing as nat },
                        Ok(end) => FrameView::Whole {
                            header_len: n as nat,
                            payload: buffer.subrange(n as int, end),
                        },
                    },
                },
            },
        }
    }
}

/// The bytes that are left once the frame at the front was looked at: all of
/// them unless a whole frame stood there, and what follows that frame if one
/// did.
pub open spec fn left_after(buffer: Seq<u8>) -> Seq<u8> {
    match frame_at(buffer) {
        FrameView::Whole { header_len, payload } => buffer.skip((header_len + payload.len()) as int),
        _ => buffer,
    }
}

/// The message that a payload holds: the message of the JSON document that
/// its text holds, where it holds one.
pub open spec fn payload_message(payload: Seq<u8>) -> Option<MessageView> {
    match parsed(payload, MAX_DEPTH as nat) {
        Some(doc) => match message_of(doc) {
            Ok(message) => Some(message),
            Err(_) => None,
        },
        None => None,
    }
}

/// The frame around a payload: the length header, an empty line, the
/// payload.
pub open spec fn frame_of(payload: Seq<u8>) -> Seq<u8> {
    length_header() + decimal(payload.len()) + seq![13u8, 10u8, 13u8, 10u8] + payload
}

/// The bytes of `Content-Length: `.
pub open spec fn length_header() -> Seq<u8> {
    seq![
        67u8, 111u8, 110u8, 116u8, 101u8, 110u8, 116u8, 45u8, 76u8, 101u8, 110u8, 103u8, 116u8,
        104u8, 58u8, 32u8,
    ]
}

/// Why [`LspTransport::decode`] has no message yet.
#[derive(Debug, Clone, Copy, PartialEq, Eq, Structural)]
pub enum Starved {
    /// No byte is waiting: at the end of the stream this is its clean end.
    Empty,
    /// The header block is incomplete.
    Headers,
    /// The payload is incomplete; so many bytes are missing.
    Payload(usize),
}

/// What it means that the stream has ended while the codec was starved.
#[derive(Debug, Clone, Copy, PartialEq, Eq, Structural)]
pub enum StreamEnd {
    /// The stream ended between two frames: the session ends in good order.
    Clean,
    /// The stream ended inside a header block: the reader goes on waiting
    /// for the rest of it.
    Pending,
    /// The stream ended inside a payload: the stream has failed.
    Truncated,
}

impl Starved {
    /// What the end of the stream means for a codec that is starved in
    /// this way.
    pub open spec fn at_end(self) -> StreamEnd {
        match self {
            Starved::Empty => StreamEnd::Clean,
            Starved::Headers => StreamEnd::Pending,
            Starved::Payload(_) => StreamEnd::Truncated,
        }
    }

    /// Decides what to make of the end of the stream.
    pub fn at_end_of_stream(&self) -> (r: StreamEnd)
        ensures
            r == self.at_end(),
    {
        match self {
            Starved::Empty => StreamEnd::Clean,
            Starved::Headers => StreamEnd::Pending,
            Starved::Payload(_) => StreamEnd::Truncated,
        }
    }
}

/// What [`LspTransport::decode`] found.
#[derive(Debug, PartialEq, Eq)]
pub enum Decoded {
    /// The next message, taken from the buffer.
    Message(Message),
    /// More bytes are needed first.
    Starved(Starved),
}

/// The codec between the byte stream and the messages: it holds the bytes
/// that were received and not yet taken as frames.
pub struct LspTransport {
    buffer: Vec<u8>,
}

impl View for LspTransport {
    type V = Seq<u8>;

    closed spec fn view(&self) -> Seq<u8> {
        self.buffer@
    }
}

fn read_payload(payload: &[u8]) -> (r: Result<Message, PayloadError>)
    ensures
        r matches Ok(message) ==> payload_message(payload@) == Some(message@),
        r is Err ==> payload_message(payload@) is None,
        r matches Err(PayloadError::Message(fault)) ==> parsed(payload@, MAX_DEPTH as nat)
            matches Some(doc) && message_of(doc) == Err::<MessageView, MessageErrorView>(fault@),
        r matches Err(PayloadError::Document(_)) ==> parsed(payload@, MAX_DEPTH as nat) is None,
{
    match Json::parse(payload) {
        Err(fault) => Err(PayloadError::Document(fault)),
        Ok(doc) => match Message::deserialize(&doc) {
            Ok(message) => Ok(message),
            Err(fault) => Err(PayloadError::Message(fault)),
        },
    }
}

impl LspTransport {
    /// A codec that has received nothing.
    pub fn new() -> (r: LspTransport)
        ensures
            r@ == Seq::<u8>::empty(),
    {
        LspTransport { buffer: Vec::new() }
    }

    /// Takes in bytes that were read from the stream.
    pub fn feed(&mut self, bytes: &[u8])
        ensures
            final(self)@ == old(self)@ + bytes@,
    {
        self.buffer.extend_from_slice(bytes);
    }

    /// How many bytes wait to be taken.
    pub fn buffered(&self) -> (r: usize)
        ensures
            r == self@.len(),
    {
        self.buffer.len()
    }

    /// Takes the next message from the bytes received.
    ///
    /// Where no whole frame is waiting, or its header block is malformed or
    /// names no usable length, nothing is taken: the same bytes will be
    /// looked at again. Where a whole frame is waiting, it is taken, whether
    /// or not its payload is a message.
    pub fn decode(&mut self) -> (r: Result<Decoded, ProtocolError>)
        ensures
            final(self)@ == left_after(old(self)@),
            frame_at(old(self)@) is Empty ==> r matches Ok(Decoded::Starved(Starved::Empty)),
            frame_at(old(self)@) is Partial ==> r matches Ok(Decoded::Starved(Starved::Headers)),
            frame_at(old(self)@) matches FrameView::Short { missing } ==> (r matches Ok(
                Decoded::Starved(Starved::Payload(m)),
            ) && m == missing),
            frame_at(old(self)@) matches FrameView::Malformed(error) ==> (r matches Err(
                ProtocolError::HTTP(e),
            ) && e == error),
            frame_at(old(self)@) is MissingLength ==> r matches Err(
                ProtocolError::MissingContentLength,
            ),
            frame_at(old(self)@) is InvalidLength ==> r matches Err(
                ProtocolError::InvalidContentLength,
            ),
            frame_at(old(self)@) matches FrameView::Whole { header_len, payload }
                ==> match payload_message(payload) {
                Some(message) => (r matches Ok(Decoded::Message(m)) && m@ == message),
                None => (r matches Err(ProtocolError::InvalidJson(_))),
            },
            r matches Err(ProtocolError::InvalidJson(PayloadError::Document(_))) ==> (frame_at(
                old(self)@,
            ) matches FrameView::Whole { header_len, payload } && parsed(payload, MAX_DEPTH as nat)
                is None),
            r matches Err(ProtocolError::InvalidJson(PayloadError::Message(fault))) ==> (frame_at(
                old(self)@,
            ) matches FrameView::Whole { header_len, payload } && (parsed(
                payload,
                MAX_DEPTH as nat,
            ) matches Some(doc) && message_of(doc) == Err::<MessageView, MessageErrorView>(fault@))),
    {
        if self.buffer.len() == 0 {
            return Ok(Decoded::Starved(Starved::Empty));
        }
        let (header_len, headers) = match read_header_block(self.buffer.as_slice(), MAX_HEADERS) {
            Err(error) => {
                return Err(ProtocolError::HTTP(error));
            },
            Ok(None) => {
                return Ok(Decoded::Starved(Starved::Headers));
            },
            Ok(Some(block)) => block,
        };
        let length = match find_content_length(&headers) {
            None => {
                return Err(ProtocolError::MissingContentLength);
            },
            Some(i) => match read_leading_number(headers[i].value.as_slice()) {
                None => {
                    return Err(ProtocolError::InvalidContentLength);
                },
                Some(length) => length,
            },
        };
        let end = match locate_frame_end(self.buffer.len(), header_len, length) {
            Err(missing) => {
                return Ok(Decoded::Starved(Starved::Payload(missing)));
            },
            Ok(end) => end,
        };
        let rest = self.buffer.split_off(end);
        let payload = self.buffer.split_off(header_len);
        self.buffer = rest;
        assert(payload@ =~= old(self)@.subrange(header_len as int, end as int));
        assert(self@ =~= old(self)@.skip(end as int));
        match read_payload(payload.as_slice()) {
            Ok(message) => Ok(Decoded::Message(message)),
            Err(fault) => Err(ProtocolError::InvalidJson(fault)),
        }
    }

    /// The frame that carries `message`.
    pub fn encode(&self, message: &Message) -> (r: Vec<u8>)
        ensures
            r@ == frame_of(text_of(document_of(message@))),
    {
        let payload = message.serialize().to_text();
        let mut out: Vec<u8> = vec![
            67u8, 111u8, 110u8, 116u8, 101u8, 110u8, 116u8, 45u8, 76u8, 101u8, 110u8, 103u8, 116u8,
            104u8, 58u8, 32u8,
        ];
        assert(out@ =~= length_header());
        write_decimal(payload.len() as u64, &mut out);
        out.push(13);
        out.push(10);
        out.push(13);
        out.push(10);
        out.extend_from_slice(payload.as_slice());
        assert(out@ =~= frame_of(payload@));
        out
    }
}

/// A frame whose header block is malformed, or names no usable length, is
/// not taken: the bytes stay as they are, and looking at them again finds
/// the same fault.
pub proof fn header_fault_stalls(buffer: Seq<u8>)
    requires
        frame_at(buffer) is Malformed || frame_at(buffer) is MissingLength || frame_at(buffer)
            is InvalidLength,
    ensures
        left_after(buffer) == buffer,
        frame_at(left_after(buffer)) == frame_at(buffer),
{
}

/// A whole frame is taken even where its payload is no message: what is
/// left is exactly what followed the frame, so the frame behind it is looked
/// at next.
pub proof fn payload_fault_passes(buffer: Seq<u8>, rest: Seq<u8>)
    requires
        frame_at(buffer + rest) matches FrameView::Whole { header_len, payload } && header_len
            + payload.len() == buffer.len(),
    ensures
        left_after(buffer + rest) == rest,
{
    assert((buffer + rest).skip(buffer.len() as int) =~= rest);
}

/// Whether `httparse` reads the header block of the frame around `payload`
/// as it was written: one line, named `Content-Length`, that holds the
/// digits of the payload's length, in a block that ends where the payload
/// begins.
pub open spec fn header_is_read_back(payload: Seq<u8>) -> bool {
    header_block(frame_of(payload), MAX_HEADERS) matches HeaderBlock::Complete(n, lines) && n
        == length_header().len() + decimal(payload.len()).len() + 4 && lines == seq![
        ("Content-Length"@, decimal(payload.len())),
    ]
}

/// Whether `serde_json` reads a document back from the text that it was
/// written as.
pub open spec fn document_is_read_back(doc: JsonView) -> bool {
    parsed(text_of(doc), MAX_DEPTH as nat) == Some(doc)
}

/// A message that is encoded and decoded is the same message, and nothing
/// is left behind it, wherever the two outside readers read back what was
/// written: `httparse` the header block and `serde_json` the document.
/// What happens in between, from the length in the header to the message
/// in the document, is proved here.
pub proof fn encoded_message_is_decoded(message: MessageView)
    requires
        survives_writing(message),
        text_of(document_of(message)).len() <= usize::MAX,
    ensures
        ({
            let payload = text_of(document_of(message));
            let frame = frame_of(payload);
            header_is_read_back(payload) && document_is_read_back(document_of(message)) ==> {
                &&& frame_at(frame) matches FrameView::Whole { header_len, payload: taken }
                &&& taken == payload
                &&& payload_message(payload) == Some(message)
                &&& left_after(frame) == Seq::<u8>::empty()
                &&& frame_at(left_after(frame)) is Empty
            }
        }),
{
    let payload = text_of(document_of(message));
    let frame = frame_of(payload);
    if header_is_read_back(payload) && document_is_read_back(document_of(message)) {
        let n = header_block(frame, MAX_HEADERS)->Complete_0;
        let lines = header_block(frame, MAX_HEADERS)->Complete_1;
        written_length_is_read(payload.len() as usize);
        message_round_trip(message);
        assert(content_length_value(lines) == Some(decimal(payload.len())));
        assert(frame.len() == n + payload.len());
        assert(frame.subrange(n as int, n + payload.len()) =~= payload);
        assert(frame.skip((n + payload.len()) as int) =~= Seq::<u8>::empty());
    }
}

} // verus!
