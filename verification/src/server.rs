//! The session: what the endpoint does with each message that arrives.
//!
//! The session reads nothing and writes nothing itself. It is given what the
//! transport decoded and answers with the effects that its caller is to
//! carry out, in order: messages to send, calls to the renderer, changes to
//! the scheduler, and the end of the session.

use crate::headers::{header_fault_of, header_fault_words, HeaderFault};
use crate::json::{
    joined, parsed, same_text, text_of, Json, JsonNumber, JsonView, Member, NumberView, MAX_DEPTH,
};
use crate::params::{
    changed_document, changed_settings, executed_command, opened_document, read_changed_document,
    read_changed_settings, read_executed_command, read_opened_document,
};
use crate::protocol::{
    frame_at, left_after, optional_value, FrameView, Message, MessageView, Notification,
    NotificationView, ProtocolError, Request, RequestView, Response, ResponseError,
    ResponseErrorView, ResponseView,
};
use crate::scheduler::{reconcile, reconciled, SchedulerOp};
use crate::settings::{
    command_value, optional_command_value, settings_of, texts_value, Command, CommandView,
    Settings, SettingsView,
};
use vstd::prelude::*;

verus! {

/// The one command that the endpoint executes.
pub const OPEN_PREVIEW_COMMAND: &'static str = "Open Preview";

/// The name under which the endpoint introduces itself.
pub const SERVER_NAME: &'static str = "mdpls";

/// The version under which the endpoint introduces itself.
pub const SERVER_VERSION: &'static str = "0.1.0";

/// A breach of the protocol that the session does not recover from.
#[derive(Debug, Clone, Copy, PartialEq, Eq, Structural)]
pub enum Defect {
    /// A response arrived, though the endpoint sends no requests.
    UnexpectedResponse,
    /// The parameters of a call are not what the call takes.
    InvalidParams,
    /// A change of a document does not carry exactly one full text.
    NotOneChange,
}

/// One thing that the session asks its caller to do.
#[derive(Debug, PartialEq, Eq)]
pub enum Effect {
    /// Send the message to the peer.
    Send(Message),
    /// Open the preview, with `browser` if there is one and the default
    /// browser if not. Where `answer` holds the `id` of a request, report
    /// how it went with [`Server::preview_opened`]; where it holds none, a
    /// failure is only logged.
    OpenPreview { browser: Option<Command>, answer: Option<Json> },
    /// Start, reconfigure or stop the worker that defers updates.
    Schedule(SchedulerOp),
    /// Style code blocks with this theme.
    SetTheme(String),
    /// Serve the files of the working directory.
    ServeStatic,
    /// Render with this program.
    SetRenderer(Command),
    /// Render this document body now.
    Render(String),
    /// Put this document body into the pending slot and wake the worker.
    Defer(String),
    /// End the session in good order.
    Exit,
    /// End the session with the failure of the stream that is described.
    Fail(String),
    /// Give up: the peer broke the protocol.
    Abort(Defect),
}

/// The mathematical value of an [`Effect`].
pub enum EffectView {
    Send(MessageView),
    OpenPreview { browser: Option<CommandView>, answer: Option<JsonView> },
    Schedule(SchedulerOp),
    SetTheme(Seq<char>),
    ServeStatic,
    SetRenderer(CommandView),
    Render(Seq<char>),
    Defer(Seq<char>),
    Exit,
    Fail(Seq<char>),
    Abort(Defect),
}

impl View for Effect {
    type V = EffectView;

    open spec fn view(&self) -> EffectView {
        match self {
            Effect::Send(message) => EffectView::Send(message@),
            Effect::OpenPreview { browser, answer } => EffectView::OpenPreview {
                browser: optional_command_value(*browser),
                answer: match answer {
                    Some(id) => Some(id@),
                    None => None,
                },
            },
            Effect::Schedule(op) => EffectView::Schedule(*op),
            Effect::SetTheme(theme) => EffectView::SetTheme(theme@),
            Effect::ServeStatic => EffectView::ServeStatic,
            Effect::SetRenderer(command) => EffectView::SetRenderer(command_value(*command)),
            Effect::Render(body) => EffectView::Render(body@),
            Effect::Defer(body) => EffectView::Defer(body@),
            Effect::Exit => EffectView::Exit,
            Effect::Fail(cause) => EffectView::Fail(cause@),
            Effect::Abort(defect) => EffectView::Abort(*defect),
        }
    }
}

/// The values of a list of effects.
pub open spec fn effects_value(effects: Seq<Effect>) -> Seq<EffectView> {
    effects.map_values(|e: Effect| e@)
}

/// The state of a session.
#[derive(Debug, Clone, PartialEq, Eq)]
pub struct Server {
    /// The options now in effect.
    pub settings: Settings,
    /// Whether the peer has asked to shut down.
    pub shutdown: bool,
    /// Whether the session runs under test: the preview is then never
    /// opened.
    pub test: bool,
}

/// The mathematical value of a [`Server`].
pub struct ServerView {
    pub settings: SettingsView,
    pub shutdown: bool,
    pub test: bool,
}

impl View for Server {
    type V = ServerView;

    open spec fn view(&self) -> ServerView {
        ServerView { settings: self.settings@, shutdown: self.shutdown, test: self.test }
    }
}

/// What the endpoint answers to capability negotiation: documents are
/// synchronised by their full text, the one command is "Open Preview", and
/// the endpoint's name and version.
pub open spec fn capabilities_document() -> JsonView {
    JsonView::Object(
        seq![
            (
                "capabilities"@,
                JsonView::Object(
                    seq![
                        (
                            "textDocumentSync"@,
                            JsonView::Object(
                                seq![
                                    ("openClose"@, JsonView::Bool(true)),
                                    ("change"@, JsonView::Number(NumberView::Int(1))),
                                ],
                            ),
                        ),
                        (
                            "executeCommandProvider"@,
                            JsonView::Object(
                                seq![
                                    (
                                        "commands"@,
                                        JsonView::Array(seq![JsonView::Text(OPEN_PREVIEW_COMMAND@)]),
                                    ),
                                ],
                            ),
                        ),
                    ],
                ),
            ),
            (
                "serverInfo"@,
                JsonView::Object(
                    seq![
                        ("name"@, JsonView::Text(SERVER_NAME@)),
                        ("version"@, JsonView::Text(SERVER_VERSION@)),
                    ],
                ),
            ),
        ],
    )
}

/// The text of the parameters of a call; absent parameters read as `null`.
pub open spec fn params_text(params: Option<JsonView>) -> Seq<u8> {
    match params {
        Some(params) => text_of(params),
        None => text_of(JsonView::Null),
    }
}

/// The effect of answering a request with an empty result.
pub open spec fn done(id: JsonView) -> EffectView {
    EffectView::Send(MessageView::Response(ResponseView { id, outcome: Ok(JsonView::Null) }))
}

/// The state after a request and the effects that it has.
///
/// Capability negotiation is answered with the capabilities. Executing
/// "Open Preview" opens the preview, unless the session runs under test;
/// any other command does nothing. A shutdown is noted. Every other
/// request, known or not, is answered with an empty result.
pub open spec fn request_effects(server: ServerView, request: RequestView) -> (
    ServerView,
    Seq<EffectView>,
) {
    if request.method == "initialize"@ {
        (
            server,
            seq![
                EffectView::Send(
                    MessageView::Response(
                        ResponseView { id: request.id, outcome: Ok(capabilities_document()) },
                    ),
                ),
            ],
        )
    } else if request.method == "workspace/executeCommand"@ {
        match executed_command(params_text(request.params)) {
            None => (server, seq![EffectView::Abort(Defect::InvalidParams)]),
            Some(command) => if command == OPEN_PREVIEW_COMMAND@ && !server.test {
                (
                    server,
                    seq![
                        EffectView::OpenPreview {
                            browser: server.settings.browser,
                            answer: Some(request.id),
                        },
                    ],
                )
            } else {
                (server, seq![done(request.id)])
            },
        }
    } else if request.method == "shutdown"@ {
        (ServerView { shutdown: true, ..server }, seq![done(request.id)])
    } else {
        (server, seq![done(request.id)])
    }
}

/// The new body of a changed document: the text of its one change. A
/// change that carries no text, or more than one, breaks the protocol,
/// which synchronises documents by their full text only.
pub open spec fn whole_text(texts: Seq<Seq<char>>) -> Result<Seq<char>, Defect> {
    if texts.len() == 1 {
        Ok(texts[0])
    } else {
        Err(Defect::NotOneChange)
    }
}

/// Takes the new body of a changed document out of the texts of its
/// changes: there must be exactly one.
pub fn take_whole_text(texts: Vec<String>) -> (r: Result<String, Defect>)
    ensures
        r matches Ok(body) ==> whole_text(texts_value(texts@)) == Ok::<Seq<char>, Defect>(body@),
        r matches Err(defect) ==> whole_text(texts_value(texts@)) == Err::<Seq<char>, Defect>(
            defect,
        ),
{
    let mut texts = texts;
    if texts.len() == 1 {
        Ok(texts.remove(0))
    } else {
        Err(Defect::NotOneChange)
    }
}

/// The effect of a new document body: rendered at once where no update is
/// deferred, handed to the worker where updates are.
pub open spec fn body_effect(server: ServerView, body: Seq<char>) -> EffectView {
    if server.settings.defer_updates is Some {
        EffectView::Defer(body)
    } else {
        EffectView::Render(body)
    }
}

/// The effects of new options, in order: the scheduler is brought in line
/// where the delays changed, the preview is opened where `auto` was turned
/// on, the theme is set, files are served where asked for, and the renderer
/// is set where one is named.
pub open spec fn settings_effects(server: ServerView, fresh: SettingsView) -> Seq<EffectView> {
    (if server.settings.defer_updates != fresh.defer_updates {
        seq![
            EffectView::Schedule(
                reconciled(server.settings.defer_updates is Some, fresh.defer_updates),
            ),
        ]
    } else {
        Seq::empty()
    }) + (if fresh.auto && !server.settings.auto && !server.test {
        seq![EffectView::OpenPreview { browser: fresh.browser, answer: None }]
    } else {
        Seq::empty()
    }) + seq![EffectView::SetTheme(fresh.theme)] + (if fresh.serve_static {
        seq![EffectView::ServeStatic]
    } else {
        Seq::empty()
    }) + (match fresh.renderer {
        Some(command) => seq![EffectView::SetRenderer(command)],
        None => Seq::empty(),
    })
}

/// The options that the parameters of a configuration change set, where
/// they set any.
pub open spec fn fresh_settings(settings_text: Seq<u8>) -> Option<SettingsView> {
    match parsed(settings_text, MAX_DEPTH as nat) {
        Some(doc) => match settings_of(doc) {
            Ok(fresh) => Some(fresh),
            Err(_) => None,
        },
        None => None,
    }
}

/// The state after a notification and the effects that it has.
///
/// A configuration change replaces the options as a whole, unless the
/// configuration is rejected, which leaves everything as it is. An opened
/// or changed document gives a new body; a change must carry exactly one
/// full text, and parameters that are too long to be read are invalid. `exit` ends the session. Every other notification is ignored.
pub open spec fn notification_effects(server: ServerView, notification: NotificationView) -> (
    ServerView,
    Seq<EffectView>,
) {
    let params = params_text(notification.params);
    if notification.method == "exit"@ {
        (server, seq![EffectView::Exit])
    } else if notification.method == "workspace/didChangeConfiguration"@ {
        match changed_settings(params) {
            None => (server, seq![EffectView::Abort(Defect::InvalidParams)]),
            Some(text) => match fresh_settings(text) {
                None => (server, Seq::empty()),
                Some(fresh) => (
                    ServerView { settings: fresh, ..server },
                    settings_effects(server, fresh),
                ),
            },
        }
    } else if notification.method == "textDocument/didOpen"@ {
        match opened_document(params) {
            None => (server, seq![EffectView::Abort(Defect::InvalidParams)]),
            Some(body) => (server, seq![body_effect(server, body)]),
        }
    } else if notification.method == "textDocument/didChange"@ {
        match changed_document(params) {
            None => (server, seq![EffectView::Abort(Defect::InvalidParams)]),
            Some(texts) => match whole_text(texts) {
                Ok(body) => (server, seq![body_effect(server, body)]),
                Err(defect) => (server, seq![EffectView::Abort(defect)]),
            },
        }
    } else {
        (server, Seq::empty())
    }
}

fn copy_texts(texts: &Vec<String>) -> (r: Vec<String>)
    ensures
        texts_value(r@) == texts_value(texts@),
{
    let mut out: Vec<String> = Vec::new();
    let mut k: usize = 0;
    while k < texts.len()
        invariant
            k <= texts.len(),
            texts_value(out@) == texts_value(texts@).take(k as int),
        decreases texts.len() - k,
    {
        let ghost before = texts_value(out@);
        out.push(texts[k].clone());
        assert(texts_value(out@) =~= before.push(texts[k as int]@));
        assert(texts_value(texts@).take(k + 1) =~= texts_value(texts@).take(k as int).push(
            texts[k as int]@,
        ));
        k += 1;
    }
    assert(texts_value(texts@).take(k as int) =~= texts_value(texts@));
    out
}

fn copy_command(command: &Command) -> (r: Command)
    ensures
        command_value(r) == command_value(*command),
{
    (command.0.clone(), copy_texts(&command.1))
}

fn copy_optional_command(command: &Option<Command>) -> (r: Option<Command>)
    ensures
        optional_command_value(r) == optional_command_value(*command),
{
    match command {
        Some(command) => Some(copy_command(command)),
        None => None,
    }
}

fn params_bytes(params: &Option<Json>) -> (r: Vec<u8>)
    ensures
        r@ == params_text(optional_value(*params)),
{
    match params {
        Some(params) => params.to_text(),
        None => Json::Null.to_text(),
    }
}

fn done_effect(id: Json) -> (r: Effect)
    ensures
        r@ == done(id@),
{
    Effect::Send(Message::Response(Response { id, outcome: Ok(Json::Null) }))
}

fn one(effect: Effect) -> (r: Vec<Effect>)
    ensures
        effects_value(r@) == seq![effect@],
{
    let mut effects: Vec<Effect> = Vec::new();
    effects.push(effect);
    assert(effects_value(effects@) =~= seq![effect@]);
    effects
}

fn none() -> (r: Vec<Effect>)
    ensures
        effects_value(r@) == Seq::<EffectView>::empty(),
{
    let effects: Vec<Effect> = Vec::new();
    assert(effects_value(effects@) =~= Seq::<EffectView>::empty());
    effects
}

/// The document that answers capability negotiation.
pub fn capabilities() -> (r: Json)
    ensures
        r@ == capabilities_document(),
{
    let mut sync: Vec<Member> = Vec::new();
    sync.push(Member::new("openClose", Json::Bool(true)));
    sync.push(Member::new("change", Json::Number(JsonNumber::Int(1))));
    let sync = Json::object(sync);
    assert(sync@->Object_0 =~= seq![
        ("openClose"@, JsonView::Bool(true)),
        ("change"@, JsonView::Number(NumberView::Int(1))),
    ]);
    let mut names: Vec<Json> = Vec::new();
    names.push(Json::text(OPEN_PREVIEW_COMMAND));
    let names = Json::array(names);
    assert(names@->Array_0 =~= seq![JsonView::Text(OPEN_PREVIEW_COMMAND@)]);
    let mut commands: Vec<Member> = Vec::new();
    commands.push(Member::new("commands", names));
    let commands = Json::object(commands);
    assert(commands@->Object_0 =~= seq![("commands"@, names@)]);
    let mut provided: Vec<Member> = Vec::new();
    provided.push(Member::new("textDocumentSync", sync));
    provided.push(Member::new("executeCommandProvider", commands));
    let provided = Json::object(provided);
    assert(provided@->Object_0 =~= seq![
        ("textDocumentSync"@, sync@),
        ("executeCommandProvider"@, commands@),
    ]);
    let mut info: Vec<Member> = Vec::new();
    info.push(Member::new("name", Json::text(SERVER_NAME)));
    info.push(Member::new("version", Json::text(SERVER_VERSION)));
    let info = Json::object(info);
    assert(info@->Object_0 =~= seq![
        ("name"@, JsonView::Text(SERVER_NAME@)),
        ("version"@, JsonView::Text(SERVER_VERSION@)),
    ]);
    let mut all: Vec<Member> = Vec::new();
    all.push(Member::new("capabilities", provided));
    all.push(Member::new("serverInfo", info));
    let all = Json::object(all);
    assert(all@->Object_0 =~= seq![("capabilities"@, provided@), ("serverInfo"@, info@)]);
    all
}

fn same_delays(a: &Option<(u64, u64)>, b: &Option<(u64, u64)>) -> (r: bool)
    ensures
        r == (*a == *b),
{
    match (a, b) {
        (None, None) => true,
        (Some(x), Some(y)) => x.0 == y.0 && x.1 == y.1,
        _ => false,
    }
}

/// The options of a session that has heard no configuration yet: the
/// defaults, but with `auto` off, so that the first configuration that
/// turns it on opens the preview.
pub open spec fn initial_settings() -> SettingsView {
    SettingsView { auto: false, ..crate::settings::default_settings() }
}

/// The response to a request to open the preview, once it is known how
/// opening went: an empty result, or an error with code 1 that names the
/// cause.
pub open spec fn preview_response(id: JsonView, outcome: Result<(), Seq<char>>) -> MessageView {
    MessageView::Response(
        ResponseView {
            id,
            outcome: match outcome {
                Ok(_) => Ok(JsonView::Null),
                Err(cause) => Err(
                    ResponseErrorView {
                        code: 1,
                        message: "could not open preview: "@ + cause,
                        data: None,
                    },
                ),
            },
        },
    )
}

impl Server {
    /// A session at its start.
    pub fn new() -> (r: Server)
        ensures
            r@ == (ServerView { settings: initial_settings(), shutdown: false, test: false }),
    {
        let mut settings = Settings::default();
        settings.auto = false;
        Server { settings, shutdown: false, test: false }
    }

    /// The effect that opens the preview, with the configured browser if
    /// there is one; none where the session runs under test.
    pub fn open_preview(&self, answer: Option<Json>) -> (r: Option<Effect>)
        ensures
            self.test ==> r is None,
            !self.test ==> (r matches Some(effect) && effect@ == (EffectView::OpenPreview {
                browser: self@.settings.browser,
                answer: optional_value(answer),
            })),
    {
        if self.test {
            None
        } else {
            Some(Effect::OpenPreview { browser: copy_optional_command(&self.settings.browser), answer })
        }
    }

    /// The response to a request to open the preview, once the caller
    /// knows how opening went.
    pub fn preview_opened(id: Json, outcome: Result<(), String>) -> (r: Message)
        ensures
            r@ == preview_response(
                id@,
                match outcome {
                    Ok(_) => Ok(()),
                    Err(cause) => Err(cause@),
                },
            ),
    {
        match outcome {
            Ok(_) => Message::Response(Response { id, outcome: Ok(Json::Null) }),
            Err(cause) => Message::Response(
                Response {
                    id,
                    outcome: Err(
                        ResponseError {
                            code: 1,
                            message: joined("could not open preview: ", cause.as_str()),
                            data: None,
                        },
                    ),
                },
            ),
        }
    }

    /// What the scheduler must do so that it follows the options now in
    /// effect, given whether a worker runs.
    pub fn spawn_or_stop_deferred_update_thread(&self, running: bool) -> (r: SchedulerOp)
        ensures
            r == reconciled(running, self.settings.defer_updates),
    {
        reconcile(running, self.settings.defer_updates)
    }

    /// Answers a request.
    pub fn handle_request(&mut self, req: Request) -> (r: Vec<Effect>)
        ensures
            (final(self)@, effects_value(r@)) == request_effects(old(self)@, req@),
    {
        if same_text(req.method.as_str(), "initialize") {
            one(Effect::Send(Message::Response(Response { id: req.id, outcome: Ok(capabilities()) })))
        } else if same_text(req.method.as_str(), "workspace/executeCommand") {
            let params = params_bytes(&req.params);
            match read_executed_command(params.as_slice()) {
                None => one(Effect::Abort(Defect::InvalidParams)),
                Some(command) => {
                    if same_text(command.as_str(), OPEN_PREVIEW_COMMAND) && !self.test {
                        let browser = copy_optional_command(&self.settings.browser);
                        one(Effect::OpenPreview { browser, answer: Some(req.id) })
                    } else {
                        one(done_effect(req.id))
                    }
                },
            }
        } else if same_text(req.method.as_str(), "shutdown") {
            self.shutdown = true;
            one(done_effect(req.id))
        } else {
            one(done_effect(req.id))
        }
    }
}

/// The effect of an input that is no message because decoding failed.
///
/// Where the stream failed, the session ends with that failure. Any other
/// failure is reported to the peer and the session goes on: the report is
/// an error response whose `id` is `null`, whose code is the failure's code
/// and whose message is the failure in words.
pub open spec fn report_of(error: ProtocolError) -> EffectView {
    match error {
        ProtocolError::Io(cause) => EffectView::Fail(cause@),
        _ => EffectView::Send(
            MessageView::Response(
                ResponseView {
                    id: JsonView::Null,
                    outcome: Err(
                        ResponseErrorView {
                            code: match error.peer_code() {
                                Some(code) => code,
                                None => 0,
                            },
                            message: error.words(),
                            data: None,
                        },
                    ),
                },
            ),
        ),
    }
}

/// A malformed header block is reported in the same words each time it is
/// met: the bytes stay, so the same fault is found again, and the report of
/// a fault depends on the fault alone. The report has an `id` of `null`,
/// the code -32700 and a message that names what `httparse` found.
pub proof fn header_fault_report_repeats(buffer: Seq<u8>, error: httparse::Error)
    requires
        frame_at(buffer) == FrameView::Malformed(error),
    ensures
        frame_at(left_after(buffer)) == FrameView::Malformed(error),
        report_of(ProtocolError::HTTP(error)) == EffectView::Send(
            MessageView::Response(
                ResponseView {
                    id: JsonView::Null,
                    outcome: Err(
                        ResponseErrorView {
                            code: -32700i64,
                            message: "Could not parse HTTP: "@ + header_fault_words(error),
                            data: None,
                        },
                    ),
                },
            ),
        ),
{
}

/// Bytes that are no header block because of a byte that no header name
/// holds are reported to the peer with the code -32700 and the message
/// `Could not parse HTTP: invalid header name`.
pub proof fn bad_header_name_is_reported(error: httparse::Error)
    requires
        header_fault_of(error) == HeaderFault::HeaderName,
    ensures
        report_of(ProtocolError::HTTP(error)) == EffectView::Send(
            MessageView::Response(
                ResponseView {
                    id: JsonView::Null,
                    outcome: Err(
                        ResponseErrorView {
                            code: -32700i64,
                            message: "Could not parse HTTP: invalid header name"@,
                            data: None,
                        },
                    ),
                },
            ),
        ),
{
    reveal_strlit("Could not parse HTTP: ");
    reveal_strlit("invalid header name");
    reveal_strlit("Could not parse HTTP: invalid header name");
    assert("Could not parse HTTP: "@ + "invalid header name"@
        =~= "Could not parse HTTP: invalid header name"@);
}

/// The state after a message and the effects that it has. A response is a
/// breach of the protocol: the endpoint sends no requests.
pub open spec fn message_effects(server: ServerView, message: MessageView) -> (
    ServerView,
    Seq<EffectView>,
) {
    match message {
        MessageView::Request(request) => request_effects(server, request),
        MessageView::Notification(notification) => notification_effects(server, notification),
        MessageView::Response(_) => (server, seq![EffectView::Abort(Defect::UnexpectedResponse)]),
    }
}

impl Server {
    /// Puts new options into effect in place of the old ones and says what
    /// follows from the change.
    pub fn apply_settings(&mut self, fresh: Settings) -> (r: Vec<Effect>)
        ensures
            final(self)@ == (ServerView { settings: fresh@, ..old(self)@ }),
            effects_value(r@) == settings_effects(old(self)@, fresh@),
    {
        let mut effects: Vec<Effect> = Vec::new();
        let ghost mut so_far: Seq<EffectView> = Seq::empty();
        assert(effects_value(effects@) =~= so_far);
        if !same_delays(&self.settings.defer_updates, &fresh.defer_updates) {
            let op = reconcile(self.settings.defer_updates.is_some(), fresh.defer_updates);
            effects.push(Effect::Schedule(op));
            proof {
                so_far = so_far.push(EffectView::Schedule(op));
                assert(effects_value(effects@) =~= so_far);
            }
        }
        if fresh.auto && !self.settings.auto && !self.test {
            let browser = copy_optional_command(&fresh.browser);
            effects.push(Effect::OpenPreview { browser, answer: None });
            proof {
                so_far = so_far.push(
                    EffectView::OpenPreview { browser: fresh@.browser, answer: None },
                );
                assert(effects_value(effects@) =~= so_far);
            }
        }
        effects.push(Effect::SetTheme(fresh.theme.clone()));
        proof {
            so_far = so_far.push(EffectView::SetTheme(fresh@.theme));
            assert(effects_value(effects@) =~= so_far);
        }
        if fresh.serve_static {
            effects.push(Effect::ServeStatic);
            proof {
                so_far = so_far.push(EffectView::ServeStatic);
                assert(effects_value(effects@) =~= so_far);
            }
        }
        match &fresh.renderer {
            Some(command) => {
                effects.push(Effect::SetRenderer(copy_command(command)));
                proof {
                    so_far = so_far.push(EffectView::SetRenderer(command_value(*command)));
                    assert(effects_value(effects@) =~= so_far);
                }
            },
            None => {},
        }
        assert(so_far =~= settings_effects(old(self)@, fresh@));
        self.settings = fresh;
        effects
    }

    /// Hands on a new document body: to the renderer where no update is
    /// deferred, to the worker where updates are.
    pub fn new_body(&self, body: String) -> (r: Vec<Effect>)
        ensures
            effects_value(r@) == seq![body_effect(self@, body@)],
    {
        if self.settings.defer_updates.is_some() {
            one(Effect::Defer(body))
        } else {
            one(Effect::Render(body))
        }
    }

    /// Acts on a notification.
    pub fn handle_notification(&mut self, not: Notification) -> (r: Vec<Effect>)
        ensures
            (final(self)@, effects_value(r@)) == notification_effects(old(self)@, not@),
    {
        let params = params_bytes(&not.params);
        if same_text(not.method.as_str(), "exit") {
            one(Effect::Exit)
        } else if same_text(not.method.as_str(), "workspace/didChangeConfiguration") {
            match read_changed_settings(params.as_slice()) {
                None => one(Effect::Abort(Defect::InvalidParams)),
                Some(text) => match Json::parse(text.as_slice()) {
                    Err(_) => none(),
                    Ok(doc) => match Settings::deserialize(&doc) {
                        Err(_) => none(),
                        Ok(fresh) => self.apply_settings(fresh),
                    },
                },
            }
        } else if same_text(not.method.as_str(), "textDocument/didOpen") {
            match read_opened_document(params.as_slice()) {
                None => one(Effect::Abort(Defect::InvalidParams)),
                Some(body) => self.new_body(body),
            }
        } else if same_text(not.method.as_str(), "textDocument/didChange") {
            match read_changed_document(params.as_slice()) {
                None => one(Effect::Abort(Defect::InvalidParams)),
                Some(texts) => match take_whole_text(texts) {
                    Ok(body) => self.new_body(body),
                    Err(defect) => one(Effect::Abort(defect)),
                },
            }
        } else {
            none()
        }
    }

    /// Serves one input of the session: the next message, the end of the
    /// stream (`Ok(None)`), or the failure to decode a message.
    pub fn serve(&mut self, input: Result<Option<Message>, ProtocolError>) -> (r: Vec<Effect>)
        ensures
            input matches Ok(Some(message)) ==> ((final(self)@, effects_value(r@))
                == message_effects(old(self)@, message@)),
            input matches Ok(None) ==> (final(self)@ == old(self)@ && effects_value(r@)
                == seq![EffectView::Exit]),
            input matches Err(error) ==> (final(self)@ == old(self)@ && effects_value(r@)
                == seq![report_of(error)]),
    {
        match input {
            Ok(None) => one(Effect::Exit),
            Ok(Some(Message::Request(req))) => self.handle_request(req),
            Ok(Some(Message::Notification(not))) => self.handle_notification(not),
            Ok(Some(Message::Response(_))) => one(Effect::Abort(Defect::UnexpectedResponse)),
            Err(ProtocolError::Io(cause)) => one(Effect::Fail(cause)),
            Err(error) => {
                let code = match error.code() {
                    Some(code) => code,
                    None => 0,
                };
                let message = error.message();
                let report = ResponseError { code, message, data: None };
                one(Effect::Send(Message::error(report)))
            },
        }
    }
}

} // verus!
