//! The options of the preview and how a configuration document sets them.

use crate::json::{lemma_array_value, Json, JsonView};
use vstd::prelude::*;

verus! {

/// A program to run and the arguments to run it with.
pub type Command = (String, Vec<String>);

/// The options of the preview.
#[derive(Debug, Clone, PartialEq, Eq)]
pub struct Settings {
    /// Open the preview without being asked.
    pub auto: bool,
    /// The program that shows the preview; the default browser if `None`.
    pub browser: Option<Command>,
    /// The style for code blocks.
    pub theme: String,
    /// Serve files that lie beside the document.
    pub serve_static: bool,
    /// The program that renders the markdown; the built-in one if `None`.
    pub renderer: Option<Command>,
    /// The delays, in milliseconds, before an update and between two
    /// updates; updates are not deferred if `None`.
    pub defer_updates: Option<(u64, u64)>,
}

/// The mathematical value of a [`Command`].
pub type CommandView = (Seq<char>, Seq<Seq<char>>);

/// The mathematical value of [`Settings`].
pub struct SettingsView {
    pub auto: bool,
    pub browser: Option<CommandView>,
    pub theme: Seq<char>,
    pub serve_static: bool,
    pub renderer: Option<CommandView>,
    pub defer_updates: Option<(u64, u64)>,
}

/// The characters of each string of a list.
pub open spec fn texts_value(texts: Seq<String>) -> Seq<Seq<char>> {
    texts.map_values(|s: String| s@)
}

/// The value of a command.
pub open spec fn command_value(command: Command) -> CommandView {
    (command.0@, texts_value(command.1@))
}

/// The value of an optional command.
pub open spec fn optional_command_value(command: Option<Command>) -> Option<CommandView> {
    match command {
        Some(command) => Some(command_value(command)),
        None => None,
    }
}

impl View for Settings {
    type V = SettingsView;

    open spec fn view(&self) -> SettingsView {
        SettingsView {
            auto: self.auto,
            browser: optional_command_value(self.browser),
            theme: self.theme@,
            serve_static: self.serve_static,
            renderer: optional_command_value(self.renderer),
            defer_updates: self.defer_updates,
        }
    }
}

/// Why a configuration document sets no options.
#[derive(Debug, Clone, Copy, PartialEq, Eq, Structural)]
pub enum SettingsError {
    /// A value is of the wrong kind.
    InvalidType,
    /// A command is given as a list without a program.
    EmptyCommand,
}

/// The options where the configuration sets none: the preview opens by
/// itself in the default browser, code is styled as `github`, no files
/// are served, the built-in renderer is used and no update is deferred.
pub open spec fn default_settings() -> SettingsView {
    SettingsView {
        auto: true,
        browser: None,
        theme: "github"@,
        serve_static: false,
        renderer: None,
        defer_updates: None,
    }
}

/// Whether a member is left out or `null`.
pub open spec fn unset(value: Option<JsonView>) -> bool {
    value is None || value == Some(JsonView::Null)
}

/// The strings of a list of documents, where all of them are strings.
pub open spec fn texts_of(items: Seq<JsonView>) -> Option<Seq<Seq<char>>>
    decreases items.len(),
{
    if items.len() == 0 {
        Some(Seq::empty())
    } else {
        match (texts_of(items.drop_last()), items.last()) {
            (Some(front), JsonView::Text(s)) => Some(front.push(s)),
            _ => None,
        }
    }
}

/// The command that a value names: a string is a program without
/// arguments, a list of strings is a program followed by its arguments.
pub open spec fn command_of(value: JsonView) -> Result<CommandView, SettingsError> {
    match value {
        JsonView::Text(program) => Ok((program, Seq::empty())),
        JsonView::Array(items) => match texts_of(items) {
            None => Err(SettingsError::InvalidType),
            Some(texts) => if texts.len() == 0 {
                Err(SettingsError::EmptyCommand)
            } else {
                Ok((texts[0], texts.skip(1)))
            },
        },
        _ => Err(SettingsError::InvalidType),
    }
}

/// The command that an optional member names, if it names one.
pub open spec fn optional_command_of(value: Option<JsonView>) -> Result<
    Option<CommandView>,
    SettingsError,
> {
    if unset(value) {
        Ok(None)
    } else {
        match command_of(value.unwrap()) {
            Ok(command) => Ok(Some(command)),
            Err(fault) => Err(fault),
        }
    }
}

/// The truth value that an optional member sets, or `default`.
pub open spec fn flag_of(value: Option<JsonView>, default: bool) -> Result<bool, SettingsError> {
    if unset(value) {
        Ok(default)
    } else {
        match value.unwrap() {
            JsonView::Bool(b) => Ok(b),
            _ => Err(SettingsError::InvalidType),
        }
    }
}

/// The string that an optional member sets, or `default`.
pub open spec fn name_of(value: Option<JsonView>, default: Seq<char>) -> Result<
    Seq<char>,
    SettingsError,
> {
    if unset(value) {
        Ok(default)
    } else {
        match value.unwrap() {
            JsonView::Text(s) => Ok(s),
            _ => Err(SettingsError::InvalidType),
        }
    }
}

/// The delay that a member of `deferUpdates` sets.
pub open spec fn delay_of(value: Option<JsonView>) -> Result<u64, SettingsError> {
    match value {
        Some(JsonView::Number(n)) => match n.as_u64() {
            Some(ms) => Ok(ms),
            None => Err(SettingsError::InvalidType),
        },
        _ => Err(SettingsError::InvalidType),
    }
}

/// The delays that `deferUpdates` sets: none where it is left out, and none
/// where both are zero.
pub open spec fn defer_of(value: Option<JsonView>) -> Result<Option<(u64, u64)>, SettingsError> {
    match value {
        None => Ok(None),
        Some(JsonView::Object(members)) => {
            let doc = JsonView::Object(members);
            match (delay_of(doc.member("msBefore"@)), delay_of(doc.member("msBetween"@))) {
                (Ok(before), Ok(between)) => if before > 0 || between > 0 {
                    Ok(Some((before, between)))
                } else {
                    Ok(None)
                },
                _ => Err(SettingsError::InvalidType),
            }
        },
        Some(_) => Err(SettingsError::InvalidType),
    }
}

/// The options that the object under `markdown.preview` sets.
pub open spec fn preview_settings_of(preview: JsonView) -> Result<SettingsView, SettingsError> {
    match (
        flag_of(preview.member("auto"@), true),
        optional_command_of(preview.member("browser"@)),
        name_of(preview.member("codeTheme"@), "github"@),
        flag_of(preview.member("serveStatic"@), false),
        optional_command_of(preview.member("renderer"@)),
        defer_of(preview.member("deferUpdates"@)),
    ) {
        (Ok(auto), Ok(browser), Ok(theme), Ok(serve_static), Ok(renderer), Ok(defer_updates)) => Ok(
            SettingsView { auto, browser, theme, serve_static, renderer, defer_updates },
        ),
        (Err(fault), _, _, _, _, _) => Err(fault),
        (_, Err(fault), _, _, _, _) => Err(fault),
        (_, _, Err(fault), _, _, _) => Err(fault),
        (_, _, _, Err(fault), _, _) => Err(fault),
        (_, _, _, _, Err(fault), _) => Err(fault),
        (_, _, _, _, _, Err(fault)) => Err(fault),
    }
}

/// The options that a configuration document sets.
///
/// The options stand under `markdown.preview`. Where `markdown` or
/// `preview` is left out or `null`, every option has its default. What is
/// present must be an object; members that are no options are ignored.
pub open spec fn settings_of(doc: JsonView) -> Result<SettingsView, SettingsError> {
    if !(doc is Object) {
        Err(SettingsError::InvalidType)
    } else if unset(doc.member("markdown"@)) {
        Ok(default_settings())
    } else {
        let markdown = doc.member("markdown"@).unwrap();
        if !(markdown is Object) {
            Err(SettingsError::InvalidType)
        } else if unset(markdown.member("preview"@)) {
            Ok(default_settings())
        } else {
            let preview = markdown.member("preview"@).unwrap();
            if !(preview is Object) {
                Err(SettingsError::InvalidType)
            } else {
                preview_settings_of(preview)
            }
        }
    }
}

/// The value of a member that was looked up.
pub open spec fn found(value: Option<&Json>) -> Option<JsonView> {
    match value {
        Some(value) => Some(value@),
        None => None,
    }
}

fn is_unset(value: &Option<&Json>) -> (r: bool)
    ensures
        r == unset(found(*value)),
{
    match value {
        None => true,
        Some(Json::Null) => true,
        Some(_) => false,
    }
}

fn read_texts(items: &Vec<Json>) -> (r: Option<Vec<String>>)
    ensures
        r matches Some(texts) ==> texts_of(Json::Array(*items)@->Array_0) == Some(
            texts_value(texts@),
        ),
        r is None ==> texts_of(Json::Array(*items)@->Array_0) is None,
{
    let ghost all = Json::Array(*items)@->Array_0;
    proof {
        lemma_array_value(*items);
        assert(all.take(0) =~= Seq::empty());
    }
    let mut out: Vec<String> = Vec::new();
    let mut k: usize = 0;
    while k < items.len()
        invariant
            k <= items.len(),
            all == items@.map_values(|j: Json| j@),
            all == Json::Array(*items)@->Array_0,
            texts_of(all.take(k as int)) == Some(texts_value(out@)),
        decreases items.len() - k,
    {
        assert(all.take(k + 1).drop_last() =~= all.take(k as int));
        assert(all.take(k + 1).last() == items[k as int]@);
        match &items[k] {
            Json::Text(s) => {
                let ghost before = texts_value(out@);
                out.push(s.clone());
                assert(texts_value(out@) =~= before.push(s@));
            },
            _ => {
                proof {
                    lemma_texts_fail_with_prefix(all, k + 1);
                }
                return None;
            },
        }
        k += 1;
    }
    assert(all.take(k as int) =~= all);
    Some(out)
}

proof fn lemma_texts_fail_with_prefix(items: Seq<JsonView>, n: int)
    requires
        0 <= n <= items.len(),
        texts_of(items.take(n)) is None,
    ensures
        texts_of(items) is None,
    decreases items.len() - n,
{
    if n < items.len() {
        assert(items.take(n + 1).drop_last() =~= items.take(n));
        lemma_texts_fail_with_prefix(items, n + 1);
    } else {
        assert(items.take(n) =~= items);
    }
}

/// Reads a command: a string names a program without arguments, a list
/// names a program and its arguments, and a list must not be empty.
pub fn deserialize_command(value: &Json) -> (r: Result<Command, SettingsError>)
    ensures
        r matches Ok(command) ==> command_of(value@) == Ok::<CommandView, SettingsError>(
            command_value(command),
        ),
        r matches Err(fault) ==> command_of(value@) == Err::<CommandView, SettingsError>(fault),
{
    match value {
        Json::Text(program) => {
            let args: Vec<String> = Vec::new();
            assert(texts_value(args@) =~= Seq::empty());
            Ok((program.clone(), args))
        },
        Json::Array(items) => match read_texts(items) {
            None => Err(SettingsError::InvalidType),
            Some(texts) => {
                if texts.len() == 0 {
                    return Err(SettingsError::EmptyCommand);
                }
                let mut texts = texts;
                let ghost all = texts_value(texts@);
                let program = texts.remove(0);
                assert(texts_value(texts@) =~= all.skip(1));
                Ok((program, texts))
            },
        },
        _ => Err(SettingsError::InvalidType),
    }
}

/// Reads a command that may be left out or `null`.
pub fn deserialize_opt_command(value: Option<&Json>) -> (r: Result<Option<Command>, SettingsError>)
    ensures
        r matches Ok(command) ==> optional_command_of(found(value)) == Ok::<
            Option<CommandView>,
            SettingsError,
        >(optional_command_value(command)),
        r matches Err(fault) ==> optional_command_of(found(value)) == Err::<
            Option<CommandView>,
            SettingsError,
        >(fault),
{
    if is_unset(&value) {
        return Ok(None);
    }
    match deserialize_command(value.unwrap()) {
        Ok(command) => Ok(Some(command)),
        Err(fault) => Err(fault),
    }
}

fn read_flag(value: Option<&Json>, default: bool) -> (r: Result<bool, SettingsError>)
    ensures
        r == flag_of(found(value), default),
{
    if is_unset(&value) {
        return Ok(default);
    }
    match value.unwrap() {
        Json::Bool(b) => Ok(*b),
        _ => Err(SettingsError::InvalidType),
    }
}

fn read_name(value: Option<&Json>, default: &str) -> (r: Result<String, SettingsError>)
    ensures
        r matches Ok(name) ==> name_of(found(value), default@) == Ok::<Seq<char>, SettingsError>(
            name@,
        ),
        r matches Err(fault) ==> name_of(found(value), default@) == Err::<
            Seq<char>,
            SettingsError,
        >(fault),
{
    if is_unset(&value) {
        return Ok(default.to_owned());
    }
    match value.unwrap() {
        Json::Text(s) => Ok(s.clone()),
        _ => Err(SettingsError::InvalidType),
    }
}

fn read_delay(value: Option<&Json>) -> (r: Result<u64, SettingsError>)
    ensures
        r == delay_of(found(value)),
{
    match value {
        Some(Json::Number(n)) => match n.as_u64() {
            Some(ms) => Ok(ms),
            None => Err(SettingsError::InvalidType),
        },
        _ => Err(SettingsError::InvalidType),
    }
}

fn read_defer(value: Option<&Json>) -> (r: Result<Option<(u64, u64)>, SettingsError>)
    ensures
        r == defer_of(found(value)),
{
    match value {
        None => Ok(None),
        Some(Json::Object(members)) => {
            let doc = value.unwrap();
            let before = read_delay(doc.get("msBefore"));
            let between = read_delay(doc.get("msBetween"));
            match (before, between) {
                (Ok(before), Ok(between)) => if before > 0 || between > 0 {
                    Ok(Some((before, between)))
                } else {
                    Ok(None)
                },
                _ => Err(SettingsError::InvalidType),
            }
        },
        Some(_) => Err(SettingsError::InvalidType),
    }
}

fn is_object(value: &Json) -> (r: bool)
    ensures
        r == (value@ is Object),
{
    match value {
        Json::Object(_) => true,
        _ => false,
    }
}

impl Default for Settings {
    fn default() -> (r: Settings)
        ensures
            r@ == default_settings(),
    {
        Settings {
            auto: true,
            browser: None,
            theme: "github".to_owned(),
            serve_static: false,
            renderer: None,
            defer_updates: None,
        }
    }
}

impl Settings {
    /// Reads the options from a configuration document.
    pub fn deserialize(doc: &Json) -> (r: Result<Settings, SettingsError>)
        ensures
            r matches Ok(settings) ==> settings_of(doc@) == Ok::<SettingsView, SettingsError>(
                settings@,
            ),
            r matches Err(fault) ==> settings_of(doc@) == Err::<SettingsView, SettingsError>(fault),
    {
        if !is_object(doc) {
            return Err(SettingsError::InvalidType);
        }
        let markdown = doc.get("markdown");
        if is_unset(&markdown) {
            return Ok(Settings::default());
        }
        let markdown = markdown.unwrap();
        if !is_object(markdown) {
            return Err(SettingsError::InvalidType);
        }
        let preview = markdown.get("preview");
        if is_unset(&preview) {
            return Ok(Settings::default());
        }
        let preview = preview.unwrap();
        if !is_object(preview) {
            return Err(SettingsError::InvalidType);
        }
        let auto = match read_flag(preview.get("auto"), true) {
            Ok(auto) => auto,
            Err(fault) => {
                return Err(fault);
            },
        };
        let browser = match deserialize_opt_command(preview.get("browser")) {
            Ok(browser) => browser,
            Err(fault) => {
                return Err(fault);
            },
        };
        let theme = match read_name(preview.get("codeTheme"), "github") {
            Ok(theme) => theme,
            Err(fault) => {
                return Err(fault);
            },
        };
        let serve_static = match read_flag(preview.get("serveStatic"), false) {
            Ok(serve_static) => serve_static,
            Err(fault) => {
                return Err(fault);
            },
        };
        let renderer = match deserialize_opt_command(preview.get("renderer")) {
            Ok(renderer) => renderer,
            Err(fault) => {
                return Err(fault);
            },
        };
        let defer_updates = match read_defer(preview.get("deferUpdates")) {
            Ok(defer_updates) => defer_updates,
            Err(fault) => {
                return Err(fault);
            },
        };
        Ok(Settings { auto, browser, theme, serve_static, renderer, defer_updates })
    }
}

/// A configuration that names no option sets every option to its default:
/// an empty document, a `markdown` that is `null` or empty, and a `preview`
/// that is `null` or empty.
pub proof fn empty_configuration_gives_defaults(doc: JsonView)
    requires
        doc is Object,
        unset(doc.member("markdown"@)) || (doc.member("markdown"@).unwrap() is Object && (unset(
            doc.member("markdown"@).unwrap().member("preview"@),
        ) || doc.member("markdown"@).unwrap().member("preview"@) == Some(
            JsonView::Object(Seq::empty()),
        ))),
    ensures
        settings_of(doc) == Ok::<SettingsView, SettingsError>(default_settings()),
        settings_of(JsonView::Object(Seq::empty())) == Ok::<SettingsView, SettingsError>(
            default_settings(),
        ),
{
}

proof fn lemma_texts_of_strings(texts: Seq<Seq<char>>)
    ensures
        texts_of(texts.map_values(|s: Seq<char>| JsonView::Text(s))) == Some(texts),
    decreases texts.len(),
{
    let items = texts.map_values(|s: Seq<char>| JsonView::Text(s));
    if texts.len() > 0 {
        lemma_texts_of_strings(texts.drop_last());
        assert(items.drop_last() =~= texts.drop_last().map_values(|s: Seq<char>| JsonView::Text(s)));
        assert(texts.drop_last().push(texts.last()) =~= texts);
    } else {
        assert(texts =~= Seq::empty());
    }
}

/// A string names a program without arguments; a list of strings names its
/// first string as the program and the others as the arguments; an empty
/// list names nothing and is rejected.
pub proof fn command_is_program_and_arguments(program: Seq<char>, args: Seq<Seq<char>>)
    ensures
        command_of(JsonView::Text(program)) == Ok::<CommandView, SettingsError>(
            (program, Seq::empty()),
        ),
        command_of(
            JsonView::Array((seq![program] + args).map_values(|s: Seq<char>| JsonView::Text(s))),
        ) == Ok::<CommandView, SettingsError>((program, args)),
        command_of(JsonView::Array(Seq::empty())) == Err::<CommandView, SettingsError>(
            SettingsError::EmptyCommand,
        ),
{
    lemma_texts_of_strings(seq![program] + args);
    assert((seq![program] + args).skip(1) =~= args);
}

} // verus!
