//! What the session reads from the parameters of the calls it acts on.
//!
//! The parameters are checked and taken apart by `lsp_types`; each function
//! here hands it the parameters as JSON text and gets back the one part that
//! the session needs.

use vstd::prelude::*;

verus! {

/// How long the parameters of a call on a document may be, in bytes. The
/// URI in them is handed to a parser that takes no string above `i32::MAX`
/// bytes; parameters within this length hold none.
pub const MAX_PARAMS: usize = 0x7fff_ffff;

/// The `textDocument.text` of the parameters of a document-opened
/// notification, where `lsp_types` accepts them.
pub uninterp spec fn opened_text(params: Seq<u8>) -> Option<Seq<char>>;

/// The `text` of each entry of `contentChanges` in the parameters of a
/// document-changed notification, where `lsp_types` accepts them.
pub uninterp spec fn changed_texts(params: Seq<u8>) -> Option<Seq<Seq<char>>>;

/// The text of `settings` in the parameters of a configuration-changed
/// notification, where `lsp_types` accepts them.
pub uninterp spec fn changed_settings(params: Seq<u8>) -> Option<Seq<u8>>;

/// The `command` of the parameters of an execute-command request, where
/// `lsp_types` accepts them.
pub uninterp spec fn executed_command(params: Seq<u8>) -> Option<Seq<char>>;

/// Reads the text of an opened document.
///
/// Calls `serde_json::from_slice` for `lsp_types::DidOpenTextDocumentParams`
/// and picks `text_document.text`. The contract only names the outcome. The
/// text must not be longer than [`MAX_PARAMS`]: the parser of the
/// document's URI panics on a string of more than `i32::MAX` bytes.
#[verifier::external_body]
pub(crate) fn read_opened_text(params: &[u8]) -> (r: Option<String>)
    requires
        params@.len() <= MAX_PARAMS,
    ensures
        r matches Some(text) ==> opened_text(params@) == Some(text@),
        r is None ==> opened_text(params@) is None,
{
    serde_json::from_slice::<lsp_types::DidOpenTextDocumentParams>(params).ok().map(
        |p| p.text_document.text,
    )
}

/// Reads the texts of the changes to a document.
///
/// Calls `serde_json::from_slice` for
/// `lsp_types::DidChangeTextDocumentParams` and picks the `text` of each of
/// its `content_changes`. The contract only names the outcome. The text
/// must not be longer than [`MAX_PARAMS`]: the parser of the document's URI
/// panics on a string of more than `i32::MAX` bytes.
#[verifier::external_body]
pub(crate) fn read_changed_texts(params: &[u8]) -> (r: Option<Vec<String>>)
    requires
        params@.len() <= MAX_PARAMS,
    ensures
        r matches Some(texts) ==> changed_texts(params@) == Some(
            texts@.map_values(|s: String| s@),
        ),
        r is None ==> changed_texts(params@) is None,
{
    serde_json::from_slice::<lsp_types::DidChangeTextDocumentParams>(params).ok().map(
        |p| p.content_changes.into_iter().map(|change| change.text).collect(),
    )
}

/// Reads the settings of a changed configuration, as JSON text.
///
/// Calls `serde_json::from_slice` for
/// `lsp_types::DidChangeConfigurationParams`, picks `settings` and writes it
/// with `to_string`. The contract only names the outcome.
#[verifier::external_body]
pub(crate) fn read_changed_settings(params: &[u8]) -> (r: Option<Vec<u8>>)
    ensures
        r matches Some(text) ==> changed_settings(params@) == Some(text@),
        r is None ==> changed_settings(params@) is None,
{
    serde_json::from_slice::<lsp_types::DidChangeConfigurationParams>(params).ok().map(
        |p| p.settings.to_string().into_bytes(),
    )
}

/// Reads the name of the command to execute.
///
/// Calls `serde_json::from_slice` for `lsp_types::ExecuteCommandParams` and
/// picks `command`. The contract only names the outcome.
#[verifier::external_body]
pub(crate) fn read_executed_command(params: &[u8]) -> (r: Option<String>)
    ensures
        r matches Some(command) ==> executed_command(params@) == Some(command@),
        r is None ==> executed_command(params@) is None,
{
    serde_json::from_slice::<lsp_types::ExecuteCommandParams>(params).ok().map(|p| p.command)
}

/// The text of an opened document, where the parameters are within
/// [`MAX_PARAMS`] and `lsp_types` accepts them.
pub open spec fn opened_document(params: Seq<u8>) -> Option<Seq<char>> {
    if params.len() <= MAX_PARAMS {
        opened_text(params)
    } else {
        None
    }
}

/// The texts of the changes to a document, where the parameters are within
/// [`MAX_PARAMS`] and `lsp_types` accepts them.
pub open spec fn changed_document(params: Seq<u8>) -> Option<Seq<Seq<char>>> {
    if params.len() <= MAX_PARAMS {
        changed_texts(params)
    } else {
        None
    }
}

/// Reads the text of an opened document from the parameters of the
/// notification; parameters that are too long are not read at all.
pub fn read_opened_document(params: &[u8]) -> (r: Option<String>)
    ensures
        r matches Some(text) ==> opened_document(params@) == Some(text@),
        r is None ==> opened_document(params@) is None,
{
    if params.len() <= MAX_PARAMS {
        read_opened_text(params)
    } else {
        None
    }
}

/// Reads the texts of the changes to a document from the parameters of the
/// notification; parameters that are too long are not read at all.
pub fn read_changed_document(params: &[u8]) -> (r: Option<Vec<String>>)
    ensures
        r matches Some(texts) ==> changed_document(params@) == Some(
            texts@.map_values(|s: String| s@),
        ),
        r is None ==> changed_document(params@) is None,
{
    if params.len() <= MAX_PARAMS {
        read_changed_texts(params)
    } else {
        None
    }
}

} // verus!
