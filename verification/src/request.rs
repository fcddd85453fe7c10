//! The payloads of the operations that the session issues to the remote
//! endpoint, and the names under which it issues them.
//!
//! Each operation has a tag type that carries its wire name in `METHOD`,
//! and a parameter type. Encoding the payloads is left to the caller.

use crate::point::{Position, Range};
use crate::sync::{changes_view, ContentChange, ContentChangeView};
use vstd::prelude::*;

verus! {

/// Request: asks for the current sign-in status.
pub struct CheckStatus;

impl CheckStatus {
    pub const METHOD: &'static str = "checkStatus";
}

#[derive(Clone, Debug, PartialEq, Eq)]
pub struct CheckStatusParams {
    pub local_checks_only: bool,
}

/// Request: the handshake that opens a connection.
pub struct Initialize;

impl Initialize {
    pub const METHOD: &'static str = "initialize";
}

/// Where the remote service lives and the token that opens it.
#[derive(Clone, Debug, PartialEq, Eq)]
pub struct ExtensionConfiguration {
    pub server_endpoint: String,
    pub access_token: String,
}

/// Request: begins a sign-in.
pub struct SignInInitiate;

impl SignInInitiate {
    pub const METHOD: &'static str = "signInInitiate";
}

#[derive(Clone, Debug, PartialEq, Eq)]
pub struct SignInInitiateParams {}

/// The code that the user types at `verification_uri` to authorize this device.
#[derive(Debug, PartialEq, Eq)]
pub struct PromptUserDeviceFlow {
    pub user_code: String,
    pub verification_uri: String,
}

pub struct PromptUserDeviceFlowView {
    pub user_code: Seq<char>,
    pub verification_uri: Seq<char>,
}

impl View for PromptUserDeviceFlow {
    type V = PromptUserDeviceFlowView;

    open spec fn view(&self) -> PromptUserDeviceFlowView {
        PromptUserDeviceFlowView {
            user_code: self.user_code@,
            verification_uri: self.verification_uri@,
        }
    }
}

impl Clone for PromptUserDeviceFlow {
    fn clone(&self) -> (copy: Self)
        ensures
            copy == *self,
    {
        PromptUserDeviceFlow {
            user_code: self.user_code.clone(),
            verification_uri: self.verification_uri.clone(),
        }
    }
}

/// The answer to a begun sign-in: the user is known already, or has to
/// authorize this device first.
#[derive(Clone, Debug, PartialEq, Eq)]
pub enum SignInInitiateResult {
    AlreadySignedIn { user: String },
    PromptUserDeviceFlow(PromptUserDeviceFlow),
}

/// Request: completes a device-flow sign-in.
pub struct SignInConfirm;

impl SignInConfirm {
    pub const METHOD: &'static str = "signInConfirm";
}

#[derive(Clone, Debug, PartialEq, Eq)]
pub struct SignInConfirmParams {
    pub user_code: String,
}

/// What the remote endpoint reports of the user's authorization.
#[allow(inconsistent_fields)]
#[derive(Clone, Debug, PartialEq, Eq)]
pub enum SignInStatus {
    Okay { user: Option<String> },
    MaybeOk { user: String },
    AlreadySignedIn { user: String },
    NotAuthorized { user: String },
    NotSignedIn,
}

/// Request: ends the remote session.
pub struct SignOut;

impl SignOut {
    pub const METHOD: &'static str = "signOut";
}

#[derive(Clone, Debug, PartialEq, Eq)]
pub struct SignOutParams {}

#[derive(Clone, Debug, PartialEq, Eq)]
pub struct SignOutResult {}

/// Request: the first completions at a position.
pub struct GetCompletions;

impl GetCompletions {
    pub const METHOD: &'static str = "autocomplete/execute";
}

/// Request: further completions at a position, for cycling through them.
pub struct GetCompletionsCycling;

impl GetCompletionsCycling {
    pub const METHOD: &'static str = "getCompletionsCycling";
}

#[derive(Clone, Debug, PartialEq, Eq)]
pub struct GetCompletionsParams {
    pub uri: String,
    pub position: Position,
}

pub struct GetCompletionsParamsView {
    pub uri: Seq<char>,
    pub position: Position,
}

impl View for GetCompletionsParams {
    type V = GetCompletionsParamsView;

    open spec fn view(&self) -> GetCompletionsParamsView {
        GetCompletionsParamsView { uri: self.uri@, position: self.position }
    }
}

#[derive(Clone, Debug, PartialEq, Eq)]
pub struct GetCompletionsDocument {
    pub tab_size: u32,
    pub indent_size: u32,
    pub insert_spaces: bool,
    pub uri: String,
    pub relative_path: String,
    pub position: Position,
    pub version: usize,
}

#[derive(Clone, Debug, PartialEq, Eq)]
pub struct GetCompletionsResult {
    pub completions: Vec<Completion>,
}

/// A completion as the remote endpoint proposes it: the text to insert and
/// the span of the document that it replaces, in the endpoint's coordinates.
#[derive(Clone, Debug, PartialEq, Eq)]
pub struct Completion {
    pub insert_text: String,
    pub id: String,
    pub range: Range,
}

pub struct CompletionView {
    pub insert_text: Seq<char>,
    pub id: Seq<char>,
    pub range: Range,
}

impl View for Completion {
    type V = CompletionView;

    open spec fn view(&self) -> CompletionView {
        CompletionView { insert_text: self.insert_text@, id: self.id@, range: self.range }
    }
}

/// Notification: a document was opened.
pub struct DidOpenTextDocument;

impl DidOpenTextDocument {
    pub const METHOD: &'static str = "textDocument/didOpen";
}

#[derive(Clone, Debug, PartialEq, Eq)]
pub struct DidOpenTextDocumentParams {
    pub uri: String,
    pub content: String,
    pub language_id: String,
    /// The number of changes that the remote endpoint has seen.
    pub version: i32,
}

pub struct DidOpenTextDocumentParamsView {
    pub uri: Seq<char>,
    pub content: Seq<char>,
    pub language_id: Seq<char>,
    pub version: i32,
}

impl View for DidOpenTextDocumentParams {
    type V = DidOpenTextDocumentParamsView;

    open spec fn view(&self) -> DidOpenTextDocumentParamsView {
        DidOpenTextDocumentParamsView {
            uri: self.uri@,
            content: self.content@,
            language_id: self.language_id@,
            version: self.version,
        }
    }
}

/// Notification: a document's content was replaced.
pub struct DidChangeTextDocument;

impl DidChangeTextDocument {
    pub const METHOD: &'static str = "textDocument/didChange";
}

#[derive(Debug, PartialEq, Eq)]
pub struct DidChangeTextDocumentParams {
    pub uri: String,
    /// The whole new content.
    pub content: String,
    /// The number of changes that the remote endpoint has seen with this one.
    pub version: i32,
    /// What changed, as replace ranges.
    pub content_changes: Vec<ContentChange>,
}

pub struct DidChangeTextDocumentParamsView {
    pub uri: Seq<char>,
    pub content: Seq<char>,
    pub version: i32,
    pub content_changes: Seq<ContentChangeView>,
}

impl View for DidChangeTextDocumentParams {
    type V = DidChangeTextDocumentParamsView;

    open spec fn view(&self) -> DidChangeTextDocumentParamsView {
        DidChangeTextDocumentParamsView {
            uri: self.uri@,
            content: self.content@,
            version: self.version,
            content_changes: changes_view(self.content_changes@),
        }
    }
}

/// Notification: a document was closed.
pub struct DidCloseTextDocument;

impl DidCloseTextDocument {
    pub const METHOD: &'static str = "textDocument/didClose";
}

#[derive(Clone, Debug, PartialEq, Eq)]
pub struct DidCloseTextDocumentParams {
    pub uri: String,
}

/// Notification: a document was saved.
pub struct DidSaveTextDocument;

impl DidSaveTextDocument {
    pub const METHOD: &'static str = "textDocument/didSave";
}

#[derive(Clone, Debug, PartialEq, Eq)]
pub struct DidSaveTextDocumentParams {
    pub uri: String,
}

/// Notification from the remote endpoint: a line for the log.
pub struct LogMessage;

impl LogMessage {
    pub const METHOD: &'static str = "LogMessage";
}

#[derive(Clone, Debug, PartialEq, Eq)]
pub struct LogMessageParams {
    pub level: u8,
    pub message: String,
    pub metadata_str: String,
    pub extra: Vec<String>,
}

/// Notification from the remote endpoint: a progress report. The session
/// takes no action on it.
pub struct StatusNotification;

impl StatusNotification {
    pub const METHOD: &'static str = "statusNotification";
}

#[derive(Clone, Debug, PartialEq, Eq)]
pub struct StatusNotificationParams {
    pub message: String,
    /// Either `Normal` or `InProgress`.
    pub status: String,
}

/// Request: tells the remote endpoint which editor it serves.
pub struct SetEditorInfo;

impl SetEditorInfo {
    pub const METHOD: &'static str = "setEditorInfo";
}

#[derive(Clone, Debug, PartialEq, Eq)]
pub struct SetEditorInfoParams {
    pub editor_info: EditorInfo,
    pub editor_plugin_info: EditorPluginInfo,
}

#[derive(Clone, Debug, PartialEq, Eq)]
pub struct EditorInfo {
    pub name: String,
    pub version: String,
}

#[derive(Clone, Debug, PartialEq, Eq)]
pub struct EditorPluginInfo {
    pub name: String,
    pub version: String,
}

/// Request: the user took a completion.
pub struct NotifyAccepted;

impl NotifyAccepted {
    pub const METHOD: &'static str = "notifyAccepted";
}

#[derive(Clone, Debug, PartialEq, Eq)]
pub struct NotifyAcceptedParams {
    pub uuid: String,
}

/// Request: the user passed over completions.
pub struct NotifyRejected;

impl NotifyRejected {
    pub const METHOD: &'static str = "notifyRejected";
}

#[derive(Clone, Debug, PartialEq, Eq)]
pub struct NotifyRejectedParams {
    pub uuids: Vec<String>,
}

} // verus!
