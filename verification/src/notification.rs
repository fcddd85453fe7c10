//! What the session sends to the remote endpoint about its documents.

use crate::request;
use crate::sync::{changes_view, ContentChange, ContentChangeView};
use vstd::prelude::*;

verus! {

/// A notification about one document, for the remote endpoint.
#[derive(Clone, Debug, PartialEq, Eq)]
pub enum Notification {
    /// The document is opened with its whole content.
    DidOpen { uri: String, language_id: String, version: i32, content: String },
    /// The document's content is replaced. The replace ranges say what
    /// changed; the content is the whole new content.
    DidChange { uri: String, version: i32, content_changes: Vec<ContentChange>, content: String },
    DidClose { uri: String },
    DidSave { uri: String },
}

pub enum NotificationView {
    DidOpen { uri: Seq<char>, language_id: Seq<char>, version: i32, content: Seq<char> },
    DidChange {
        uri: Seq<char>,
        version: i32,
        content_changes: Seq<ContentChangeView>,
        content: Seq<char>,
    },
    DidClose { uri: Seq<char> },
    DidSave { uri: Seq<char> },
}

impl View for Notification {
    type V = NotificationView;

    open spec fn view(&self) -> NotificationView {
        match *self {
            Notification::DidOpen {
                uri,
                language_id,
                version,
                content,
            } => NotificationView::DidOpen {
                uri: uri@,
                language_id: language_id@,
                version,
                content: content@,
            },
            Notification::DidChange {
                uri,
                version,
                content_changes,
                content,
            } => NotificationView::DidChange {
                uri: uri@,
                version,
                content_changes: changes_view(content_changes@),
                content: content@,
            },
            Notification::DidClose { uri } => NotificationView::DidClose { uri: uri@ },
            Notification::DidSave { uri } => NotificationView::DidSave { uri: uri@ },
        }
    }
}

/// The views of a sequence of notifications.
pub open spec fn notifications_view(notifications: Seq<Notification>) -> Seq<NotificationView> {
    notifications.map_values(|notification: Notification| notification@)
}

/// The view of an optional notification, as a sequence of none or one.
pub open spec fn sent(notification: Option<Notification>) -> Seq<NotificationView> {
    match notification {
        Some(notification) => seq![notification@],
        None => Seq::empty(),
    }
}

/// The wire name of a notification.
pub open spec fn method_text(notification: NotificationView) -> Seq<char> {
    match notification {
        NotificationView::DidOpen { .. } => "textDocument/didOpen"@,
        NotificationView::DidChange { .. } => "textDocument/didChange"@,
        NotificationView::DidClose { .. } => "textDocument/didClose"@,
        NotificationView::DidSave { .. } => "textDocument/didSave"@,
    }
}

impl Notification {
    pub fn method(&self) -> (name: &'static str)
        ensures
            name@ == method_text(self@),
    {
        match self {
            Notification::DidOpen { .. } => request::DidOpenTextDocument::METHOD,
            Notification::DidChange { .. } => request::DidChangeTextDocument::METHOD,
            Notification::DidClose { .. } => request::DidCloseTextDocument::METHOD,
            Notification::DidSave { .. } => request::DidSaveTextDocument::METHOD,
        }
    }
}

} // verus!
