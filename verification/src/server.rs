//! The session with the remote endpoint: whether it runs, whether the
//! user is authorized, and which documents the endpoint has open.

use crate::buffer::{BufferSnapshot, BufferSnapshotView};
use crate::request::{PromptUserDeviceFlow, PromptUserDeviceFlowView};
use std::collections::HashMap;
use vstd::prelude::*;
use vstd::string::StringExecFns;

verus! {

broadcast use vstd::std_specs::hash::group_hash_axioms;

/// Why an operation cannot proceed.
#[derive(Clone, Debug, PartialEq, Eq)]
pub enum Error {
    /// The feature is switched off.
    Disabled,
    /// The session is not ready yet.
    StillStarting,
    /// The session failed to start, and stays failed until a reinstall.
    StartupFailed(String),
    /// The session runs, but the user is not signed in.
    NotAuthorized,
    /// The sign-in exchange failed.
    AuthFailed(String),
}

pub enum ErrorView {
    Disabled,
    StillStarting,
    StartupFailed(Seq<char>),
    NotAuthorized,
    AuthFailed(Seq<char>),
}

impl View for Error {
    type V = ErrorView;

    open spec fn view(&self) -> ErrorView {
        match *self {
            Error::Disabled => ErrorView::Disabled,
            Error::StillStarting => ErrorView::StillStarting,
            Error::StartupFailed(message) => ErrorView::StartupFailed(message@),
            Error::NotAuthorized => ErrorView::NotAuthorized,
            Error::AuthFailed(message) => ErrorView::AuthFailed(message@),
        }
    }
}

/// The words in which an error is reported to the user.
pub open spec fn error_text(error: ErrorView) -> Seq<char> {
    match error {
        ErrorView::Disabled => "cody is disabled"@,
        ErrorView::StillStarting => "cody is still starting"@,
        ErrorView::StartupFailed(message) => "cody was not started because of an error: "@
            + message,
        ErrorView::NotAuthorized => "must sign in before using cody"@,
        ErrorView::AuthFailed(message) => "sign in failed: "@ + message,
    }
}

impl Error {
    pub fn message(&self) -> (text: String)
        ensures
            text@ == error_text(self@),
    {
        match self {
            Error::Disabled => String::from_str("cody is disabled"),
            Error::StillStarting => String::from_str("cody is still starting"),
            Error::StartupFailed(message) => String::from_str(
                "cody was not started because of an error: ",
            ).concat(message.as_str()),
            Error::NotAuthorized => String::from_str("must sign in before using cody"),
            Error::AuthFailed(message) => String::from_str("sign in failed: ").concat(
                message.as_str(),
            ),
        }
    }
}

/// Where the user stands with the remote service.
#[derive(Clone, Debug, PartialEq, Eq)]
pub enum SignInStatus {
    Authorized,
    Unauthorized,
    /// A sign-in is in flight. The prompt is there once the remote endpoint
    /// has asked for the device to be authorized.
    SigningIn { prompt: Option<PromptUserDeviceFlow> },
    SignedOut,
}

pub enum SignInStatusView {
    Authorized,
    Unauthorized,
    SigningIn { prompt: Option<PromptUserDeviceFlowView> },
    SignedOut,
}

/// The view of an optional prompt.
pub open spec fn prompt_view(prompt: Option<PromptUserDeviceFlow>) -> Option<
    PromptUserDeviceFlowView,
> {
    match prompt {
        Some(prompt) => Some(prompt@),
        None => None,
    }
}

impl View for SignInStatus {
    type V = SignInStatusView;

    open spec fn view(&self) -> SignInStatusView {
        match *self {
            SignInStatus::Authorized => SignInStatusView::Authorized,
            SignInStatus::Unauthorized => SignInStatusView::Unauthorized,
            SignInStatus::SigningIn { prompt } => SignInStatusView::SigningIn {
                prompt: prompt_view(prompt),
            },
            SignInStatus::SignedOut => SignInStatusView::SignedOut,
        }
    }
}

/// A document that the remote endpoint has open: the identity under which
/// it was opened, the content that the endpoint has seen last, and the
/// number of changes that were sent since the document was registered.
#[derive(Clone, Debug, PartialEq, Eq)]
pub struct RegisteredBuffer {
    pub uri: String,
    pub language_id: String,
    pub snapshot: BufferSnapshot,
    pub snapshot_version: i32,
}

pub struct RegisteredBufferView {
    pub uri: Seq<char>,
    pub language_id: Seq<char>,
    pub snapshot: BufferSnapshotView,
    pub snapshot_version: i32,
}

impl View for RegisteredBuffer {
    type V = RegisteredBufferView;

    open spec fn view(&self) -> RegisteredBufferView {
        RegisteredBufferView {
            uri: self.uri@,
            language_id: self.language_id@,
            snapshot: self.snapshot@,
            snapshot_version: self.snapshot_version,
        }
    }
}

/// A session that runs.
#[derive(Debug)]
pub struct RunningCodyServer {
    pub name: String,
    pub sign_in_status: SignInStatus,
    pub registered_buffers: HashMap<u64, RegisteredBuffer>,
}

pub struct RunningCodyServerView {
    pub name: Seq<char>,
    pub sign_in_status: SignInStatusView,
    pub registered_buffers: Map<u64, RegisteredBufferView>,
}

/// The views of the documents in a table.
pub open spec fn table_view(table: Map<u64, RegisteredBuffer>) -> Map<u64, RegisteredBufferView> {
    table.map_values(|registered: RegisteredBuffer| registered@)
}

impl View for RunningCodyServer {
    type V = RunningCodyServerView;

    open spec fn view(&self) -> RunningCodyServerView {
        RunningCodyServerView {
            name: self.name@,
            sign_in_status: self.sign_in_status@,
            registered_buffers: table_view(self.registered_buffers@),
        }
    }
}

/// The session: switched off, on its way up, failed, or running.
#[derive(Debug)]
pub enum CodyServer {
    Disabled,
    /// One start is in flight. Whoever asks meanwhile waits for that one.
    Starting,
    Error(String),
    Running(RunningCodyServer),
}

pub enum CodyServerView {
    Disabled,
    Starting,
    Error(Seq<char>),
    Running(RunningCodyServerView),
}

impl View for CodyServer {
    type V = CodyServerView;

    open spec fn view(&self) -> CodyServerView {
        match *self {
            CodyServer::Disabled => CodyServerView::Disabled,
            CodyServer::Starting => CodyServerView::Starting,
            CodyServer::Error(message) => CodyServerView::Error(message@),
            CodyServer::Running(server) => CodyServerView::Running(server@),
        }
    }
}

impl CodyServerView {
    /// Why the session cannot serve, where it does not run.
    pub open spec fn not_running(self) -> Option<ErrorView> {
        match self {
            CodyServerView::Starting => Some(ErrorView::StillStarting),
            CodyServerView::Disabled => Some(ErrorView::Disabled),
            CodyServerView::Error(message) => Some(ErrorView::StartupFailed(message)),
            CodyServerView::Running(_) => None,
        }
    }

    /// Why the session cannot serve an authorized user: it does not run, or
    /// it runs and the user is not authorized.
    pub open spec fn not_authorized(self) -> Option<ErrorView> {
        match self {
            CodyServerView::Running(server) => if server.sign_in_status
                is Authorized {
                None
            } else {
                Some(ErrorView::NotAuthorized)
            },
            _ => self.not_running(),
        }
    }

    /// Whether the session runs with an authorized user.
    pub open spec fn is_authorized(self) -> bool {
        self.not_authorized() is None
    }

    /// The documents that the remote endpoint has open. None where the
    /// session does not run.
    pub open spec fn registered(self) -> Map<u64, RegisteredBufferView> {
        match self {
            CodyServerView::Running(server) => server.registered_buffers,
            _ => Map::empty(),
        }
    }
}

impl CodyServer {
    /// The running session, or the reason why there is none.
    pub fn as_running(&mut self) -> (result: Result<&mut RunningCodyServer, Error>)
        ensures
            match result {
                Ok(server) => {
                    &&& old(self)@.not_running() is None
                    &&& *old(self) == CodyServer::Running(*server)
                    &&& *final(self) == CodyServer::Running(*final(server))
                },
                Err(error) => {
                    &&& old(self)@.not_running() == Some(error@)
                    &&& *final(self) == *old(self)
                },
            },
    {
        match self {
            CodyServer::Starting => Err(Error::StillStarting),
            CodyServer::Disabled => Err(Error::Disabled),
            CodyServer::Error(error) => Err(Error::StartupFailed(error.clone())),
            CodyServer::Running(server) => Ok(server),
        }
    }

    /// The running session of an authorized user, or the reason why there
    /// is none.
    pub fn as_authenticated(&mut self) -> (result: Result<&mut RunningCodyServer, Error>)
        ensures
            match result {
                Ok(server) => {
                    &&& old(self)@.not_authorized() is None
                    &&& *old(self) == CodyServer::Running(*server)
                    &&& *final(self) == CodyServer::Running(*final(server))
                },
                Err(error) => {
                    &&& old(self)@.not_authorized() == Some(error@)
                    &&& *final(self) == *old(self)
                },
            },
    {
        let server = self.as_running()?;
        if matches!(server.sign_in_status, SignInStatus::Authorized) {
            Ok(server)
        } else {
            Err(Error::NotAuthorized)
        }
    }
}

} // verus!
