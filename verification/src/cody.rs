//! The coordinator: the operations that the host calls, each one a step
//! from the state before to the state after and to what has to be sent.
//!
//! The coordinator performs no input or output. Where an operation has to
//! reach the remote endpoint, it returns what to send; where it has to wait
//! for an answer, the answer comes back in a call of its own.

use crate::buffer::{
    id_for_language, language_id, snapshot_of, uri_for_buffer, uri_text, Buffer, BufferView,
};
use crate::notification::{sent, Notification, NotificationView};
use crate::request;
use crate::server::{
    prompt_view, table_view, CodyServer, CodyServerView, RegisteredBuffer, RegisteredBufferView,
    RunningCodyServer, RunningCodyServerView, SignInStatus, SignInStatusView,
};
use crate::wellformed::{
    lemma_lifecycle_keeps_wf, lemma_register_keeps_wf, lemma_release_keeps_wf,
    lemma_unregister_keeps_wf,
};
use std::collections::HashMap;
use vstd::prelude::*;

verus! {

broadcast use vstd::std_specs::hash::group_hash_axioms;

/// The session, and every document that the host has shown to the
/// coordinator and not yet disposed of.
#[derive(Debug)]
pub struct Cody {
    pub server: CodyServer,
    pub buffers: Vec<u64>,
}

pub struct CodyView {
    pub server: CodyServerView,
    pub buffers: Seq<u64>,
}

impl View for Cody {
    type V = CodyView;

    open spec fn view(&self) -> CodyView {
        CodyView { server: self.server@, buffers: self.buffers@ }
    }
}

/// What the coordinator tells its observers.
#[derive(Clone, Copy, Debug, PartialEq, Eq, Structural)]
pub enum Event {
    CodyLanguageServerStarted,
}

/// The known documents once `id` is known: it is added at the end unless
/// it is there already.
pub open spec fn known_with(buffers: Seq<u64>, id: u64) -> Seq<u64> {
    if buffers.contains(id) {
        buffers
    } else {
        buffers.push(id)
    }
}

/// The choice of every document but `id`.
pub open spec fn other_than(id: u64) -> spec_fn(u64) -> bool {
    |known: u64| known != id
}

/// The known documents without `id`.
pub open spec fn known_without(buffers: Seq<u64>, id: u64) -> Seq<u64> {
    buffers.filter(other_than(id))
}

/// The table entry of a document that is registered now: its identity, its
/// whole content, and no change sent yet.
pub open spec fn opened(buffer: BufferView) -> RegisteredBufferView {
    RegisteredBufferView {
        uri: uri_text(buffer.file_uri, buffer.id),
        language_id: language_id(buffer.language),
        snapshot: snapshot_of(buffer),
        snapshot_version: 0,
    }
}

/// The notification that opens a document as its table entry describes it.
pub open spec fn open_notification(registered: RegisteredBufferView) -> NotificationView {
    NotificationView::DidOpen {
        uri: registered.uri,
        language_id: registered.language_id,
        version: registered.snapshot_version,
        content: registered.snapshot.text,
    }
}

/// The notification that closes a document under the identity in its table entry.
pub open spec fn close_notification(registered: RegisteredBufferView) -> NotificationView {
    NotificationView::DidClose { uri: registered.uri }
}

impl CodyServerView {
    /// The session with another table of open documents. A session that
    /// does not run has no table and stays as it is.
    pub open spec fn with_registered(
        self,
        table: Map<u64, RegisteredBufferView>,
    ) -> CodyServerView {
        match self {
            CodyServerView::Running(server) => CodyServerView::Running(
                RunningCodyServerView { registered_buffers: table, ..server },
            ),
            _ => self,
        }
    }
}

impl CodyView {
    /// Whether registering the document `id` opens it: the user is
    /// authorized and the document is not open yet.
    pub open spec fn registers(self, id: u64) -> bool {
        self.server.is_authorized() && !self.server.registered().dom().contains(id)
    }

    /// The state after the host has shown a document.
    pub open spec fn register(self, buffer: BufferView) -> CodyView {
        CodyView {
            server: if self.registers(buffer.id) {
                self.server.with_registered(
                    self.server.registered().insert(buffer.id, opened(buffer)),
                )
            } else {
                self.server
            },
            buffers: known_with(self.buffers, buffer.id),
        }
    }

    /// What is sent when the host shows a document.
    pub open spec fn register_sends(self, buffer: BufferView) -> Seq<NotificationView> {
        if self.registers(buffer.id) {
            seq![open_notification(opened(buffer))]
        } else {
            Seq::empty()
        }
    }

    /// The state after the document `id` is closed at the remote endpoint.
    pub open spec fn unregister(self, id: u64) -> CodyView {
        CodyView {
            server: self.server.with_registered(self.server.registered().remove(id)),
            ..self
        }
    }

    /// What is sent when the document `id` is closed at the remote endpoint.
    pub open spec fn unregister_sends(self, id: u64) -> Seq<NotificationView> {
        if self.server.registered().dom().contains(id) {
            seq![close_notification(self.server.registered()[id])]
        } else {
            Seq::empty()
        }
    }

    /// The state after the host has disposed of the document `id`.
    pub open spec fn release(self, id: u64) -> CodyView {
        CodyView { buffers: known_without(self.buffers, id), ..self.unregister(id) }
    }
}

/// Whether `id` occurs in `ids`.
pub fn contains_id(ids: &Vec<u64>, id: u64) -> (found: bool)
    ensures
        found == ids@.contains(id),
{
    let mut i: usize = 0;
    while i < ids.len()
        invariant
            i <= ids.len(),
            forall|j: int| 0 <= j < i ==> ids@[j] != id,
        decreases ids.len() - i,
    {
        if ids[i] == id {
            return true;
        }
        i += 1;
    }
    false
}

/// The list without every occurrence of `id`, the others in their order.
pub fn without_id(ids: &Vec<u64>, id: u64) -> (rest: Vec<u64>)
    ensures
        rest@ == known_without(ids@, id),
{
    let mut rest: Vec<u64> = Vec::new();
    let mut i: usize = 0;
    while i < ids.len()
        invariant
            i <= ids.len(),
            rest@ == known_without(ids@.take(i as int), id),
        decreases ids.len() - i,
    {
        proof {
            assert(ids@.take(i + 1).drop_last() =~= ids@.take(i as int));
            reveal(Seq::filter);
        }
        if ids[i] != id {
            rest.push(ids[i]);
        }
        i += 1;
    }
    assert(ids@.take(ids.len() as int) =~= ids@);
    rest
}

impl Cody {
    /// A coordinator whose session runs with an authorized user and no
    /// document open.
    pub fn fake() -> (cody: Cody)
        ensures
            cody@.server == CodyServerView::fresh().with_status(SignInStatusView::Authorized),
            cody@.buffers == Seq::<u64>::empty(),
            cody@.wf(),
    {
        let cody = Cody {
            server: CodyServer::Running(
                RunningCodyServer {
                    name: "cody".to_owned(),
                    sign_in_status: SignInStatus::Authorized,
                    registered_buffers: HashMap::new(),
                },
            ),
            buffers: Vec::new(),
        };
        assert(cody@.server.registered() =~= Map::<u64, RegisteredBufferView>::empty());
        cody
    }

    /// Takes note of a document of the host, and opens it at the remote
    /// endpoint where the user is authorized and the document is not open
    /// yet. Returns the notification to send, if any.
    pub fn register_buffer(&mut self, buffer: &Buffer) -> (notification: Option<Notification>)
        ensures
            final(self)@ == old(self)@.register(buffer@),
            sent(notification) == old(self)@.register_sends(buffer@),
            old(self)@.wf() ==> final(self)@.wf(),
    {
        proof {
            if old(self)@.wf() {
                lemma_register_keeps_wf(old(self)@, buffer@);
            }
        }
        if !contains_id(&self.buffers, buffer.id) {
            self.buffers.push(buffer.id);
        }
        match &mut self.server {
            CodyServer::Running(server) => {
                if !matches!(server.sign_in_status, SignInStatus::Authorized) {
                    return None;
                }
                if server.registered_buffers.contains_key(&buffer.id) {
                    return None;
                }
                let uri = uri_for_buffer(buffer);
                let language_id = id_for_language(&buffer.language);
                let snapshot = buffer.snapshot();
                let notification = Notification::DidOpen {
                    uri: uri.clone(),
                    language_id: language_id.clone(),
                    version: 0,
                    content: snapshot.text.clone(),
                };
                let registered = RegisteredBuffer {
                    uri,
                    language_id,
                    snapshot,
                    snapshot_version: 0,
                };
                let ghost table = server.registered_buffers@;
                server.registered_buffers.insert(buffer.id, registered);
                assert(table_view(table.insert(buffer.id, registered)) =~= table_view(table).insert(
                    buffer.id,
                    registered@,
                ));
                Some(notification)
            },
            _ => None,
        }
    }

    /// Closes a document at the remote endpoint, where it is open there.
    /// Returns the notification to send, if any.
    pub fn unregister_buffer(&mut self, id: u64) -> (notification: Option<Notification>)
        ensures
            final(self)@ == old(self)@.unregister(id),
            sent(notification) == old(self)@.unregister_sends(id),
            old(self)@.wf() ==> final(self)@.wf(),
    {
        proof {
            if old(self)@.wf() {
                lemma_unregister_keeps_wf(old(self)@, id);
            }
        }
        match &mut self.server {
            CodyServer::Running(server) => {
                let ghost table = server.registered_buffers@;
                let removed = server.registered_buffers.remove(&id);
                assert(table_view(table.remove(id)) =~= table_view(table).remove(id));
                match removed {
                    Some(registered) => Some(Notification::DidClose { uri: registered.uri }),
                    None => None,
                }
            },
            _ => None,
        }
    }

    /// The host has disposed of a document: it is forgotten, and closed at
    /// the remote endpoint where it is open there.
    pub fn release_buffer(&mut self, id: u64) -> (notification: Option<Notification>)
        ensures
            final(self)@ == old(self)@.release(id),
            sent(notification) == old(self)@.unregister_sends(id),
            old(self)@.wf() ==> final(self)@.wf(),
    {
        proof {
            if old(self)@.wf() {
                lemma_release_keeps_wf(old(self)@, id);
            }
        }
        self.buffers = without_id(&self.buffers, id);
        self.unregister_buffer(id)
    }
}

/// What the session shows of itself.
#[derive(Clone, Debug, PartialEq, Eq)]
pub enum Status {
    Starting,
    Error(String),
    Disabled,
    SignedOut,
    SigningIn { prompt: Option<request::PromptUserDeviceFlow> },
    Unauthorized,
    Authorized,
}

pub enum StatusView {
    Starting,
    Error(Seq<char>),
    Disabled,
    SignedOut,
    SigningIn { prompt: Option<request::PromptUserDeviceFlowView> },
    Unauthorized,
    Authorized,
}

impl View for Status {
    type V = StatusView;

    open spec fn view(&self) -> StatusView {
        match *self {
            Status::Starting => StatusView::Starting,
            Status::Error(message) => StatusView::Error(message@),
            Status::Disabled => StatusView::Disabled,
            Status::SignedOut => StatusView::SignedOut,
            Status::SigningIn { prompt } => StatusView::SigningIn { prompt: prompt_view(prompt) },
            Status::Unauthorized => StatusView::Unauthorized,
            Status::Authorized => StatusView::Authorized,
        }
    }
}

impl Status {
    pub fn is_authorized(&self) -> (authorized: bool)
        ensures
            authorized == (self@ is Authorized),
    {
        matches!(self, Status::Authorized)
    }
}

impl CodyServerView {
    /// What a session shows of itself.
    pub open spec fn status(self) -> StatusView {
        match self {
            CodyServerView::Starting => StatusView::Starting,
            CodyServerView::Disabled => StatusView::Disabled,
            CodyServerView::Error(message) => StatusView::Error(message),
            CodyServerView::Running(server) => match server.sign_in_status {
                SignInStatusView::Authorized => StatusView::Authorized,
                SignInStatusView::Unauthorized => StatusView::Unauthorized,
                SignInStatusView::SigningIn { prompt } => StatusView::SigningIn { prompt },
                SignInStatusView::SignedOut => StatusView::SignedOut,
            },
        }
    }

    /// A session that has just come up: no user, no document.
    pub open spec fn fresh() -> CodyServerView {
        CodyServerView::Running(
            RunningCodyServerView {
                name: "cody"@,
                sign_in_status: SignInStatusView::SignedOut,
                registered_buffers: Map::empty(),
            },
        )
    }
}

impl CodyView {
    /// Whether switching the feature on or off starts the session: it is
    /// switched on, and the session is off.
    pub open spec fn starts(self, enabled: bool) -> bool {
        enabled && self.server is Disabled
    }

    /// The state after the feature was switched on or off.
    pub open spec fn enabled(self, enabled: bool) -> CodyView {
        CodyView {
            server: if !enabled {
                CodyServerView::Disabled
            } else if self.server is Disabled {
                CodyServerView::Starting
            } else {
                self.server
            },
            ..self
        }
    }

    /// The state after the start of the session is over. After a success
    /// the session runs afresh: the user is signed out and no document is
    /// open. After a failure the session stays failed with the message.
    pub open spec fn started(self, outcome: Result<(), Seq<char>>) -> CodyView {
        match outcome {
            Ok(_) => CodyView { server: CodyServerView::fresh(), ..self },
            Err(message) => CodyView { server: CodyServerView::Error(message), ..self },
        }
    }
}

impl Cody {
    /// A coordinator with no document. Returns with it whether the session
    /// has to be started, which is so where the feature is switched on.
    pub fn start(enabled: bool) -> (result: (Cody, bool))
        ensures
            result.0@ == (CodyView {
                server: CodyServerView::Disabled,
                buffers: Seq::empty(),
            }).enabled(enabled),
            result.1 == enabled,
            result.0@.wf(),
    {
        let mut this = Cody { server: CodyServer::Disabled, buffers: Vec::new() };
        let start = this.enable_or_disable_cody(enabled);
        (this, start)
    }

    /// Drops the session. Returns whether there was a connection, which
    /// the caller then has to shut down.
    pub fn shutdown_language_server(&mut self) -> (shutdown: bool)
        ensures
            final(self)@ == (CodyView { server: CodyServerView::Disabled, ..old(self)@ }),
            shutdown == (old(self)@.server is Running),
            old(self)@.wf() ==> final(self)@.wf(),
    {
        proof {
            if old(self)@.wf() {
                lemma_lifecycle_keeps_wf(old(self)@, true);
            }
        }
        let shutdown = matches!(self.server, CodyServer::Running(_));
        self.server = CodyServer::Disabled;
        shutdown
    }

    /// Follows the setting that switches the feature on or off. Switched
    /// off, the session is dropped with its connection, whatever its state.
    /// Switched on, a session that is off starts. Returns whether the
    /// caller has to start it; otherwise whoever waits for a start waits
    /// for the one in flight.
    pub fn enable_or_disable_cody(&mut self, enabled: bool) -> (start: bool)
        ensures
            final(self)@ == old(self)@.enabled(enabled),
            start == old(self)@.starts(enabled),
            old(self)@.wf() ==> final(self)@.wf(),
    {
        proof {
            if old(self)@.wf() {
                lemma_lifecycle_keeps_wf(old(self)@, enabled);
            }
        }
        if enabled {
            if matches!(self.server, CodyServer::Disabled) {
                self.server = CodyServer::Starting;
                true
            } else {
                false
            }
        } else {
            self.server = CodyServer::Disabled;
            false
        }
    }

    /// Starts the session afresh, whatever its state. The caller clears
    /// what was installed and starts it.
    pub fn reinstall(&mut self)
        ensures
            final(self)@ == (CodyView { server: CodyServerView::Starting, ..old(self)@ }),
            old(self)@.wf() ==> final(self)@.wf(),
    {
        proof {
            if old(self)@.wf() {
                lemma_lifecycle_keeps_wf(old(self)@, true);
            }
        }
        self.server = CodyServer::Starting;
    }

    /// The start of the session is over. Where it succeeded, the session
    /// runs with the user signed out and no document open, and the
    /// observers are told; nothing is sent, and no document is opened
    /// before a sign-in succeeds. Where it failed, the session stays failed
    /// with the message until it is started afresh.
    pub fn language_server_started(&mut self, outcome: Result<(), String>) -> (event: Option<Event>)
        ensures
            final(self)@ == old(self)@.started(
                match outcome {
                    Ok(_) => Ok(()),
                    Err(message) => Err(message@),
                },
            ),
            event == if outcome is Ok {
                Some(Event::CodyLanguageServerStarted)
            } else {
                None
            },
            old(self)@.wf() ==> final(self)@.wf(),
    {
        proof {
            if old(self)@.wf() {
                lemma_lifecycle_keeps_wf(old(self)@, true);
            }
        }
        match outcome {
            Ok(_) => {
                self.server = CodyServer::Running(
                    RunningCodyServer {
                        name: "cody".to_owned(),
                        sign_in_status: SignInStatus::SignedOut,
                        registered_buffers: HashMap::new(),
                    },
                );
                assert(self@.server.registered() =~= Map::<u64, RegisteredBufferView>::empty());
                Some(Event::CodyLanguageServerStarted)
            },
            Err(message) => {
                self.server = CodyServer::Error(message);
                None
            },
        }
    }

    /// The name of the running session.
    pub fn language_server(&self) -> (name: Option<&String>)
        ensures
            match name {
                Some(name) => self@.server is Running && self@.server->Running_0.name == name@,
                None => !(self@.server is Running),
            },
    {
        match &self.server {
            CodyServer::Running(server) => Some(&server.name),
            _ => None,
        }
    }

    /// What the session shows of itself.
    pub fn status(&self) -> (status: Status)
        ensures
            status@ == self@.server.status(),
    {
        match &self.server {
            CodyServer::Starting => Status::Starting,
            CodyServer::Disabled => Status::Disabled,
            CodyServer::Error(error) => Status::Error(error.clone()),
            CodyServer::Running(server) => match &server.sign_in_status {
                SignInStatus::Authorized => Status::Authorized,
                SignInStatus::Unauthorized => Status::Unauthorized,
                SignInStatus::SigningIn { prompt } => Status::SigningIn {
                    prompt: match prompt {
                        Some(prompt) => Some(prompt.clone()),
                        None => None,
                    },
                },
                SignInStatus::SignedOut => Status::SignedOut,
            },
        }
    }
}

} // verus!
