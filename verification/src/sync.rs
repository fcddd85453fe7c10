//! From the host's record of what changed in a document to the replace
//! ranges that describe the change to the remote endpoint.

use crate::buffer::{
    id_for_language, language_id, snapshot_of, uri_for_buffer, uri_text, Buffer, BufferSnapshot,
    BufferSnapshotView, BufferView,
};
use crate::diff::{diff, text_diff};
use crate::cody::{close_notification, open_notification, Cody, CodyView};
use crate::notification::{notifications_view, sent, Notification, NotificationView};
use crate::point::{lsp_of_point, point_to_lsp, PointUtf16, Range};
use crate::server::{table_view, CodyServer, RegisteredBuffer, RegisteredBufferView, SignInStatus};
use crate::wellformed::{lemma_buffer_event_keeps_wf, lemma_commit_keeps_wf};
use vstd::prelude::*;

verus! {

broadcast use vstd::std_specs::hash::group_hash_axioms;

/// One contiguous change between two versions of a document, as the host
/// reports it: the span that was replaced, in the coordinates of the older
/// version, and the span and text that took its place in the newer one.
#[derive(Clone, Debug, PartialEq, Eq)]
pub struct Edit {
    pub old_start: PointUtf16,
    pub old_end: PointUtf16,
    pub new_start: PointUtf16,
    pub new_end: PointUtf16,
    pub new_text: String,
}

pub struct EditView {
    pub old_start: PointUtf16,
    pub old_end: PointUtf16,
    pub new_start: PointUtf16,
    pub new_end: PointUtf16,
    pub new_text: Seq<char>,
}

impl View for Edit {
    type V = EditView;

    open spec fn view(&self) -> EditView {
        EditView {
            old_start: self.old_start,
            old_end: self.old_end,
            new_start: self.new_start,
            new_end: self.new_end,
            new_text: self.new_text@,
        }
    }
}

/// A replace range: the span to replace and the text that replaces it.
#[derive(Debug, PartialEq, Eq)]
pub struct ContentChange {
    pub range: Range,
    pub text: String,
}

pub struct ContentChangeView {
    pub range: Range,
    pub text: Seq<char>,
}

impl View for ContentChange {
    type V = ContentChangeView;

    open spec fn view(&self) -> ContentChangeView {
        ContentChangeView { range: self.range, text: self.text@ }
    }
}

impl Clone for ContentChange {
    fn clone(&self) -> (copy: Self)
        ensures
            copy == *self,
    {
        ContentChange { range: self.range, text: self.text.clone() }
    }
}

/// The views of a sequence of replace ranges.
pub open spec fn changes_view(changes: Seq<ContentChange>) -> Seq<ContentChangeView> {
    changes.map_values(|change: ContentChange| change@)
}

/// The views of a sequence of edits.
pub open spec fn edits_view(edits: Seq<Edit>) -> Seq<EditView> {
    edits.map_values(|edit: Edit| edit@)
}

/// Where the replaced span of an edit ends when it is laid out from the
/// place where the new text starts: the start of the new text moved by the
/// extent of the old span. `None` where the old span ends before it starts,
/// or where the end does not fit in 32 bits.
pub open spec fn replaced_end(edit: EditView) -> Option<PointUtf16> {
    match edit.old_end.minus(edit.old_start) {
        Some(extent) => edit.new_start.plus(extent),
        None => None,
    }
}

/// The replace range of an edit: it starts where the new text starts, spans
/// the extent of what was replaced, and carries the new text.
pub open spec fn change_of(edit: EditView) -> Option<ContentChangeView> {
    match replaced_end(edit) {
        Some(end) => Some(
            ContentChangeView {
                range: Range { start: lsp_of_point(edit.new_start), end: lsp_of_point(end) },
                text: edit.new_text,
            },
        ),
        None => None,
    }
}

/// The replace ranges of a list of edits, in the order of the edits. `None`
/// where one of the edits has no replace range.
pub open spec fn changes_of(edits: Seq<EditView>) -> Option<Seq<ContentChangeView>> {
    if forall|i: int| 0 <= i < edits.len() ==> (#[trigger] change_of(edits[i])) is Some {
        Some(Seq::new(edits.len(), |i: int| change_of(edits[i]).unwrap()))
    } else {
        None
    }
}

pub fn content_change(edit: &Edit) -> (change: Option<ContentChange>)
    ensures
        match change {
            Some(change) => change_of(edit@) == Some(change@),
            None => change_of(edit@) is None,
        },
{
    let extent = match edit.old_end.checked_sub(edit.old_start) {
        Some(extent) => extent,
        None => { return None; },
    };
    let end = match edit.new_start.checked_add(extent) {
        Some(end) => end,
        None => { return None; },
    };
    Some(
        ContentChange {
            range: Range { start: point_to_lsp(edit.new_start), end: point_to_lsp(end) },
            text: edit.new_text.clone(),
        },
    )
}

pub fn content_changes(edits: &Vec<Edit>) -> (changes: Option<Vec<ContentChange>>)
    ensures
        match changes {
            Some(changes) => changes_of(edits_view(edits@)) == Some(changes_view(changes@)),
            None => changes_of(edits_view(edits@)) is None,
        },
{
    let mut changes: Vec<ContentChange> = Vec::new();
    let mut i: usize = 0;
    while i < edits.len()
        invariant
            i <= edits.len(),
            changes.len() == i,
            forall|j: int| 0 <= j < i ==> change_of(#[trigger] edits@[j]@) == Some(changes@[j]@),
        decreases edits.len() - i,
    {
        match content_change(&edits[i]) {
            Some(change) => {
                changes.push(change);
            },
            None => {
                assert(change_of(edits_view(edits@)[i as int]) is None);
                return None;
            },
        }
        i += 1;
    }
    proof {
        let views = edits_view(edits@);
        assert(changes_view(changes@) =~= Seq::new(
            views.len(),
            |j: int| change_of(views[j]).unwrap(),
        ));
    }
    Some(changes)
}

/// Where a document stands against what the remote endpoint has seen.
#[derive(Clone, Debug, PartialEq, Eq)]
pub enum SyncStep {
    /// The remote endpoint has seen the document as it is: this is the
    /// number of changes sent so far, and the content.
    Synced { version: i32, snapshot: BufferSnapshot },
    /// The document has changed since the version `since` of the host:
    /// what changed has to be worked out, sent and committed.
    Pending { since: u64 },
}

pub enum SyncStepView {
    Synced { version: i32, snapshot: BufferSnapshotView },
    Pending { since: u64 },
}

impl View for SyncStep {
    type V = SyncStepView;

    open spec fn view(&self) -> SyncStepView {
        match *self {
            SyncStep::Synced { version, snapshot } => SyncStepView::Synced {
                version,
                snapshot: snapshot@,
            },
            SyncStep::Pending { since } => SyncStepView::Pending { since },
        }
    }
}

/// A change that is ready to be sent. Nothing is counted and nothing is
/// stored before the change is committed, which is due once its
/// notification has gone out.
#[derive(Clone, Debug, PartialEq, Eq)]
pub struct PreparedChange {
    pub id: u64,
    /// The host's token of the content that the change was worked out from.
    pub since: u64,
    /// The content that the remote endpoint has seen once the change is sent.
    pub snapshot: BufferSnapshot,
    /// What to send. `None` where nothing changed.
    pub notification: Option<Notification>,
}

pub struct PreparedChangeView {
    pub id: u64,
    pub since: u64,
    pub snapshot: BufferSnapshotView,
    pub notification: Seq<NotificationView>,
}

impl View for PreparedChange {
    type V = PreparedChangeView;

    open spec fn view(&self) -> PreparedChangeView {
        PreparedChangeView {
            id: self.id,
            since: self.since,
            snapshot: self.snapshot@,
            notification: sent(self.notification),
        }
    }
}

/// The view of a prepared change, where there is one.
pub open spec fn prepared_view(change: Option<PreparedChange>) -> Option<PreparedChangeView> {
    match change {
        Some(change) => Some(change@),
        None => None,
    }
}

/// A document once it is up to date: the number of changes that were sent
/// for it, and the content that the remote endpoint has seen.
#[derive(Clone, Debug, PartialEq, Eq)]
pub struct Synced {
    pub version: i32,
    pub snapshot: BufferSnapshot,
}

pub struct SyncedView {
    pub version: i32,
    pub snapshot: BufferSnapshotView,
}

impl View for Synced {
    type V = SyncedView;

    open spec fn view(&self) -> SyncedView {
        SyncedView { version: self.version, snapshot: self.snapshot@ }
    }
}

/// The view of a document that is up to date, where it is.
pub open spec fn synced_view(synced: Option<Synced>) -> Option<SyncedView> {
    match synced {
        Some(synced) => Some(synced@),
        None => None,
    }
}

impl RegisteredBufferView {
    /// Where the document stands when the host has it at `version`.
    pub open spec fn report_changes(self, version: u64) -> SyncStepView {
        if version == self.snapshot.version {
            SyncStepView::Synced { version: self.snapshot_version, snapshot: self.snapshot }
        } else {
            SyncStepView::Pending { since: self.snapshot.version }
        }
    }

    /// Whether one more change can be counted for the document.
    pub open spec fn countable(self) -> bool {
        self.snapshot_version < i32::MAX
    }

    /// The table entry after one change that leads to `snapshot` was sent:
    /// it holds the new content and one change more.
    pub open spec fn changed(self, snapshot: BufferSnapshotView) -> RegisteredBufferView {
        RegisteredBufferView {
            snapshot,
            snapshot_version: (self.snapshot_version + 1) as i32,
            ..self
        }
    }

    /// What is to be sent for the changes that lead to `snapshot`: nothing
    /// where nothing changed, else one notification with the number of
    /// changes before and one more, the replace ranges and the whole new
    /// content.
    pub open spec fn change_sends(
        self,
        snapshot: BufferSnapshotView,
        changes: Seq<ContentChangeView>,
    ) -> Seq<NotificationView> {
        if changes.len() > 0 {
            seq![
                NotificationView::DidChange {
                    uri: self.uri,
                    version: (self.snapshot_version + 1) as i32,
                    content_changes: changes,
                    content: snapshot.text,
                },
            ]
        } else {
            Seq::empty()
        }
    }

    /// The table entry under the identity that the document has now.
    pub open spec fn identified(self, buffer: BufferView) -> RegisteredBufferView {
        RegisteredBufferView {
            uri: uri_text(buffer.file_uri, buffer.id),
            language_id: language_id(buffer.language),
            ..self
        }
    }
}

impl RegisteredBuffer {
    /// Compares the document with what the remote endpoint has seen of it.
    pub fn report_changes(&self, buffer: &Buffer) -> (step: SyncStep)
        ensures
            step@ == self@.report_changes(buffer@.version),
    {
        if buffer.version == self.snapshot.version {
            SyncStep::Synced { version: self.snapshot_version, snapshot: self.snapshot.clone() }
        } else {
            SyncStep::Pending { since: self.snapshot.version }
        }
    }
}

/// What happened to a document of the host.
#[derive(Clone, Copy, Debug, PartialEq, Eq, Structural)]
pub enum BufferEvent {
    Edited,
    Saved,
    FileHandleChanged,
    LanguageChanged,
    /// Anything else, which the session takes no note of.
    Other,
}

/// What the caller has to do after an event of a document.
#[derive(Clone, Debug, PartialEq, Eq)]
pub enum BufferAction {
    Nothing,
    /// Work out what changed in the document since the version `since`
    /// of the host, and apply it.
    Sync { since: u64 },
    /// Send these notifications, in their order.
    Send(Vec<Notification>),
}

pub enum BufferActionView {
    Nothing,
    Sync { since: u64 },
    Send(Seq<NotificationView>),
}

impl View for BufferAction {
    type V = BufferActionView;

    open spec fn view(&self) -> BufferActionView {
        match *self {
            BufferAction::Nothing => BufferActionView::Nothing,
            BufferAction::Sync { since } => BufferActionView::Sync { since },
            BufferAction::Send(notifications) => BufferActionView::Send(
                notifications_view(notifications@),
            ),
        }
    }
}

impl CodyView {
    /// Whether changes to the document `id` can be applied: the user is
    /// authorized and the document is open at the remote endpoint.
    pub open spec fn syncs(self, id: u64) -> bool {
        self.server.is_authorized() && self.server.registered().dom().contains(id)
    }

    /// Where a document stands against what the remote endpoint has seen.
    /// `None` where changes to it cannot be applied.
    pub open spec fn report_changes(self, buffer: BufferView) -> Option<SyncStepView> {
        if self.syncs(buffer.id) {
            Some(self.server.registered()[buffer.id].report_changes(buffer.version))
        } else {
            None
        }
    }

    /// Whether a change to the document `id` that was worked out from the
    /// content with the host's token `since` is in time: changes can be
    /// applied, and that content is the one that the remote endpoint has
    /// seen last.
    pub open spec fn accepts(self, id: u64, since: u64) -> bool {
        self.syncs(id) && self.server.registered()[id].snapshot.version == since
    }

    /// The change to send for the replace ranges that lead from the
    /// content with the token `since` to `snapshot`. `None` where the
    /// change is not in time, or where there is something to send and no
    /// further change can be counted.
    pub open spec fn prepared(
        self,
        id: u64,
        since: u64,
        snapshot: BufferSnapshotView,
        changes: Seq<ContentChangeView>,
    ) -> Option<PreparedChangeView> {
        if self.accepts(id, since) && (changes.len() > 0
            ==> self.server.registered()[id].countable()) {
            Some(
                PreparedChangeView {
                    id,
                    since,
                    snapshot,
                    notification: self.server.registered()[id].change_sends(snapshot, changes),
                },
            )
        } else {
            None
        }
    }

    /// Whether a change can be committed: it is still in time, and where
    /// it was sent, it can be counted.
    pub open spec fn commits(self, change: PreparedChangeView) -> bool {
        self.accepts(change.id, change.since) && (change.notification.len() > 0
            ==> self.server.registered()[change.id].countable())
    }

    /// The state after a change was committed: where the change was sent,
    /// the table holds its content and one change more; where there was
    /// nothing to send, or the change cannot be committed, nothing changes.
    pub open spec fn commit(self, change: PreparedChangeView) -> CodyView {
        if self.commits(change) && change.notification.len() > 0 {
            CodyView {
                server: self.server.with_registered(
                    self.server.registered().insert(
                        change.id,
                        self.server.registered()[change.id].changed(change.snapshot),
                    ),
                ),
                ..self
            }
        } else {
            self
        }
    }

    /// What committing a change returns: the number of changes and the
    /// content in the table afterwards. `None` where the change cannot be
    /// committed.
    pub open spec fn committed(self, change: PreparedChangeView) -> Option<SyncedView> {
        if self.commits(change) {
            let after = self.commit(change).server.registered()[change.id];
            Some(SyncedView { version: after.snapshot_version, snapshot: after.snapshot })
        } else {
            None
        }
    }

    /// The replace ranges that lead from what the remote endpoint has seen
    /// of a document to the document as it is, worked out from the two
    /// contents. `None` where a position cannot be written.
    pub open spec fn content_diff(self, buffer: BufferView) -> Option<Seq<ContentChangeView>> {
        match text_diff(self.server.registered()[buffer.id].snapshot.text, buffer.text) {
            Some(edits) => changes_of(edits),
            None => None,
        }
    }

    /// The change to send to bring a document up to date, worked out from
    /// its content. Where the host's token is the one of the content that
    /// the remote endpoint has seen, there is nothing to send.
    pub open spec fn prepared_sync(self, buffer: BufferView) -> Option<PreparedChangeView> {
        match self.report_changes(buffer) {
            Some(SyncStepView::Synced { .. }) => self.prepared(
                buffer.id,
                buffer.version,
                snapshot_of(buffer),
                Seq::empty(),
            ),
            Some(SyncStepView::Pending { since }) => match self.content_diff(buffer) {
                Some(changes) => self.prepared(buffer.id, since, snapshot_of(buffer), changes),
                None => None,
            },
            None => None,
        }
    }

    /// Whether the session takes note of events of the document `id`: it
    /// runs, and the document is open at the remote endpoint.
    pub open spec fn follows(self, id: u64) -> bool {
        self.server is Running && self.server.registered().dom().contains(id)
    }

    /// Whether an event changes the identity under which a document is
    /// open: it tells of another file or language, and the address or the
    /// language tag of the document is no longer the one in the table.
    pub open spec fn moves(self, buffer: BufferView, event: BufferEvent) -> bool {
        &&& self.follows(buffer.id)
        &&& event == BufferEvent::FileHandleChanged || event == BufferEvent::LanguageChanged
        &&& self.server.registered()[buffer.id].identified(buffer)
            != self.server.registered()[buffer.id]
    }

    /// The state after an event of a document.
    pub open spec fn handle_buffer_event(self, buffer: BufferView, event: BufferEvent) -> CodyView {
        if self.moves(buffer, event) {
            CodyView {
                server: self.server.with_registered(
                    self.server.registered().insert(
                        buffer.id,
                        self.server.registered()[buffer.id].identified(buffer),
                    ),
                ),
                ..self
            }
        } else {
            self
        }
    }

    /// What the caller has to do after an event of a document. After an
    /// edit, what changed is worked out unless the remote endpoint has
    /// seen the content. After a save, the remote endpoint is told. Where
    /// the identity changes, the document is closed under the old one and
    /// opened under the new one, with the content and the number of
    /// changes that the remote endpoint has seen.
    pub open spec fn buffer_event_action(
        self,
        buffer: BufferView,
        event: BufferEvent,
    ) -> BufferActionView {
        if !self.follows(buffer.id) {
            BufferActionView::Nothing
        } else {
            let registered = self.server.registered()[buffer.id];
            match event {
                BufferEvent::Edited => match registered.report_changes(buffer.version) {
                    SyncStepView::Pending { since } => BufferActionView::Sync { since },
                    SyncStepView::Synced { .. } => BufferActionView::Nothing,
                },
                BufferEvent::Saved => BufferActionView::Send(
                    seq![NotificationView::DidSave { uri: registered.uri }],
                ),
                BufferEvent::FileHandleChanged | BufferEvent::LanguageChanged => if self.moves(
                    buffer,
                    event,
                ) {
                    BufferActionView::Send(
                        seq![
                            close_notification(registered),
                            open_notification(registered.identified(buffer)),
                        ],
                    )
                } else {
                    BufferActionView::Nothing
                },
                BufferEvent::Other => BufferActionView::Nothing,
            }
        }
    }
}

impl Cody {
    /// Compares a document with what the remote endpoint has seen of it.
    /// Returns `None` where the user is not authorized or the document is
    /// not open at the remote endpoint.
    pub fn report_changes(&self, buffer: &Buffer) -> (step: Option<SyncStep>)
        ensures
            match step {
                Some(step) => self@.report_changes(buffer@) == Some(step@),
                None => self@.report_changes(buffer@) is None,
            },
    {
        match &self.server {
            CodyServer::Running(server) => {
                if !matches!(server.sign_in_status, SignInStatus::Authorized) {
                    return None;
                }
                match server.registered_buffers.get(&buffer.id) {
                    Some(registered) => Some(registered.report_changes(buffer)),
                    None => None,
                }
            },
            _ => None,
        }
    }

    /// Prepares the change to send for the replace ranges that lead from
    /// the content with the host's token `since` to `snapshot`. Nothing
    /// is counted and nothing is stored: where the change cannot be sent,
    /// the session is as it was. Returns `None` where the user is not
    /// authorized, where the document is not open at the remote endpoint,
    /// where the remote endpoint has seen another content than the one
    /// with the token `since`, and where there is something to send and
    /// no further change can be counted.
    pub fn prepare_changes(
        &self,
        id: u64,
        since: u64,
        snapshot: BufferSnapshot,
        content_changes: Vec<ContentChange>,
    ) -> (change: Option<PreparedChange>)
        ensures
            prepared_view(change) == self@.prepared(
                id,
                since,
                snapshot@,
                changes_view(content_changes@),
            ),
    {
        let server = match &self.server {
            CodyServer::Running(server) => server,
            _ => { return None; },
        };
        if !matches!(server.sign_in_status, SignInStatus::Authorized) {
            return None;
        }
        let registered = match server.registered_buffers.get(&id) {
            Some(registered) => registered,
            None => { return None; },
        };
        if registered.snapshot.version != since {
            return None;
        }
        let mut notification = None;
        if content_changes.len() > 0 {
            if registered.snapshot_version == i32::MAX {
                return None;
            }
            notification = Some(
                Notification::DidChange {
                    uri: registered.uri.clone(),
                    version: registered.snapshot_version + 1,
                    content_changes,
                    content: snapshot.text.clone(),
                },
            );
        }
        Some(PreparedChange { id, since, snapshot, notification })
    }

    /// Prepares the change that brings the remote endpoint up to date with
    /// a document of a host that keeps no record of its edits: what
    /// changed is worked out from the content that the endpoint has seen
    /// and the content as it is. There is nothing to send where the
    /// content is the same, whatever the host's token says.
    pub fn prepare_sync(&self, buffer: &Buffer) -> (change: Option<PreparedChange>)
        ensures
            prepared_view(change) == self@.prepared_sync(buffer@),
    {
        let server = match &self.server {
            CodyServer::Running(server) => server,
            _ => { return None; },
        };
        if !matches!(server.sign_in_status, SignInStatus::Authorized) {
            return None;
        }
        let registered = match server.registered_buffers.get(&buffer.id) {
            Some(registered) => registered,
            None => { return None; },
        };
        let since = registered.snapshot.version;
        if buffer.version == since {
            let changes: Vec<ContentChange> = Vec::new();
            assert(changes_view(changes@) =~= Seq::<ContentChangeView>::empty());
            return self.prepare_changes(buffer.id, since, buffer.snapshot(), changes);
        }
        let edits = match diff(registered.snapshot.text.as_str(), buffer.text.as_str()) {
            Some(edits) => edits,
            None => { return None; },
        };
        let changes = match content_changes(&edits) {
            Some(changes) => changes,
            None => { return None; },
        };
        self.prepare_changes(buffer.id, since, buffer.snapshot(), changes)
    }

    /// Commits a change whose notification has gone out, or that had
    /// nothing to send. Where it was sent, the table holds its content and
    /// one change more. Returns the number of changes and the content in
    /// the table afterwards. Nothing changes and `None` is returned where
    /// the change is no longer in time: the user is not authorized, the
    /// document is not open, or the remote endpoint has meanwhile seen
    /// another content than the one that the change was worked out from.
    pub fn commit_changes(&mut self, change: &PreparedChange) -> (synced: Option<Synced>)
        ensures
            final(self)@ == old(self)@.commit(change@),
            synced_view(synced) == old(self)@.committed(change@),
            old(self)@.wf() ==> final(self)@.wf(),
    {
        proof {
            if old(self)@.wf() {
                lemma_commit_keeps_wf(old(self)@, change@);
            }
        }
        let server = match &mut self.server {
            CodyServer::Running(server) => server,
            _ => { return None; },
        };
        if !matches!(server.sign_in_status, SignInStatus::Authorized) {
            return None;
        }
        let ghost table = server.registered_buffers@;
        let mut buffer = match server.registered_buffers.remove(&change.id) {
            Some(buffer) => buffer,
            None => {
                assert(table.remove(change.id) =~= table);
                return None;
            },
        };
        let in_time = buffer.snapshot.version == change.since && (change.notification.is_none()
            || buffer.snapshot_version < i32::MAX);
        if in_time && change.notification.is_some() {
            buffer.snapshot_version += 1;
            buffer.snapshot = change.snapshot.clone();
        }
        let synced = Synced { version: buffer.snapshot_version, snapshot: buffer.snapshot.clone() };
        server.registered_buffers.insert(change.id, buffer);
        assert(table_view(table.remove(change.id).insert(change.id, buffer)) =~= table_view(
            table,
        ).insert(change.id, buffer@));
        assert(table_view(table).insert(change.id, table_view(table)[change.id]) =~= table_view(
            table,
        ));
        if in_time {
            Some(synced)
        } else {
            None
        }
    }

    /// Takes note of an event of a document. Events of documents that are
    /// not open at the remote endpoint pass unnoticed.
    pub fn handle_buffer_event(&mut self, buffer: &Buffer, event: BufferEvent) -> (action:
        BufferAction)
        ensures
            final(self)@ == old(self)@.handle_buffer_event(buffer@, event),
            action@ == old(self)@.buffer_event_action(buffer@, event),
            old(self)@.wf() ==> final(self)@.wf(),
    {
        proof {
            if old(self)@.wf() {
                lemma_buffer_event_keeps_wf(old(self)@, buffer@, event);
            }
        }
        let server = match &mut self.server {
            CodyServer::Running(server) => server,
            _ => { return BufferAction::Nothing; },
        };
        let ghost table = server.registered_buffers@;
        match event {
            BufferEvent::Edited => match server.registered_buffers.get(&buffer.id) {
                Some(registered) => match registered.report_changes(buffer) {
                    SyncStep::Pending { since } => BufferAction::Sync { since },
                    SyncStep::Synced { .. } => BufferAction::Nothing,
                },
                None => BufferAction::Nothing,
            },
            BufferEvent::Saved => match server.registered_buffers.get(&buffer.id) {
                Some(registered) => {
                    let mut notifications = Vec::new();
                    notifications.push(Notification::DidSave { uri: registered.uri.clone() });
                    assert(notifications_view(notifications@) =~= seq![
                        NotificationView::DidSave { uri: registered@.uri },
                    ]);
                    BufferAction::Send(notifications)
                },
                None => BufferAction::Nothing,
            },
            BufferEvent::FileHandleChanged | BufferEvent::LanguageChanged => {
                let registered = match server.registered_buffers.remove(&buffer.id) {
                    Some(registered) => registered,
                    None => {
                        assert(table.remove(buffer.id) =~= table);
                        return BufferAction::Nothing;
                    },
                };
                let ghost before = registered@;
                let new_language_id = id_for_language(&buffer.language);
                let new_uri = uri_for_buffer(buffer);
                if new_uri == registered.uri && new_language_id == registered.language_id {
                    server.registered_buffers.insert(buffer.id, registered);
                    assert(table_view(table.remove(buffer.id).insert(buffer.id, registered))
                        =~= table_view(table));
                    return BufferAction::Nothing;
                }
                let RegisteredBuffer { uri: old_uri, language_id: _, snapshot, snapshot_version } =
                    registered;
                let mut notifications = Vec::new();
                notifications.push(Notification::DidClose { uri: old_uri });
                notifications.push(
                    Notification::DidOpen {
                        uri: new_uri.clone(),
                        language_id: new_language_id.clone(),
                        version: snapshot_version,
                        content: snapshot.text.clone(),
                    },
                );
                assert(notifications_view(notifications@) =~= seq![
                    close_notification(before),
                    open_notification(before.identified(buffer@)),
                ]);
                let moved = RegisteredBuffer {
                    uri: new_uri,
                    language_id: new_language_id,
                    snapshot,
                    snapshot_version,
                };
                server.registered_buffers.insert(buffer.id, moved);
                assert(table_view(table.remove(buffer.id).insert(buffer.id, moved)) =~= table_view(
                    table,
                ).insert(buffer.id, moved@));
                BufferAction::Send(notifications)
            },
            BufferEvent::Other => BufferAction::Nothing,
        }
    }
}

} // verus!
