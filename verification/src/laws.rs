//! What the operations of the coordinator guarantee together.

use crate::auth::{is_live, live_buffer, status_of, survives, Authorization, SignInStep};
use crate::buffer::{language_id, snapshot_of, uri_text, BufferSnapshotView, BufferView};
use crate::cody::{close_notification, other_than, CodyView, StatusView};
use crate::notification::NotificationView;
use crate::point::{lemma_plus_minus, lsp_of_point, Range};
use crate::server::{CodyServerView, ErrorView, RegisteredBufferView};
use crate::sweep::{
    closing, in_table, lemma_filter_all, lemma_filter_keeps, lemma_live_buffer_has_id,
    lemma_register_known, lemma_unregister_known, opening, opens,
};
use crate::sync::{
    change_of, changes_of, BufferActionView, BufferEvent, ContentChangeView, EditView,
    PreparedChangeView, SyncedView,
};
use crate::wellformed::{lemma_release_keeps_wf, lemma_status_update_keeps_wf};
use vstd::prelude::*;

verus! {

/// Registering a document while the user is authorized sends exactly one
/// notification, which opens the document with its address, its language
/// tag, its whole content, and no change counted; and the document is
/// then in the table with that content.
pub proof fn law_open_on_register(state: CodyView, buffer: BufferView)
    requires
        state.server.is_authorized(),
        !state.server.registered().dom().contains(buffer.id),
    ensures
        state.register_sends(buffer) == seq![
            NotificationView::DidOpen {
                uri: uri_text(buffer.file_uri, buffer.id),
                language_id: language_id(buffer.language),
                version: 0,
                content: buffer.text,
            },
        ],
        state.register(buffer).server.registered().dom().contains(buffer.id),
        state.register(buffer).server.registered()[buffer.id].snapshot.text == buffer.text,
        state.register(buffer).server.registered()[buffer.id].snapshot_version == 0,
{
}

/// A successful start leaves the user signed out and no document open,
/// and no document is opened before a sign-in succeeds: registering a
/// document then sends nothing.
pub proof fn law_start_is_signed_out(state: CodyView, buffer: BufferView)
    ensures
        state.started(Ok(())).server == CodyServerView::fresh(),
        state.started(Ok(())).buffers == state.buffers,
        state.started(Ok(())).server.status() == StatusView::SignedOut,
        state.started(Ok(())).server.registered() == Map::<u64, RegisteredBufferView>::empty(),
        state.started(Ok(())).register_sends(buffer) == Seq::<NotificationView>::empty(),
        state.started(Ok(())).register(buffer).server == CodyServerView::fresh(),
{
}

/// For edits to a document that is open at the remote endpoint, worked
/// out from the content that the endpoint has seen, exactly one
/// notification is prepared: it carries one replace range for each edit,
/// which starts where the new text starts and carries the new text, and
/// which is the very span that the edit replaced where the edit was made
/// in place; its number of changes is the one before and one more; and
/// its content is the whole new content. Once it is committed, the table
/// holds that number and that content. With no edit, nothing is to be
/// sent and committing changes nothing.
pub proof fn law_diff_on_edit(
    state: CodyView,
    id: u64,
    since: u64,
    snapshot: BufferSnapshotView,
    edits: Seq<EditView>,
)
    requires
        state.accepts(id, since),
        changes_of(edits) is Some,
        state.server.registered()[id].countable(),
    ensures
        ({
            let before = state.server.registered()[id];
            let changes = changes_of(edits).unwrap();
            let change = state.prepared(id, since, snapshot, changes);
            &&& changes.len() == edits.len()
            &&& forall|i: int|
                0 <= i < edits.len() ==> (#[trigger] changes[i]).range.start == lsp_of_point(
                    edits[i].new_start,
                ) && changes[i].text == edits[i].new_text
            &&& forall|i: int|
                0 <= i < edits.len() && edits[i].new_start == edits[i].old_start
                    ==> (#[trigger] changes[i]).range == (Range {
                    start: lsp_of_point(edits[i].old_start),
                    end: lsp_of_point(edits[i].old_end),
                })
            &&& change is Some
            &&& edits.len() > 0 ==> {
                &&& change.unwrap().notification == seq![
                    NotificationView::DidChange {
                        uri: before.uri,
                        version: (before.snapshot_version + 1) as i32,
                        content_changes: changes,
                        content: snapshot.text,
                    },
                ]
                &&& state.committed(change.unwrap()) == Some(
                    SyncedView { version: (before.snapshot_version + 1) as i32, snapshot },
                )
                &&& state.commit(change.unwrap()).server.registered()[id].snapshot == snapshot
                &&& state.commit(change.unwrap()).server.registered()[id].snapshot_version
                    == before.snapshot_version + 1
            }
            &&& edits.len() == 0 ==> {
                &&& change.unwrap().notification == Seq::<NotificationView>::empty()
                &&& state.commit(change.unwrap()) == state
                &&& state.committed(change.unwrap()) == Some(
                    SyncedView { version: before.snapshot_version, snapshot: before.snapshot },
                )
            }
        }),
{
    let changes = changes_of(edits).unwrap();
    assert forall|i: int|
        0 <= i < edits.len() && edits[i].new_start == edits[i].old_start implies (
    #[trigger] changes[i]).range == (Range {
        start: lsp_of_point(edits[i].old_start),
        end: lsp_of_point(edits[i].old_end),
    }) by {
        assert(change_of(edits[i]) is Some);
        lemma_plus_minus(edits[i].old_end, edits[i].old_start);
    }
}

/// Whatever the state: a change notification that is prepared carries the
/// number of changes before and one more, and once it is committed the
/// table holds that very number and the content of the notification. No
/// change is sent that is not counted, and none is counted twice.
pub proof fn law_change_counts_once(
    state: CodyView,
    id: u64,
    since: u64,
    snapshot: BufferSnapshotView,
    changes: Seq<ContentChangeView>,
)
    requires
        changes.len() > 0,
        state.prepared(id, since, snapshot, changes) is Some,
    ensures
        ({
            let before = state.server.registered()[id];
            let change = state.prepared(id, since, snapshot, changes).unwrap();
            let after = state.commit(change).server.registered()[id];
            &&& change.notification.len() == 1
            &&& change.notification[0] matches NotificationView::DidChange {
                uri,
                version,
                content_changes,
                content,
            } && uri == before.uri && version == before.snapshot_version + 1 && content_changes
                == changes && content == snapshot.text
            &&& state.commits(change)
            &&& after.snapshot_version == before.snapshot_version + 1
            &&& after.snapshot == snapshot
            &&& state.committed(change) == Some(
                SyncedView { version: after.snapshot_version, snapshot },
            )
            &&& snapshot.version != since ==> !state.commit(change).commits(change)
        }),
{
}

/// A change that was prepared and could not be sent is not committed, and
/// then the session is as it was: preparing stores nothing, so the table
/// still holds the number of changes and the content from before, and the
/// next change is worked out from that content. A change that is
/// committed after the remote endpoint has seen another content than the
/// one it was worked out from is refused, and changes nothing.
pub proof fn law_unsent_change_leaves_no_trace(
    state: CodyView,
    id: u64,
    since: u64,
    snapshot: BufferSnapshotView,
    changes: Seq<ContentChangeView>,
    late: PreparedChangeView,
)
    requires
        state.prepared(id, since, snapshot, changes) is Some,
    ensures
        state.syncs(id),
        state.server.registered()[id].snapshot.version == since,
        !state.accepts(late.id, late.since) ==> state.commit(late) == state && state.committed(
            late,
        ) is None,
{
}

/// Bringing a document up to date from its content: there is nothing to
/// send where the content is the one that the remote endpoint has seen,
/// whatever the host's token says, and committing then changes nothing.
/// Where the token and the content both differ and the change can be
/// written and counted, exactly one notification is prepared: it carries
/// one replace range, the number of changes before and one more, and the
/// whole content as it is.
pub proof fn law_sync_follows_content(state: CodyView, buffer: BufferView)
    requires
        state.syncs(buffer.id),
    ensures
        ({
            let seen = state.server.registered()[buffer.id];
            let change = state.prepared_sync(buffer);
            &&& buffer.text == seen.snapshot.text ==> {
                &&& change is Some
                &&& change.unwrap().notification == Seq::<NotificationView>::empty()
                &&& state.commit(change.unwrap()) == state
                &&& state.committed(change.unwrap()) == Some(
                    SyncedView { version: seen.snapshot_version, snapshot: seen.snapshot },
                )
            }
            &&& buffer.text != seen.snapshot.text && buffer.version != seen.snapshot.version
                && change is Some ==> {
                &&& change.unwrap().notification.len() == 1
                &&& change.unwrap().notification[0] matches NotificationView::DidChange {
                    uri,
                    version,
                    content_changes,
                    content,
                } && uri == seen.uri && version == seen.snapshot_version + 1
                    && content_changes.len() == 1 && content == buffer.text
                &&& state.committed(change.unwrap()) == Some(
                    SyncedView {
                        version: (seen.snapshot_version + 1) as i32,
                        snapshot: snapshot_of(buffer),
                    },
                )
            }
        }),
{
    assert(changes_of(Seq::<EditView>::empty()) == Some(Seq::<ContentChangeView>::empty())) by {
        assert(changes_of(Seq::<EditView>::empty()).unwrap() =~= Seq::<
            ContentChangeView,
        >::empty());
    }
}

/// The number of changes counted for a document never falls.
pub proof fn law_version_never_falls(state: CodyView, change: PreparedChangeView)
    requires
        state.server.registered().dom().contains(change.id),
    ensures
        state.commit(change).server.registered().dom().contains(change.id),
        state.commit(change).server.registered()[change.id].snapshot_version
            >= state.server.registered()[change.id].snapshot_version,
{
}

/// When the file or the language of a document changes its identity, the
/// document is closed under the old identity and at once opened under the
/// new one, with the content and the number of changes that the remote
/// endpoint has seen; and every later change is sent under the new
/// identity.
pub proof fn law_identity_change(
    state: CodyView,
    buffer: BufferView,
    event: BufferEvent,
    snapshot: BufferSnapshotView,
    changes: Seq<ContentChangeView>,
)
    requires
        state.moves(buffer, event),
        changes.len() > 0,
    ensures
        ({
            let before = state.server.registered()[buffer.id];
            let after = state.handle_buffer_event(buffer, event).server.registered()[buffer.id];
            &&& state.buffer_event_action(buffer, event) == BufferActionView::Send(
                seq![
                    NotificationView::DidClose { uri: before.uri },
                    NotificationView::DidOpen {
                        uri: uri_text(buffer.file_uri, buffer.id),
                        language_id: language_id(buffer.language),
                        version: before.snapshot_version,
                        content: before.snapshot.text,
                    },
                ],
            )
            &&& after.change_sends(snapshot, changes)[0] matches NotificationView::DidChange {
                uri,
                ..
            } && uri == uri_text(buffer.file_uri, buffer.id)
        }),
{
}

/// When the user is signed out, or found not to be authorized, while the
/// session runs: for each document in the table exactly one notification
/// is sent, which closes it, and the table is empty afterwards.
pub proof fn law_sign_out_sweep(
    state: CodyView,
    authorization: Authorization,
    live: Seq<BufferView>,
)
    requires
        state.wf(),
        state.server is Running,
        authorization != Authorization::Authorized,
    ensures
        ({
            let table = state.server.registered();
            let known = state.retain_live(live).buffers;
            let sends = state.status_update_sends(authorization, live);
            &&& sends == known.filter(in_table(table)).map_values(closing(table))
            &&& sends.len() == table.dom().len()
            &&& forall|id: u64| #[trigger]
                table.dom().contains(id) ==> sends.contains(close_notification(table[id]))
            &&& state.status_updated(authorization, live).server.registered() == Map::<
                u64,
                RegisteredBufferView,
            >::empty()
            &&& !state.status_updated(authorization, live).server.is_authorized()
        }),
{
    let table = state.server.registered();
    let kept = state.retain_live(live);
    let known = kept.buffers;
    lemma_status_update_keeps_wf(state, authorization, live);
    let set = CodyView { server: kept.server.with_status(status_of(authorization)), ..kept };
    lemma_unregister_known(set, known);
    let closed = known.filter(in_table(table));
    lemma_filter_keeps(known, in_table(table));
    assert(closed.to_set() =~= table.dom());
    closed.unique_seq_to_set();
    assert forall|id: u64| #[trigger] table.dom().contains(id) implies closed.map_values(
        closing(table),
    ).contains(close_notification(table[id])) by {
        let i = choose|i: int| 0 <= i < closed.len() && closed[i] == id;
        assert(closed.map_values(closing(table))[i] == close_notification(table[id]));
    }
    assert(table.remove_keys(known.to_set()) =~= Map::<u64, RegisteredBufferView>::empty());
}

/// When the user becomes authorized while the session runs: for each
/// known document that still exists exactly one notification is sent,
/// which opens it with its content as it is now and no change counted,
/// and the table holds exactly those documents afterwards.
pub proof fn law_sign_in_sweep(state: CodyView, live: Seq<BufferView>)
    requires
        state.wf(),
        state.server is Running,
        !state.server.is_authorized(),
    ensures
        ({
            let known = state.retain_live(live).buffers;
            let sends = state.status_update_sends(Authorization::Authorized, live);
            let after = state.status_updated(Authorization::Authorized, live);
            &&& forall|id: u64|
                known.contains(id) <==> state.buffers.contains(id) && is_live(live, id)
            &&& sends == known.map_values(opening(live))
            &&& forall|i: int|
                0 <= i < sends.len() ==> #[trigger] sends[i] == (NotificationView::DidOpen {
                    uri: uri_text(
                        live_buffer(live, known[i]).unwrap().file_uri,
                        known[i],
                    ),
                    language_id: language_id(live_buffer(live, known[i]).unwrap().language),
                    version: 0,
                    content: live_buffer(live, known[i]).unwrap().text,
                })
            &&& after.server.is_authorized()
            &&& after.server.registered().dom() == known.to_set()
        }),
{
    let table = state.server.registered();
    let kept = state.retain_live(live);
    let known = kept.buffers;
    lemma_filter_keeps(state.buffers, survives(live, table));
    let set = CodyView {
        server: kept.server.with_status(status_of(Authorization::Authorized)),
        ..kept
    };
    lemma_register_known(set, known, live);
    assert(known.filter(opens(live, table)) == known) by {
        lemma_filter_all(known, opens(live, table));
    }
    assert forall|i: int| 0 <= i < known.len() implies live_buffer(
        live,
        #[trigger] known[i],
    ).unwrap().id == known[i] by {
        lemma_live_buffer_has_id(live, known[i]);
    }
}

/// When the host disposes of a document that is open at the remote
/// endpoint, the notification that closes it is sent, and the document is
/// afterwards neither in the table nor among the known documents.
pub proof fn law_disposal_cleanup(state: CodyView, id: u64)
    requires
        state.wf(),
        state.server.registered().dom().contains(id),
    ensures
        state.unregister_sends(id) == seq![
            NotificationView::DidClose { uri: state.server.registered()[id].uri },
        ],
        !state.release(id).server.registered().dom().contains(id),
        !state.release(id).buffers.contains(id),
        state.release(id).wf(),
{
    lemma_filter_keeps(state.buffers, other_than(id));
    lemma_release_keeps_wf(state, id);
}

/// Registering a document again sends nothing and changes nothing, and so
/// does closing a document that is not open at the remote endpoint.
pub proof fn law_idempotence(state: CodyView, buffer: BufferView, id: u64)
    ensures
        state.register(buffer).register_sends(buffer) == Seq::<NotificationView>::empty(),
        state.register(buffer).register(buffer) == state.register(buffer),
        !state.server.registered().dom().contains(id) ==> state.unregister_sends(id) == Seq::<
            NotificationView,
        >::empty() && state.unregister(id) == state,
        state.unregister(id).unregister_sends(id) == Seq::<NotificationView>::empty(),
        state.unregister(id).unregister(id) == state.unregister(id),
{
    let once = state.register(buffer);
    assert(once.buffers.contains(buffer.id)) by {
        if !state.buffers.contains(buffer.id) {
            assert(once.buffers[once.buffers.len() - 1] == buffer.id);
        }
    }
    let table = state.server.registered();
    if !table.dom().contains(id) {
        assert(table.remove(id) =~= table);
    }
    assert(table.remove(id).remove(id) =~= table.remove(id));
}

/// While a sign-in is in flight, every further call for one joins it and
/// changes nothing: between the call that begins a sign-in and its
/// outcome, no second one begins. The same holds of starting the session.
pub proof fn law_single_flight(state: CodyView)
    ensures
        state.sign_in_step() == Ok::<SignInStep, ErrorView>(SignInStep::Begin) ==> {
            &&& state.sign_in().sign_in_step() == Ok::<SignInStep, ErrorView>(SignInStep::Join)
            &&& state.sign_in().sign_in() == state.sign_in()
            &&& state.sign_in().sign_in().sign_in_step() == Ok::<SignInStep, ErrorView>(
                SignInStep::Join,
            )
        },
        state.sign_in_step() == Ok::<SignInStep, ErrorView>(SignInStep::Join) ==> state.sign_in()
            == state,
        state.starts(true) ==> !state.enabled(true).starts(true) && state.enabled(true).enabled(
            true,
        ) == state.enabled(true),
{
}

} // verus!
