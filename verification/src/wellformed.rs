//! What holds of the coordinator in every state that its operations reach.

use crate::auth::{live_buffer, status_of, survives, Authorization};
use crate::buffer::BufferView;
use crate::cody::{known_with, other_than, CodyView};
use crate::request::PromptUserDeviceFlowView;
use crate::server::{CodyServerView, RegisteredBufferView};
use crate::sweep::{lemma_filter_keeps, lemma_unregister_known};
use crate::sync::{BufferEvent, PreparedChangeView};
use vstd::prelude::*;

verus! {

impl CodyView {
    /// The state is well formed: no document is known twice; the documents
    /// that are open at the remote endpoint are finitely many and known;
    /// and none is open unless the session runs with an authorized user.
    pub open spec fn wf(self) -> bool {
        &&& self.buffers.no_duplicates()
        &&& self.server.registered().dom().finite()
        &&& forall|id: u64| #[trigger]
            self.server.registered().dom().contains(id) ==> self.buffers.contains(id)
        &&& !self.server.is_authorized() ==> self.server.registered()
            == Map::<u64, RegisteredBufferView>::empty()
    }
}

/// Registering a document keeps the state well formed.
pub proof fn lemma_register_keeps_wf(state: CodyView, buffer: BufferView)
    requires
        state.wf(),
    ensures
        state.register(buffer).wf(),
{
    let known = known_with(state.buffers, buffer.id);
    assert(known.contains(buffer.id)) by {
        if !state.buffers.contains(buffer.id) {
            assert(known[known.len() - 1] == buffer.id);
        }
    }
    assert forall|id: u64| state.buffers.contains(id) implies known.contains(id) by {
        let i = choose|i: int| 0 <= i < state.buffers.len() && state.buffers[i] == id;
        assert(known[i] == id);
    }
}

/// Closing a document at the remote endpoint keeps the state well formed.
pub proof fn lemma_unregister_keeps_wf(state: CodyView, id: u64)
    requires
        state.wf(),
    ensures
        state.unregister(id).wf(),
{
    if !state.server.is_authorized() {
        assert(Map::<u64, RegisteredBufferView>::empty().remove(id) =~= Map::<
            u64,
            RegisteredBufferView,
        >::empty());
    }
}

/// Disposing of a document keeps the state well formed.
pub proof fn lemma_release_keeps_wf(state: CodyView, id: u64)
    requires
        state.wf(),
    ensures
        state.release(id).wf(),
{
    lemma_unregister_keeps_wf(state, id);
    lemma_filter_keeps(state.buffers, other_than(id));
}

/// Committing a change keeps the state well formed.
pub proof fn lemma_commit_keeps_wf(state: CodyView, change: PreparedChangeView)
    requires
        state.wf(),
    ensures
        state.commit(change).wf(),
{
}

/// An event of a document keeps the state well formed.
pub proof fn lemma_buffer_event_keeps_wf(state: CodyView, buffer: BufferView, event: BufferEvent)
    requires
        state.wf(),
    ensures
        state.handle_buffer_event(buffer, event).wf(),
{
}

/// Asking for a sign-in, and showing the prompt of one, keep the state
/// well formed.
pub proof fn lemma_sign_in_keeps_wf(state: CodyView, prompt: PromptUserDeviceFlowView)
    requires
        state.wf(),
    ensures
        state.sign_in().wf(),
        state.prompted(prompt).wf(),
{
}

/// Switching the feature on or off, and starting afresh, keep the state
/// well formed.
pub proof fn lemma_lifecycle_keeps_wf(state: CodyView, enabled: bool)
    requires
        state.wf(),
    ensures
        state.enabled(enabled).wf(),
        (CodyView { server: CodyServerView::Starting, ..state }).wf(),
        (CodyView { server: CodyServerView::Disabled, ..state }).wf(),
        (CodyView { server: CodyServerView::fresh(), ..state }).wf(),
{
}

/// A sweep that opens documents keeps the state well formed.
pub proof fn lemma_register_known_keeps_wf(state: CodyView, ids: Seq<u64>, live: Seq<BufferView>)
    requires
        state.wf(),
    ensures
        state.register_known(ids, live).wf(),
    decreases ids.len(),
{
    if ids.len() > 0 {
        lemma_register_known_keeps_wf(state, ids.drop_last(), live);
        match live_buffer(live, ids.last()) {
            Some(buffer) => {
                lemma_register_keeps_wf(state.register_known(ids.drop_last(), live), buffer);
            },
            None => {},
        }
    }
}

/// Taking note of where the user stands keeps the state well formed.
pub proof fn lemma_status_update_keeps_wf(
    state: CodyView,
    authorization: Authorization,
    live: Seq<BufferView>,
)
    requires
        state.wf(),
    ensures
        state.retain_live(live).wf(),
        state.status_updated(authorization, live).wf(),
{
    let table = state.server.registered();
    let kept = state.retain_live(live);
    lemma_filter_keeps(state.buffers, survives(live, table));
    if kept.server is Running {
        let set = CodyView { server: kept.server.with_status(status_of(authorization)), ..kept };
        if authorization == Authorization::Authorized {
            lemma_register_known_keeps_wf(set, kept.buffers, live);
        } else {
            lemma_unregister_known(set, kept.buffers);
            assert(table.remove_keys(kept.buffers.to_set()) =~= Map::<
                u64,
                RegisteredBufferView,
            >::empty());
        }
    }
}

} // verus!
