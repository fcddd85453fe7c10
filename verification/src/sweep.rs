//! What the sweeps over the known documents amount to: which documents
//! they open or close, and in which order.

use crate::auth::{is_live, live_buffer};
use crate::buffer::BufferView;
use crate::cody::{close_notification, open_notification, opened, CodyView};
use crate::notification::NotificationView;
use crate::server::RegisteredBufferView;
use vstd::prelude::*;

verus! {

/// Keeping some of a list without duplicates leaves no duplicates, and
/// keeps exactly those that the list holds and the choice admits.
pub proof fn lemma_filter_keeps(ids: Seq<u64>, keep: spec_fn(u64) -> bool)
    requires
        ids.no_duplicates(),
    ensures
        ids.filter(keep).no_duplicates(),
        forall|id: u64| #[trigger] ids.filter(keep).contains(id) <==> ids.contains(id) && keep(id),
    decreases ids.len(),
{
    reveal(Seq::filter);
    if ids.len() > 0 {
        let init = ids.drop_last();
        let last = ids.last();
        lemma_filter_keeps(init, keep);
        let kept = ids.filter(keep);
        assert forall|id: u64| #[trigger] kept.contains(id) <==> ids.contains(id) && keep(id) by {
            if kept.contains(id) {
                let i = choose|i: int| 0 <= i < kept.len() && kept[i] == id;
                if i < init.filter(keep).len() {
                    assert(init.filter(keep).contains(id));
                }
            }
        }
        assert forall|i: int, j: int| 0 <= i < j < kept.len() implies kept[i] != kept[j] by {
            if j == init.filter(keep).len() {
                assert(init.filter(keep).contains(kept[i]));
            }
        }
    }
}

/// Keeping those of a list that a choice admits keeps the whole list
/// where the choice admits them all.
pub proof fn lemma_filter_all(ids: Seq<u64>, keep: spec_fn(u64) -> bool)
    requires
        forall|i: int| 0 <= i < ids.len() ==> keep(#[trigger] ids[i]),
    ensures
        ids.filter(keep) == ids,
    decreases ids.len(),
{
    reveal(Seq::filter);
    if ids.len() > 0 {
        lemma_filter_all(ids.drop_last(), keep);
    }
}

/// The choice of the documents in a table.
pub open spec fn in_table(table: Map<u64, RegisteredBufferView>) -> spec_fn(u64) -> bool {
    |id: u64| table.dom().contains(id)
}

/// For each document in a table, the notification that closes it.
pub open spec fn closing(
    table: Map<u64, RegisteredBufferView>,
) -> spec_fn(u64) -> NotificationView {
    |id: u64| close_notification(table[id])
}

/// The choice of the documents that a sweep opens: those among `live`
/// that are not in the table.
pub open spec fn opens(
    live: Seq<BufferView>,
    table: Map<u64, RegisteredBufferView>,
) -> spec_fn(u64) -> bool {
    |id: u64| is_live(live, id) && !table.dom().contains(id)
}

/// For each document among `live`, the notification that opens it.
pub open spec fn opening(live: Seq<BufferView>) -> spec_fn(u64) -> NotificationView {
    |id: u64| open_notification(opened(live_buffer(live, id).unwrap()))
}

/// The table after a sweep has opened the documents `ids`: what it held,
/// and an entry for each of the documents that the sweep opens.
pub open spec fn swept_in(
    table: Map<u64, RegisteredBufferView>,
    ids: Seq<u64>,
    live: Seq<BufferView>,
) -> Map<u64, RegisteredBufferView> {
    Map::new(
        |id: u64| table.dom().contains(id) || (ids.contains(id) && is_live(live, id)),
        |id: u64|
            if table.dom().contains(id) {
                table[id]
            } else {
                opened(live_buffer(live, id).unwrap())
            },
    )
}

/// The first of the live documents with an identity has that identity.
pub proof fn lemma_live_buffer_has_id(live: Seq<BufferView>, id: u64)
    ensures
        live_buffer(live, id) is Some <==> is_live(live, id),
        live_buffer(live, id) is Some ==> live_buffer(live, id).unwrap().id == id,
{
}

/// What a sweep that closes documents does: each of the documents leaves
/// the table, and for each that was in it the notification that closes it
/// is sent, in the order of the sweep.
pub proof fn lemma_unregister_known(state: CodyView, ids: Seq<u64>)
    requires
        ids.no_duplicates(),
    ensures
        state.unregister_known(ids).buffers == state.buffers,
        state.unregister_known(ids).server == state.server.with_registered(
            state.server.registered().remove_keys(ids.to_set()),
        ),
        state.unregister_known_sends(ids) == ids.filter(
            in_table(state.server.registered()),
        ).map_values(closing(state.server.registered())),
    decreases ids.len(),
{
    let table = state.server.registered();
    reveal(Seq::filter);
    if ids.len() == 0 {
        assert(table.remove_keys(ids.to_set()) =~= table);
    } else {
        let init = ids.drop_last();
        let last = ids.last();
        lemma_unregister_known(state, init);
        assert(ids =~= init.push(last));
        assert(table.remove_keys(init.to_set()).remove(last) =~= table.remove_keys(
            ids.to_set(),
        ));
    }
}

/// What a sweep that opens documents does, where the user is authorized
/// and the documents are known: each of them that is among `live` and not
/// in the table enters it, and the notification that opens it is sent, in
/// the order of the sweep.
pub proof fn lemma_register_known(state: CodyView, ids: Seq<u64>, live: Seq<BufferView>)
    requires
        state.server.is_authorized(),
        ids.no_duplicates(),
        forall|i: int| 0 <= i < ids.len() ==> state.buffers.contains(#[trigger] ids[i]),
    ensures
        state.register_known(ids, live).buffers == state.buffers,
        state.register_known(ids, live).server == state.server.with_registered(
            swept_in(state.server.registered(), ids, live),
        ),
        state.register_known_sends(ids, live) == ids.filter(
            opens(live, state.server.registered()),
        ).map_values(opening(live)),
    decreases ids.len(),
{
    let table = state.server.registered();
    reveal(Seq::filter);
    if ids.len() == 0 {
        assert(swept_in(table, ids, live) =~= table);
    } else {
        let init = ids.drop_last();
        let last = ids.last();
        lemma_register_known(state, init, live);
        lemma_live_buffer_has_id(live, last);
        assert(ids =~= init.push(last));
        let table_before = swept_in(table, init, live);
        if is_live(live, last) && !table.dom().contains(last) {
            let buffer = live_buffer(live, last).unwrap();
            assert(table_before.insert(last, opened(buffer)) =~= swept_in(table, ids, live));
        } else {
            assert(table_before =~= swept_in(table, ids, live));
        }
    }
}

} // verus!
