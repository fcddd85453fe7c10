use cody::buffer::{Buffer, BufferSnapshot};
use cody::cody::Cody;
use cody::notification::Notification;
use cody::point::{point_from_lsp, point_to_lsp, PointUtf16, Position, Range};
use cody::sync::{
    content_change, content_changes, BufferAction, BufferEvent, ContentChange, Edit,
    PreparedChange, SyncStep,
};

fn point(row: u32, column: u32) -> PointUtf16 {
    PointUtf16 { row, column }
}

fn range(start: (u32, u32), end: (u32, u32)) -> Range {
    Range {
        start: Position { line: start.0, character: start.1 },
        end: Position { line: end.0, character: end.1 },
    }
}

fn edit(old: ((u32, u32), (u32, u32)), new: ((u32, u32), (u32, u32)), text: &str) -> Edit {
    Edit {
        old_start: point((old.0).0, (old.0).1),
        old_end: point((old.1).0, (old.1).1),
        new_start: point((new.0).0, (new.0).1),
        new_end: point((new.1).0, (new.1).1),
        new_text: text.to_string(),
    }
}

fn document(id: u64, version: u64, text: &str) -> Buffer {
    Buffer { id, version, text: text.to_string(), language: None, file_uri: None }
}

fn content(version: u64, text: &str) -> BufferSnapshot {
    BufferSnapshot { version, text: text.to_string() }
}

fn a_change() -> Vec<ContentChange> {
    vec![ContentChange { range: range((0, 0), (0, 0)), text: "x".to_string() }]
}

#[test]
fn point_order_and_arithmetic() {
    assert!(point(0, 5).is_le(point(0, 5)));
    assert!(point(0, 9).is_le(point(1, 0)));
    assert!(!point(1, 0).is_le(point(0, 9)));
    assert_eq!(PointUtf16::new(2, 3), point(2, 3));

    assert_eq!(point(0, 7).checked_sub(point(0, 5)), Some(point(0, 2)));
    assert_eq!(point(3, 4).checked_sub(point(1, 9)), Some(point(2, 4)));
    assert_eq!(point(1, 0).checked_sub(point(1, 1)), None);
    assert_eq!(point(0, 9).checked_sub(point(1, 0)), None);

    assert_eq!(point(1, 5).checked_add(point(0, 2)), Some(point(1, 7)));
    assert_eq!(point(1, 5).checked_add(point(2, 4)), Some(point(3, 4)));
    assert_eq!(point(1, u32::MAX).checked_add(point(0, 1)), None);
    assert_eq!(point(u32::MAX, 0).checked_add(point(1, 0)), None);
    assert_eq!(point(1, u32::MAX).checked_add(point(1, 3)), Some(point(2, 3)));
}

#[test]
fn points_and_wire_positions() {
    assert_eq!(point_to_lsp(point(3, 9)), Position { line: 3, character: 9 });
    assert_eq!(point_from_lsp(Position { line: 3, character: 9 }), point(3, 9));
}

#[test]
fn an_insertion_replaces_an_empty_span() {
    let change = content_change(&edit(((0, 5), (0, 5)), ((0, 5), (0, 11)), " world")).unwrap();
    assert_eq!(change, ContentChange { range: range((0, 5), (0, 5)), text: " world".to_string() });
}

#[test]
fn a_deletion_spans_what_was_removed() {
    let change = content_change(&edit(((0, 2), (0, 6)), ((0, 2), (0, 2)), "")).unwrap();
    assert_eq!(change, ContentChange { range: range((0, 2), (0, 6)), text: String::new() });
}

#[test]
fn a_replacement_over_rows_is_laid_out_from_the_new_start() {
    // Three rows from (1, 4) to (3, 2) were replaced by text that starts at (5, 1).
    let change = content_change(&edit(((1, 4), (3, 2)), ((5, 1), (5, 3)), "ab")).unwrap();
    assert_eq!(change, ContentChange { range: range((5, 1), (7, 2)), text: "ab".to_string() });
}

#[test]
fn a_malformed_edit_has_no_replace_range() {
    // The old span ends before it starts.
    assert_eq!(content_change(&edit(((0, 6), (0, 2)), ((0, 0), (0, 0)), "")), None);
    // The end does not fit.
    assert_eq!(
        content_change(&edit(((0, 0), (0, 10)), ((0, u32::MAX), (0, u32::MAX)), "")),
        None
    );
    assert_eq!(content_change(&edit(((0, 0), (2, 0)), ((u32::MAX, 0), (u32::MAX, 0)), "")), None);
}

#[test]
fn replace_ranges_keep_the_order_of_the_edits() {
    let edits = vec![
        edit(((0, 0), (0, 1)), ((0, 0), (0, 2)), "ab"),
        edit(((2, 0), (2, 0)), ((2, 0), (2, 1)), "c"),
    ];
    assert_eq!(
        content_changes(&edits),
        Some(vec![
            ContentChange { range: range((0, 0), (0, 1)), text: "ab".to_string() },
            ContentChange { range: range((2, 0), (2, 0)), text: "c".to_string() },
        ])
    );
    assert_eq!(content_changes(&Vec::new()), Some(Vec::new()));
}

#[test]
fn one_malformed_edit_spoils_the_list() {
    let edits = vec![
        edit(((0, 0), (0, 1)), ((0, 0), (0, 2)), "ab"),
        edit(((0, 6), (0, 2)), ((0, 0), (0, 0)), ""),
    ];
    assert_eq!(content_changes(&edits), None);
}

#[test]
fn an_unchanged_document_is_synced_at_once() {
    let mut cody = Cody::fake();
    let shown = document(1, 4, "Hello");
    cody.register_buffer(&shown);
    assert_eq!(cody.handle_buffer_event(&shown, BufferEvent::Edited), BufferAction::Nothing);
    match &cody.server {
        cody::server::CodyServer::Running(server) => assert_eq!(
            server.registered_buffers[&1].report_changes(&shown),
            SyncStep::Synced {
                version: 0,
                snapshot: BufferSnapshot { version: 4, text: "Hello".to_string() },
            }
        ),
        other => panic!("the session should run, and is {:?}", other),
    }
}

#[test]
fn a_changed_document_is_pending_since_the_synced_version() {
    let mut cody = Cody::fake();
    cody.register_buffer(&document(1, 4, "Hello"));
    let edited = document(1, 6, "Hello!");
    assert_eq!(
        cody.handle_buffer_event(&edited, BufferEvent::Edited),
        BufferAction::Sync { since: 4 }
    );
}

#[test]
fn a_change_is_counted_when_it_is_committed() {
    let mut cody = Cody::fake();
    cody.register_buffer(&document(1, 0, "Hello"));
    let first = cody
        .prepare_changes(1, 0, content(1, "xHello"), a_change())
        .unwrap();
    assert_eq!(first.id, 1);
    assert_eq!(first.since, 0);
    assert_eq!(
        first.notification,
        Some(Notification::DidChange {
            uri: "buffer://1".to_string(),
            version: 1,
            content_changes: a_change(),
            content: "xHello".to_string(),
        })
    );
    // Nothing is counted before the change is committed.
    assert_eq!(
        cody.report_changes(&document(1, 0, "Hello")),
        Some(SyncStep::Synced {
            version: 0,
            snapshot: BufferSnapshot { version: 0, text: "Hello".to_string() },
        })
    );
    let synced = cody.commit_changes(&first).unwrap();
    assert_eq!(synced.version, 1);
    assert_eq!(synced.snapshot, BufferSnapshot { version: 1, text: "xHello".to_string() });

    let second = cody
        .prepare_changes(1, 1, content(2, "xxHello"), a_change())
        .unwrap();
    let synced = cody.commit_changes(&second).unwrap();
    assert_eq!(synced.version, 2);
    assert_eq!(synced.snapshot, BufferSnapshot { version: 2, text: "xxHello".to_string() });
}

#[test]
fn a_change_that_was_not_sent_leaves_the_baseline() {
    let mut cody = Cody::fake();
    cody.register_buffer(&document(1, 0, "Hello"));
    let lost = cody
        .prepare_changes(1, 0, content(1, "xHello"), a_change())
        .unwrap();
    assert!(lost.notification.is_some());
    // The send failed, so the change is dropped. The next one is worked
    // out from the same content and carries the same number.
    let next = cody
        .prepare_changes(1, 0, content(2, "xyHello"), a_change())
        .unwrap();
    match &next.notification {
        Some(Notification::DidChange { version, content, .. }) => {
            assert_eq!(*version, 1);
            assert_eq!(content, "xyHello");
        }
        other => panic!("expected a change notification, got {:?}", other),
    }
    let synced = cody.commit_changes(&next).unwrap();
    assert_eq!(synced.version, 1);
    assert_eq!(synced.snapshot, BufferSnapshot { version: 2, text: "xyHello".to_string() });
}

#[test]
fn a_stale_change_is_refused() {
    let mut cody = Cody::fake();
    cody.register_buffer(&document(1, 0, "Hello"));
    let snapshot = || BufferSnapshot { version: 1, text: "xHello".to_string() };
    // Worked out from a content that the endpoint has not seen.
    assert_eq!(cody.prepare_changes(1, 7, snapshot(), a_change()), None);
    // Two changes worked out from the same content: the second to be
    // committed comes too late.
    let first = cody.prepare_changes(1, 0, snapshot(), a_change()).unwrap();
    let second = cody.prepare_changes(1, 0, snapshot(), a_change()).unwrap();
    assert!(cody.commit_changes(&first).is_some());
    assert_eq!(cody.commit_changes(&second), None);
    assert_eq!(
        cody.report_changes(&document(1, 1, "xHello")),
        Some(SyncStep::Synced { version: 1, snapshot: snapshot() })
    );
}

#[test]
fn no_change_sends_nothing_and_keeps_the_baseline() {
    let mut cody = Cody::fake();
    cody.register_buffer(&document(1, 0, "Hello"));
    let change = cody
        .prepare_changes(1, 0, content(3, "Hello"), Vec::new())
        .unwrap();
    assert_eq!(change.notification, None);
    let synced = cody.commit_changes(&change).unwrap();
    assert_eq!(synced.version, 0);
    assert_eq!(synced.snapshot, BufferSnapshot { version: 0, text: "Hello".to_string() });
}

#[test]
fn changes_to_an_unknown_document_are_refused() {
    let mut cody = Cody::fake();
    let snapshot = BufferSnapshot { version: 1, text: "x".to_string() };
    assert_eq!(cody.prepare_changes(1, 0, snapshot.clone(), a_change()), None);
    let made_up = PreparedChange { id: 1, since: 0, snapshot, notification: None };
    assert_eq!(cody.commit_changes(&made_up), None);
}

#[test]
fn changes_after_sign_out_are_refused() {
    let mut cody = Cody::fake();
    cody.register_buffer(&document(1, 0, "Hello"));
    let snapshot = || BufferSnapshot { version: 1, text: "x".to_string() };
    let change = cody.prepare_changes(1, 0, snapshot(), a_change()).unwrap();
    cody.sign_out(&Vec::new());
    assert_eq!(cody.commit_changes(&change), None);
    assert_eq!(cody.prepare_changes(1, 0, snapshot(), a_change()), None);
    let (mut disabled, _) = Cody::start(false);
    assert_eq!(disabled.prepare_changes(1, 0, snapshot(), a_change()), None);
    assert_eq!(disabled.commit_changes(&change), None);
}

#[test]
fn no_change_is_sent_that_cannot_be_counted() {
    let mut cody = Cody::fake();
    cody.register_buffer(&document(1, 0, "Hello"));
    match &mut cody.server {
        cody::server::CodyServer::Running(server) => {
            let mut registered = server.registered_buffers.remove(&1).unwrap();
            registered.snapshot_version = i32::MAX;
            server.registered_buffers.insert(1, registered);
        }
        other => panic!("the session should run, and is {:?}", other),
    }
    let snapshot = || BufferSnapshot { version: 1, text: "x".to_string() };
    assert_eq!(cody.prepare_changes(1, 0, snapshot(), a_change()), None);
    let made_up = PreparedChange {
        id: 1,
        since: 0,
        snapshot: snapshot(),
        notification: Some(Notification::DidSave { uri: String::new() }),
    };
    assert_eq!(cody.commit_changes(&made_up), None);
    // Where there is nothing to send, there is nothing to count.
    let idle = cody.prepare_changes(1, 0, snapshot(), Vec::new()).unwrap();
    assert_eq!(cody.commit_changes(&idle).map(|synced| synced.version), Some(i32::MAX));
}

#[test]
fn a_save_is_told_under_the_registered_address() {
    let mut cody = Cody::fake();
    let shown = document(1, 0, "Hello");
    cody.register_buffer(&shown);
    assert_eq!(
        cody.handle_buffer_event(&shown, BufferEvent::Saved),
        BufferAction::Send(vec![Notification::DidSave { uri: "buffer://1".to_string() }])
    );
}

#[test]
fn a_language_change_reopens_the_document() {
    let mut cody = Cody::fake();
    let mut shown = document(1, 0, "Hello");
    cody.register_buffer(&shown);
    shown.language = Some("Markdown".to_string());
    // The content that the endpoint has seen is sent, not the current one.
    shown.text = "Hello, edited".to_string();
    assert_eq!(
        cody.handle_buffer_event(&shown, BufferEvent::LanguageChanged),
        BufferAction::Send(vec![
            Notification::DidClose { uri: "buffer://1".to_string() },
            Notification::DidOpen {
                uri: "buffer://1".to_string(),
                language_id: "markdown".to_string(),
                version: 0,
                content: "Hello".to_string(),
            },
        ])
    );
    // Once the table holds the new identity, the same event passes unnoticed.
    assert_eq!(
        cody.handle_buffer_event(&shown, BufferEvent::LanguageChanged),
        BufferAction::Nothing
    );
}

#[test]
fn an_identity_event_without_a_change_is_a_no_op() {
    let mut cody = Cody::fake();
    let shown = document(1, 0, "Hello");
    cody.register_buffer(&shown);
    assert_eq!(
        cody.handle_buffer_event(&shown, BufferEvent::FileHandleChanged),
        BufferAction::Nothing
    );
    assert_eq!(cody.handle_buffer_event(&shown, BufferEvent::Other), BufferAction::Nothing);
}

#[test]
fn changes_after_a_rename_go_under_the_new_address() {
    let mut cody = Cody::fake();
    let mut shown = document(1, 0, "Hello");
    cody.register_buffer(&shown);
    shown.file_uri = Some("file:///tmp/a.txt".to_string());
    cody.handle_buffer_event(&shown, BufferEvent::FileHandleChanged);
    let change = cody
        .prepare_changes(1, 0, content(1, "xHello"), a_change())
        .unwrap();
    match change.notification {
        Some(Notification::DidChange { uri, version, .. }) => {
            assert_eq!(uri, "file:///tmp/a.txt");
            assert_eq!(version, 1);
        }
        other => panic!("expected a change notification, got {:?}", other),
    }
}

#[test]
fn events_of_documents_that_are_not_open_pass_unnoticed() {
    let mut cody = Cody::fake();
    let stranger = document(9, 0, "text");
    for event in [
        BufferEvent::Edited,
        BufferEvent::Saved,
        BufferEvent::FileHandleChanged,
        BufferEvent::LanguageChanged,
        BufferEvent::Other,
    ] {
        assert_eq!(cody.handle_buffer_event(&stranger, event), BufferAction::Nothing);
    }
    let (mut disabled, _) = Cody::start(false);
    assert_eq!(disabled.handle_buffer_event(&stranger, BufferEvent::Saved), BufferAction::Nothing);
}

#[test]
fn events_are_followed_while_signed_out_documents_are_none() {
    // While the user is signed out the table is empty, so nothing is sent.
    let mut cody = Cody::fake();
    let shown = document(1, 0, "Hello");
    cody.register_buffer(&shown);
    cody.sign_out(&vec![shown.clone()]);
    assert_eq!(cody.handle_buffer_event(&shown, BufferEvent::Saved), BufferAction::Nothing);
}
