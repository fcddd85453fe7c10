use cody::buffer::{Buffer, BufferSnapshot};
use cody::cody::Cody;
use cody::diff::diff;
use cody::notification::Notification;
use cody::point::{PointUtf16, Position, Range};
use cody::sync::{content_changes, ContentChange, Edit};

fn point(row: u32, column: u32) -> PointUtf16 {
    PointUtf16 { row, column }
}

fn edit(old: ((u32, u32), (u32, u32)), new_end: (u32, u32), text: &str) -> Edit {
    Edit {
        old_start: point((old.0).0, (old.0).1),
        old_end: point((old.1).0, (old.1).1),
        new_start: point((old.0).0, (old.0).1),
        new_end: point(new_end.0, new_end.1),
        new_text: text.to_string(),
    }
}

fn document(id: u64, version: u64, text: &str) -> Buffer {
    Buffer { id, version, text: text.to_string(), language: None, file_uri: None }
}

/// Replaces in `old` what the edit names, for texts of one row of ASCII.
fn apply(old: &str, edit: &Edit) -> String {
    let start = edit.old_start.column as usize;
    let end = edit.old_end.column as usize;
    format!("{}{}{}", &old[..start], edit.new_text, &old[end..])
}

#[test]
fn equal_texts_have_no_diff() {
    assert_eq!(diff("", ""), Some(Vec::new()));
    assert_eq!(diff("Hello", "Hello"), Some(Vec::new()));
    assert_eq!(diff("a\nb\n", "a\nb\n"), Some(Vec::new()));
}

#[test]
fn an_appended_text_is_an_insertion_at_the_end() {
    assert_eq!(
        diff("Hello", "Hello world"),
        Some(vec![edit(((0, 5), (0, 5)), (0, 11), " world")])
    );
}

#[test]
fn a_removed_text_is_a_deletion() {
    assert_eq!(diff("Hello", ""), Some(vec![edit(((0, 0), (0, 5)), (0, 0), "")]));
    assert_eq!(diff("Hello world", "Hello"), Some(vec![edit(((0, 5), (0, 11)), (0, 5), "")]));
    assert_eq!(diff("aaa", "aa"), Some(vec![edit(((0, 2), (0, 3)), (0, 2), "")]));
}

#[test]
fn the_prefix_is_taken_before_the_suffix() {
    // The inserted `l` could stand at three places; it is put after the
    // longest prefix that the texts share.
    assert_eq!(diff("Hello", "Helllo"), Some(vec![edit(((0, 4), (0, 4)), (0, 5), "l")]));
    assert_eq!(diff("abab", "ab"), Some(vec![edit(((0, 2), (0, 4)), (0, 2), "")]));
}

#[test]
fn a_replacement_in_the_middle() {
    assert_eq!(diff("abcdef", "abXYef"), Some(vec![edit(((0, 2), (0, 4)), (0, 4), "XY")]));
    assert_eq!(diff("abc", "xyz"), Some(vec![edit(((0, 0), (0, 3)), (0, 3), "xyz")]));
}

#[test]
fn positions_count_rows_and_utf16_units() {
    assert_eq!(diff("a\nb\nc", "a\nB\nc"), Some(vec![edit(((1, 0), (1, 1)), (1, 1), "B")]));
    assert_eq!(diff("a\nb", "a\nb\nc\n"), Some(vec![edit(((1, 1), (1, 1)), (3, 0), "\nc\n")]));
    assert_eq!(
        diff("\u{1F600}x", "\u{1F600}y"),
        Some(vec![edit(((0, 2), (0, 3)), (0, 3), "y")])
    );
    assert_eq!(
        diff("x", "\u{1F600}x"),
        Some(vec![edit(((0, 0), (0, 0)), (0, 2), "\u{1F600}")])
    );
    assert_eq!(diff("one\ntwo", "one"), Some(vec![edit(((0, 3), (1, 3)), (0, 3), "")]));
}

#[test]
fn the_edit_turns_the_old_text_into_the_new() {
    let texts = ["", "a", "ab", "ba", "aba", "abba", "Hello", "Hello world", "Help", "xHello"];
    for old in texts {
        for new in texts {
            let edits = diff(old, new).unwrap();
            if old == new {
                assert!(edits.is_empty());
            } else {
                assert_eq!(edits.len(), 1);
                assert_eq!(apply(old, &edits[0]), new);
            }
        }
    }
}

#[test]
fn a_diff_has_replace_ranges() {
    let edits = diff("Hello", "Hello world").unwrap();
    assert_eq!(
        content_changes(&edits),
        Some(vec![ContentChange {
            range: Range {
                start: Position { line: 0, character: 5 },
                end: Position { line: 0, character: 5 },
            },
            text: " world".to_string(),
        }])
    );
    let edits = diff("one\ntwo\nthree", "one\nthree").unwrap();
    assert_eq!(
        content_changes(&edits),
        Some(vec![ContentChange {
            range: Range {
                start: Position { line: 1, character: 1 },
                end: Position { line: 2, character: 1 },
            },
            text: String::new(),
        }])
    );
}

#[test]
fn sync_from_content_sends_what_changed() {
    let mut cody = Cody::fake();
    cody.register_buffer(&document(1, 0, "Hello"));
    let change = cody.prepare_sync(&document(1, 1, "Hello world")).unwrap();
    assert_eq!(change.since, 0);
    assert_eq!(
        change.notification,
        Some(Notification::DidChange {
            uri: "buffer://1".to_string(),
            version: 1,
            content_changes: vec![ContentChange {
                range: Range {
                    start: Position { line: 0, character: 5 },
                    end: Position { line: 0, character: 5 },
                },
                text: " world".to_string(),
            }],
            content: "Hello world".to_string(),
        })
    );
    let synced = cody.commit_changes(&change).unwrap();
    assert_eq!(synced.version, 1);
    assert_eq!(synced.snapshot, BufferSnapshot { version: 1, text: "Hello world".to_string() });
}

#[test]
fn sync_from_content_without_a_net_change_sends_nothing() {
    let mut cody = Cody::fake();
    cody.register_buffer(&document(1, 0, "Hello"));
    // The host's token has moved on, the content has not.
    let change = cody.prepare_sync(&document(1, 2, "Hello")).unwrap();
    assert_eq!(change.notification, None);
    let synced = cody.commit_changes(&change).unwrap();
    assert_eq!(synced.version, 0);
    assert_eq!(synced.snapshot, BufferSnapshot { version: 0, text: "Hello".to_string() });
    // With the same token the content is not even looked at.
    let change = cody.prepare_sync(&document(1, 0, "Hello, unseen")).unwrap();
    assert_eq!(change.notification, None);
}

#[test]
fn sync_from_content_needs_a_registered_document_and_an_authorized_user() {
    let mut cody = Cody::fake();
    assert_eq!(cody.prepare_sync(&document(1, 1, "Hello")), None);
    cody.register_buffer(&document(1, 0, "Hello"));
    cody.sign_out(&Vec::new());
    assert_eq!(cody.prepare_sync(&document(1, 1, "Hello!")), None);
    assert_eq!(cody.report_changes(&document(1, 1, "Hello!")), None);
}
