use cody::buffer::{id_for_language, uri_for_buffer, Buffer, BufferSnapshot};
use cody::cody::Cody;
use cody::completion::{completions_from, Anchor, Bias, Completion, CompletionRequest};
use cody::notification::Notification;
use cody::point::{PointUtf16, Position, Range};
use cody::request;
use cody::server::Error;
use cody::sync::SyncStep;
use cody::text::clip_point_utf16;

fn point(row: u32, column: u32) -> PointUtf16 {
    PointUtf16 { row, column }
}

fn document(id: u64, version: u64, text: &str) -> Buffer {
    Buffer { id, version, text: text.to_string(), language: None, file_uri: None }
}

fn proposed(id: &str, text: &str, start: (u32, u32), end: (u32, u32)) -> request::Completion {
    request::Completion {
        insert_text: text.to_string(),
        id: id.to_string(),
        range: Range {
            start: Position { line: start.0, character: start.1 },
            end: Position { line: end.0, character: end.1 },
        },
    }
}

fn completion(uuid: &str) -> Completion {
    Completion {
        uuid: uuid.to_string(),
        range: Anchor { point: point(0, 0), bias: Bias::Left }
            ..Anchor { point: point(0, 0), bias: Bias::Right },
        text: String::new(),
    }
}

#[test]
fn clip_keeps_a_boundary() {
    let text = "ab\ncde\n";
    for valid in [point(0, 0), point(0, 1), point(0, 2), point(1, 0), point(1, 3), point(2, 0)] {
        assert_eq!(clip_point_utf16(text, valid), valid);
    }
}

#[test]
fn clip_a_column_beyond_its_row_to_the_end_of_the_row() {
    assert_eq!(clip_point_utf16("ab\ncde", point(0, 3)), point(0, 2));
    assert_eq!(clip_point_utf16("ab\ncde", point(0, u32::MAX)), point(0, 2));
    assert_eq!(clip_point_utf16("ab\ncde", point(1, 9)), point(1, 3));
    assert_eq!(clip_point_utf16("\n\n", point(1, 4)), point(1, 0));
}

#[test]
fn clip_a_position_after_the_text_to_its_end() {
    assert_eq!(clip_point_utf16("ab\ncde", point(2, 0)), point(1, 3));
    assert_eq!(clip_point_utf16("ab\ncde", point(u32::MAX, u32::MAX)), point(1, 3));
    assert_eq!(clip_point_utf16("ab\n", point(7, 1)), point(1, 0));
    assert_eq!(clip_point_utf16("", point(0, 1)), point(0, 0));
    assert_eq!(clip_point_utf16("", point(3, 0)), point(0, 0));
}

#[test]
fn clip_inside_a_character_to_its_start() {
    // The emoji takes two UTF-16 code units: columns 1 and 2.
    let text = "a\u{1F600}b";
    assert_eq!(clip_point_utf16(text, point(0, 1)), point(0, 1));
    assert_eq!(clip_point_utf16(text, point(0, 2)), point(0, 1));
    assert_eq!(clip_point_utf16(text, point(0, 3)), point(0, 3));
    assert_eq!(clip_point_utf16(text, point(0, 4)), point(0, 4));
    assert_eq!(clip_point_utf16(text, point(0, 5)), point(0, 4));
    // Characters of the basic plane take one code unit, whatever their UTF-8 length.
    assert_eq!(clip_point_utf16("\u{e9}\u{4e2d}x", point(0, 2)), point(0, 2));
}

#[test]
fn completions_are_clipped_and_anchored() {
    let snapshot = BufferSnapshot { version: 1, text: "let x\nfoo".to_string() };
    let result = request::GetCompletionsResult {
        completions: vec![
            proposed("one", " = 1;", (0, 5), (0, 5)),
            proposed("two", "bar", (1, 0), (1, 40)),
            proposed("three", "", (9, 9), (9, 9)),
        ],
    };
    assert_eq!(
        completions_from(&result, &snapshot),
        vec![
            Completion {
                uuid: "one".to_string(),
                range: Anchor { point: point(0, 5), bias: Bias::Left }
                    ..Anchor { point: point(0, 5), bias: Bias::Right },
                text: " = 1;".to_string(),
            },
            Completion {
                uuid: "two".to_string(),
                range: Anchor { point: point(1, 0), bias: Bias::Left }
                    ..Anchor { point: point(1, 3), bias: Bias::Right },
                text: "bar".to_string(),
            },
            Completion {
                uuid: "three".to_string(),
                range: Anchor { point: point(1, 3), bias: Bias::Left }
                    ..Anchor { point: point(1, 3), bias: Bias::Right },
                text: String::new(),
            },
        ]
    );
    assert_eq!(
        completions_from(&request::GetCompletionsResult { completions: Vec::new() }, &snapshot),
        Vec::new()
    );
}

#[test]
fn completions_register_the_document_first() {
    let mut cody = Cody::fake();
    let shown = document(1, 2, "Hello");
    let (opened, asked) = cody.completions(&shown, point(0, 5));
    assert_eq!(
        opened,
        Some(Notification::DidOpen {
            uri: "buffer://1".to_string(),
            language_id: "plaintext".to_string(),
            version: 0,
            content: "Hello".to_string(),
        })
    );
    assert_eq!(
        asked,
        Ok(CompletionRequest {
            method: "autocomplete/execute",
            params: request::GetCompletionsParams {
                uri: "buffer://1".to_string(),
                position: Position { line: 0, character: 5 },
            },
            sync: SyncStep::Synced {
                version: 0,
                snapshot: BufferSnapshot { version: 2, text: "Hello".to_string() },
            },
        })
    );
}

#[test]
fn completions_wait_for_pending_changes() {
    let mut cody = Cody::fake();
    cody.register_buffer(&document(1, 2, "Hello"));
    let (opened, asked) = cody.completions_cycling(&document(1, 3, "Hello!"), point(0, 6));
    assert_eq!(opened, None);
    let asked = asked.unwrap();
    assert_eq!(asked.method, "getCompletionsCycling");
    assert_eq!(asked.sync, SyncStep::Pending { since: 2 });
    assert_eq!(asked.params.position, Position { line: 0, character: 6 });
}

#[test]
fn completions_need_an_authorized_user() {
    let mut cody = Cody::fake();
    cody.sign_out(&Vec::new());
    let (opened, asked) = cody.completions(&document(1, 0, "Hello"), point(0, 0));
    assert_eq!(opened, None);
    assert_eq!(asked, Err(Error::NotAuthorized));
    // The document is known all the same.
    assert_eq!(cody.buffers, vec![1]);

    let (mut starting, _) = Cody::start(true);
    let (_, asked) = starting.completions_cycling(&document(1, 0, "Hello"), point(0, 0));
    assert_eq!(asked, Err(Error::StillStarting));
}

#[test]
fn accepting_a_completion_names_it() {
    let mut cody = Cody::fake();
    assert_eq!(
        cody.accept_completion(&completion("abc")),
        Ok(request::NotifyAcceptedParams { uuid: "abc".to_string() })
    );
    cody.sign_out(&Vec::new());
    assert_eq!(cody.accept_completion(&completion("abc")), Err(Error::NotAuthorized));
}

#[test]
fn discarding_completions_names_them_in_order() {
    let mut cody = Cody::fake();
    assert_eq!(
        cody.discard_completions(&[completion("b"), completion("a")]),
        Ok(request::NotifyRejectedParams { uuids: vec!["b".to_string(), "a".to_string()] })
    );
    assert_eq!(
        cody.discard_completions(&[]),
        Ok(request::NotifyRejectedParams { uuids: Vec::new() })
    );
    let (mut disabled, _) = Cody::start(false);
    assert_eq!(disabled.discard_completions(&[completion("a")]), Err(Error::Disabled));
}

#[test]
fn language_tags() {
    assert_eq!(id_for_language(&None), "plaintext");
    assert_eq!(id_for_language(&Some("Plain Text".to_string())), "plaintext");
    assert_eq!(id_for_language(&Some("Rust".to_string())), "rust");
    assert_eq!(id_for_language(&Some("TypeScript".to_string())), "typescript");
    assert_eq!(id_for_language(&Some("plain text".to_string())), "plain text");
    assert_eq!(id_for_language(&Some("\u{c9}COLE".to_string())), "\u{e9}cole");
}

#[test]
fn addresses_of_documents() {
    assert_eq!(uri_for_buffer(&document(0, 0, "")), "buffer://0");
    assert_eq!(uri_for_buffer(&document(7, 0, "")), "buffer://7");
    assert_eq!(uri_for_buffer(&document(10, 0, "")), "buffer://10");
    assert_eq!(uri_for_buffer(&document(4096, 0, "")), "buffer://4096");
    assert_eq!(uri_for_buffer(&document(u64::MAX, 0, "")), "buffer://18446744073709551615");
    let mut with_file = document(7, 0, "");
    with_file.file_uri = Some("file:///root/child/buffer-1".to_string());
    assert_eq!(uri_for_buffer(&with_file), "file:///root/child/buffer-1");
}

#[test]
fn addresses_are_normalized() {
    let mut with_file = document(7, 0, "");
    with_file.file_uri = Some("FILE:///root/child/../buffer-1".to_string());
    assert_eq!(uri_for_buffer(&with_file), "file:///root/buffer-1");
    with_file.file_uri = Some("file:///tmp/a b.txt".to_string());
    assert_eq!(uri_for_buffer(&with_file), "file:///tmp/a%20b.txt");
    // What is no URL stands as it is.
    with_file.file_uri = Some("/tmp/relative".to_string());
    assert_eq!(uri_for_buffer(&with_file), "/tmp/relative");

    let mut cody = Cody::fake();
    with_file.file_uri = Some("HTTP://Example.com".to_string());
    match cody.register_buffer(&with_file) {
        Some(Notification::DidOpen { uri, .. }) => assert_eq!(uri, "http://example.com/"),
        other => panic!("expected an open notification, got {:?}", other),
    }
}

#[test]
fn an_address_is_what_the_url_parser_writes() {
    for id in [0, 1, 99, u64::MAX] {
        let parsed = url::Url::parse(&format!("buffer://{}", id)).unwrap();
        assert_eq!(uri_for_buffer(&document(id, 0, "")), parsed.as_str());
    }
}

#[test]
fn snapshot_of_a_document() {
    assert_eq!(
        document(1, 5, "Hello").snapshot(),
        BufferSnapshot { version: 5, text: "Hello".to_string() }
    );
}

#[test]
fn wire_names() {
    assert_eq!(request::CheckStatus::METHOD, "checkStatus");
    assert_eq!(request::Initialize::METHOD, "initialize");
    assert_eq!(request::SignInInitiate::METHOD, "signInInitiate");
    assert_eq!(request::SignInConfirm::METHOD, "signInConfirm");
    assert_eq!(request::SignOut::METHOD, "signOut");
    assert_eq!(request::GetCompletions::METHOD, "autocomplete/execute");
    assert_eq!(request::GetCompletionsCycling::METHOD, "getCompletionsCycling");
    assert_eq!(request::DidOpenTextDocument::METHOD, "textDocument/didOpen");
    assert_eq!(request::DidChangeTextDocument::METHOD, "textDocument/didChange");
    assert_eq!(request::LogMessage::METHOD, "LogMessage");
    assert_eq!(request::StatusNotification::METHOD, "statusNotification");
    assert_eq!(request::SetEditorInfo::METHOD, "setEditorInfo");
    assert_eq!(request::NotifyAccepted::METHOD, "notifyAccepted");
    assert_eq!(request::NotifyRejected::METHOD, "notifyRejected");
}

#[test]
fn wire_names_of_notifications() {
    let uri = || "buffer://1".to_string();
    assert_eq!(
        Notification::DidOpen {
            uri: uri(),
            language_id: "plaintext".to_string(),
            version: 0,
            content: String::new(),
        }
        .method(),
        "textDocument/didOpen"
    );
    assert_eq!(
        Notification::DidChange {
            uri: uri(),
            version: 1,
            content_changes: Vec::new(),
            content: String::new(),
        }
        .method(),
        "textDocument/didChange"
    );
    assert_eq!(Notification::DidClose { uri: uri() }.method(), "textDocument/didClose");
    assert_eq!(Notification::DidSave { uri: uri() }.method(), "textDocument/didSave");
}
