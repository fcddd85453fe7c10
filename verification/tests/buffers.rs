use cody::auth::{SignInProgress, SignInStep};
use cody::buffer::Buffer;
use cody::cody::Cody;
use cody::notification::Notification;
use cody::point::{PointUtf16, Position, Range};
use cody::request::{SignInInitiateResult, SignInStatus};
use cody::sync::{content_changes, BufferAction, BufferEvent, ContentChange, Edit};

fn buffer(id: u64, version: u64, text: &str) -> Buffer {
    Buffer { id, version, text: text.to_string(), language: None, file_uri: None }
}

fn open(uri: &str, language_id: &str, version: i32, content: &str) -> Notification {
    Notification::DidOpen {
        uri: uri.to_string(),
        language_id: language_id.to_string(),
        version,
        content: content.to_string(),
    }
}

fn close(uri: &str) -> Notification {
    Notification::DidClose { uri: uri.to_string() }
}

fn point(row: u32, column: u32) -> PointUtf16 {
    PointUtf16 { row, column }
}

#[test]
fn test_buffer_management() {
    let mut cody = Cody::fake();

    let mut buffer_1 = buffer(1, 0, "Hello");
    let buffer_1_uri = format!("buffer://{}", 1);
    assert_eq!(
        cody.register_buffer(&buffer_1),
        Some(open(&buffer_1_uri, "plaintext", 0, "Hello"))
    );

    let buffer_2 = buffer(2, 0, "Goodbye");
    let buffer_2_uri = format!("buffer://{}", 2);
    assert_eq!(
        cody.register_buffer(&buffer_2),
        Some(open(&buffer_2_uri, "plaintext", 0, "Goodbye"))
    );

    buffer_1.text = "Hello world".to_string();
    buffer_1.version = 1;
    assert_eq!(
        cody.handle_buffer_event(&buffer_1, BufferEvent::Edited),
        BufferAction::Sync { since: 0 }
    );
    let edits = vec![Edit {
        old_start: point(0, 5),
        old_end: point(0, 5),
        new_start: point(0, 5),
        new_end: point(0, 11),
        new_text: " world".to_string(),
    }];
    let changes = content_changes(&edits).unwrap();
    let change = cody.prepare_changes(1, 0, buffer_1.snapshot(), changes).unwrap();
    assert_eq!(
        change.notification,
        Some(Notification::DidChange {
            uri: buffer_1_uri.clone(),
            version: 1,
            content_changes: vec![ContentChange {
                range: Range {
                    start: Position { line: 0, character: 5 },
                    end: Position { line: 0, character: 5 },
                },
                text: " world".to_string(),
            }],
            content: "Hello world".to_string(),
        })
    );
    let synced = cody.commit_changes(&change).unwrap();
    assert_eq!(synced.version, 1);
    assert_eq!(synced.snapshot.text, "Hello world");

    // Updates to the file are reflected at the remote endpoint.
    let file_uri = url::Url::from_file_path("/root/child/buffer-1").unwrap().to_string();
    buffer_1.file_uri = Some(file_uri.clone());
    assert_eq!(
        cody.handle_buffer_event(&buffer_1, BufferEvent::FileHandleChanged),
        BufferAction::Send(vec![
            close(&buffer_1_uri),
            open(&file_uri, "plaintext", 1, "Hello world"),
        ])
    );
    let buffer_1_uri = file_uri;

    // All registered documents are closed when signing out.
    let live = vec![buffer_1.clone(), buffer_2.clone()];
    let (outcome, sent) = cody.sign_out(&live);
    assert_eq!(outcome, Ok(()));
    assert_eq!(sent, vec![close(&buffer_1_uri), close(&buffer_2_uri)]);

    // All known documents are opened again when signing in.
    assert_eq!(cody.sign_in(), Ok(SignInStep::Begin));
    let (progress, sent) = cody.sign_in_initiated(
        Ok(SignInInitiateResult::AlreadySignedIn { user: "user-1".to_string() }),
        &live,
    );
    assert_eq!(progress, SignInProgress::Finished(Ok(())));
    assert_eq!(
        sent,
        vec![
            open(&buffer_1_uri, "plaintext", 0, "Hello world"),
            open(&buffer_2_uri, "plaintext", 0, "Goodbye"),
        ]
    );

    // Disposing of a document closes it at the remote endpoint as well.
    assert_eq!(cody.release_buffer(2), Some(close(&buffer_2_uri)));
}

#[test]
fn register_opens_with_content_and_language() {
    let mut cody = Cody::fake();
    let mut document = buffer(7, 3, "fn main() {}");
    document.language = Some("Rust".to_string());
    assert_eq!(
        cody.register_buffer(&document),
        Some(open("buffer://7", "rust", 0, "fn main() {}"))
    );
    assert_eq!(cody.buffers, vec![7]);
    match &cody.server {
        cody::server::CodyServer::Running(server) => {
            let registered = &server.registered_buffers[&7];
            assert_eq!(registered.uri, "buffer://7");
            assert_eq!(registered.language_id, "rust");
            assert_eq!(registered.snapshot.version, 3);
            assert_eq!(registered.snapshot.text, "fn main() {}");
            assert_eq!(registered.snapshot_version, 0);
        }
        other => panic!("the session should run, and is {:?}", other),
    }
}

#[test]
fn register_again_sends_nothing() {
    let mut cody = Cody::fake();
    let document = buffer(1, 0, "Hello");
    assert!(cody.register_buffer(&document).is_some());
    assert_eq!(cody.register_buffer(&document), None);
    assert_eq!(cody.buffers, vec![1]);
}

#[test]
fn register_while_signed_out_only_takes_note() {
    let mut cody = Cody::fake();
    let (outcome, sent) = cody.sign_out(&Vec::new());
    assert_eq!(outcome, Ok(()));
    assert!(sent.is_empty());
    assert_eq!(cody.register_buffer(&buffer(4, 0, "text")), None);
    assert_eq!(cody.buffers, vec![4]);
    match &cody.server {
        cody::server::CodyServer::Running(server) => assert!(server.registered_buffers.is_empty()),
        other => panic!("the session should run, and is {:?}", other),
    }
}

#[test]
fn register_while_disabled_only_takes_note() {
    let (mut cody, start) = Cody::start(false);
    assert!(!start);
    assert_eq!(cody.register_buffer(&buffer(4, 0, "text")), None);
    assert_eq!(cody.buffers, vec![4]);
}

#[test]
fn unregister_absent_document_is_a_no_op() {
    let mut cody = Cody::fake();
    assert_eq!(cody.unregister_buffer(9), None);
    cody.register_buffer(&buffer(1, 0, "Hello"));
    assert_eq!(cody.unregister_buffer(1), Some(close("buffer://1")));
    assert_eq!(cody.unregister_buffer(1), None);
    // Closing a document does not forget it.
    assert_eq!(cody.buffers, vec![1]);
}

#[test]
fn release_forgets_and_closes() {
    let mut cody = Cody::fake();
    cody.register_buffer(&buffer(1, 0, "Hello"));
    cody.register_buffer(&buffer(2, 0, "Goodbye"));
    assert_eq!(cody.release_buffer(1), Some(close("buffer://1")));
    assert_eq!(cody.buffers, vec![2]);
    match &cody.server {
        cody::server::CodyServer::Running(server) => {
            assert!(!server.registered_buffers.contains_key(&1));
            assert!(server.registered_buffers.contains_key(&2));
        }
        other => panic!("the session should run, and is {:?}", other),
    }
    // A document that was never shown is released without a word.
    assert_eq!(cody.release_buffer(5), None);
    assert_eq!(cody.buffers, vec![2]);
}

#[test]
fn sign_out_closes_every_registered_document() {
    let mut cody = Cody::fake();
    let documents = vec![buffer(3, 0, "c"), buffer(1, 0, "a"), buffer(2, 0, "b")];
    for document in &documents {
        cody.register_buffer(document);
    }
    let (outcome, sent) = cody.sign_out(&documents);
    assert_eq!(outcome, Ok(()));
    assert_eq!(sent, vec![close("buffer://3"), close("buffer://1"), close("buffer://2")]);
    match &cody.server {
        cody::server::CodyServer::Running(server) => assert!(server.registered_buffers.is_empty()),
        other => panic!("the session should run, and is {:?}", other),
    }
    // The documents stay known for the next sign-in.
    assert_eq!(cody.buffers, vec![3, 1, 2]);
}

#[test]
fn sign_in_opens_every_known_document_at_version_zero() {
    let mut cody = Cody::fake();
    cody.sign_out(&Vec::new());
    let first = buffer(1, 5, "one");
    let second = buffer(2, 8, "two");
    let gone = buffer(3, 0, "three");
    cody.register_buffer(&first);
    cody.register_buffer(&second);
    cody.register_buffer(&gone);
    assert_eq!(cody.sign_in(), Ok(SignInStep::Begin));
    let live = vec![second.clone(), first.clone()];
    let (outcome, sent) =
        cody.sign_in_confirmed(Ok(SignInStatus::MaybeOk { user: "user".to_string() }), &live);
    assert_eq!(outcome, Ok(()));
    assert_eq!(
        sent,
        vec![open("buffer://1", "plaintext", 0, "one"), open("buffer://2", "plaintext", 0, "two")]
    );
    // The document that no longer exists is forgotten.
    assert_eq!(cody.buffers, vec![1, 2]);
}

#[test]
fn unauthorized_status_closes_documents() {
    let mut cody = Cody::fake();
    let document = buffer(1, 0, "Hello");
    cody.register_buffer(&document);
    let sent = cody.update_sign_in_status(
        &SignInStatus::NotAuthorized { user: "user".to_string() },
        &vec![document],
    );
    assert_eq!(sent, vec![close("buffer://1")]);
    assert_eq!(cody.status(), cody::cody::Status::Unauthorized);
}

#[test]
fn registered_documents_survive_a_sweep_that_does_not_list_them() {
    let mut cody = Cody::fake();
    cody.register_buffer(&buffer(1, 0, "Hello"));
    // The host lists no document, yet the one that is open is closed.
    let (_, sent) = cody.sign_out(&Vec::new());
    assert_eq!(sent, vec![close("buffer://1")]);
    assert_eq!(cody.buffers, vec![1]);
}

#[test]
fn the_first_of_two_live_documents_with_one_identity_counts() {
    let mut cody = Cody::fake();
    cody.sign_out(&Vec::new());
    cody.register_buffer(&buffer(1, 0, "known"));
    let live = vec![buffer(1, 1, "first"), buffer(1, 2, "second")];
    let status = SignInStatus::Okay { user: Some("u".to_string()) };
    let sent = cody.update_sign_in_status(&status, &live);
    assert_eq!(sent, vec![open("buffer://1", "plaintext", 0, "first")]);
}
