use std::collections::HashMap;

use robin_editor::buffer::DocumentBuffer;
use robin_editor::actions::Command;
use robin_editor::lifecycle::{
    DialogResponse, EditorWindow, Effect, FileOp, LoadOutcome, OpError, OpState,
};

fn window_with(content: &[u8]) -> EditorWindow {
    let mut b = DocumentBuffer::new();
    b.replace_contents(content.to_vec());
    EditorWindow::new(b)
}

#[test]
fn open_replaces_buffer_with_file_bytes() {
    // The scenario: a buffer holding the literal default "test" opens the
    // file "buffer.rs", whose bytes happen to be "test" as well; afterwards
    // the buffer holds exactly the file's bytes.
    let mut w = window_with(b"test");
    let file_bytes = b"test".to_vec();

    assert_eq!(w.invoke(Command::Open), Effect::ShowDialog(FileOp::Open));
    let eff = w.dialog_response_open(DialogResponse::Accept, Some("buffer.rs".to_string()));
    assert_eq!(eff, Effect::StartLoad("buffer.rs".to_string()));
    let eff = w.complete_load(LoadOutcome::Loaded(file_bytes.clone()));
    assert_eq!(eff, Effect::Nothing);
    assert_eq!(w.buffer_contents(), file_bytes);
    assert_eq!(w.current_state(), OpState::Idle);
}

#[test]
fn open_overwrites_prior_content_entirely() {
    let mut w = window_with(b"some long prior document");
    w.invoke(Command::Open);
    w.dialog_response_open(DialogResponse::Accept, Some("buffer.rs".to_string()));
    w.complete_load(LoadOutcome::Loaded(b"test".to_vec()));
    assert_eq!(w.buffer_contents(), b"test".to_vec());
}

#[test]
fn cancel_of_the_open_dialog_keeps_the_buffer() {
    let mut w = window_with(b"untouched");
    w.invoke(Command::Open);
    let eff = w.dialog_response_open(DialogResponse::Cancel, None);
    assert_eq!(eff, Effect::Nothing);
    assert_eq!(w.buffer_contents(), b"untouched".to_vec());
    assert_eq!(w.current_state(), OpState::Idle);
}

#[test]
fn cancel_of_the_save_dialog_keeps_the_buffer() {
    let mut w = window_with(b"untouched");
    w.invoke(Command::Save);
    let eff = w.dialog_response_save(DialogResponse::Cancel, Some("ignored".to_string()));
    assert_eq!(eff, Effect::Nothing);
    assert_eq!(w.buffer_contents(), b"untouched".to_vec());
    assert_eq!(w.current_state(), OpState::Idle);
}

#[test]
fn an_unresolvable_path_is_a_recoverable_notice() {
    let mut w = window_with(b"kept");
    w.invoke(Command::Open);
    let eff = w.dialog_response_open(DialogResponse::Accept, None);
    assert_eq!(eff, Effect::Notice(OpError::PathUnresolved));
    assert_eq!(w.buffer_contents(), b"kept".to_vec());
    assert_eq!(w.current_state(), OpState::Idle);
    assert!(w.window_is_open());
}

#[test]
fn a_failed_load_keeps_the_buffer() {
    let mut w = window_with(b"kept");
    w.invoke(Command::Open);
    w.dialog_response_open(DialogResponse::Accept, Some("missing.txt".to_string()));
    let eff = w.complete_load(LoadOutcome::ReadFailed);
    assert_eq!(eff, Effect::Notice(OpError::IoFailed));
    assert_eq!(w.buffer_contents(), b"kept".to_vec());
    assert_eq!(w.current_state(), OpState::Idle);
}

#[test]
fn an_unopenable_file_keeps_the_buffer() {
    let mut w = window_with(b"kept");
    w.invoke(Command::Open);
    w.dialog_response_open(DialogResponse::Accept, Some("no/such/file".to_string()));
    let eff = w.complete_load(LoadOutcome::OpenFailed);
    assert_eq!(eff, Effect::Notice(OpError::OpenFailed));
    assert_eq!(w.buffer_contents(), b"kept".to_vec());
}

#[test]
fn a_failed_save_keeps_the_buffer() {
    let mut w = window_with(b"kept");
    w.invoke(Command::Save);
    w.dialog_response_save(DialogResponse::Accept, Some("out.txt".to_string()));
    let eff = w.complete_save(false);
    assert_eq!(eff, Effect::Notice(OpError::IoFailed));
    assert_eq!(w.buffer_contents(), b"kept".to_vec());
}

#[test]
fn save_payload_is_exactly_the_buffer() {
    let mut w = window_with(b"document body");
    w.invoke(Command::Save);
    let eff = w.dialog_response_save(DialogResponse::Accept, Some("out.txt".to_string()));
    match eff {
        Effect::StartSave(path, data) => {
            assert_eq!(path, "out.txt");
            assert_eq!(data, b"document body".to_vec());
        }
        other => panic!("expected a save to start, got {other:?}"),
    }
    // the save itself never changes the buffer
    assert_eq!(w.complete_save(true), Effect::Nothing);
    assert_eq!(w.buffer_contents(), b"document body".to_vec());
}

#[test]
fn save_then_open_round_trips() {
    let content = b"round trip me".to_vec();
    let mut store: HashMap<String, Vec<u8>> = HashMap::new();
    let mut w = window_with(&content);

    // save the buffer to "out.txt"
    w.invoke(Command::Save);
    let eff = w.dialog_response_save(DialogResponse::Accept, Some("out.txt".to_string()));
    match eff {
        Effect::StartSave(path, data) => {
            store.insert(path, data);
        }
        other => panic!("expected a save to start, got {other:?}"),
    }
    w.complete_save(true);

    // scribble over the buffer by loading something else entirely
    w.invoke(Command::Open);
    w.dialog_response_open(DialogResponse::Accept, Some("scratch.txt".to_string()));
    w.complete_load(LoadOutcome::Loaded(b"something else".to_vec()));
    assert_ne!(w.buffer_contents(), content);

    // then re-open "out.txt"
    w.invoke(Command::Open);
    let eff = w.dialog_response_open(DialogResponse::Accept, Some("out.txt".to_string()));
    let loaded = match eff {
        Effect::StartLoad(path) => match store.get(&path) {
            Some(bytes) => LoadOutcome::Loaded(bytes.clone()),
            None => LoadOutcome::OpenFailed,
        },
        other => panic!("expected a load to start, got {other:?}"),
    };
    w.complete_load(loaded);

    assert_eq!(w.buffer_contents(), content);
}

#[test]
fn close_tears_the_window_down() {
    let mut w = window_with(b"unsaved changes, and no prompt for them");
    let eff = w.invoke(Command::Close);
    assert_eq!(eff, Effect::CloseWindow);
    assert!(!w.window_is_open());
    assert_eq!(w.current_state(), OpState::Idle);
}

#[test]
fn close_works_even_mid_dialog() {
    let mut w = window_with(b"anything");
    w.invoke(Command::Open);
    let eff = w.invoke(Command::Close);
    assert_eq!(eff, Effect::CloseWindow);
    assert!(!w.window_is_open());
}
