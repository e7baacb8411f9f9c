use bindata_cli::listing::DirEntry;
use bindata_cli::payload::payload;
use bindata_cli::state::{Action, App, Event, InputMode, Key, Task};

fn stream_dirs(ids: &[&str]) -> Vec<DirEntry> {
    ids.iter()
        .map(|id| DirEntry {
            is_dir: true,
            has_text_name: true,
            meta: Some(format!("{{\"id\": \"{}\"}}", id)),
        })
        .collect()
}

fn started(ids: &[&str]) -> App {
    let (mut app, action) = App::new();
    assert!(matches!(action, Action::ListStreams));
    assert!(app.is_loading);
    assert!(matches!(app.step(Event::StreamsListed(stream_dirs(ids))), Action::Wait));
    app
}

fn press(app: &mut App, key: Key) -> Action {
    app.step(Event::Key(key))
}

fn type_text(app: &mut App, text: &str) {
    for c in text.chars() {
        assert!(matches!(press(app, Key::Char(c)), Action::Wait));
    }
}

fn with_selected(ids: &[&str], index: usize) -> App {
    let mut app = started(ids);
    for _ in 0..index + 1 {
        press(&mut app, Key::Down);
    }
    assert_eq!(app.selected_stream, Some(index));
    app
}

#[test]
fn start_lists_the_streams() {
    let app = started(&["b", "a"]);
    assert_eq!(app.streams, vec!["a", "b"]);
    assert_eq!(app.selected_stream, None);
    assert_eq!(app.input_mode, InputMode::Normal);
    assert_eq!(app.read_position, 0);
    assert_eq!(app.read_length, 100);
    assert!(!app.is_loading);
    assert!(app.messages.is_empty());
    assert!(app.upload_progress.is_none());
}

#[test]
fn selection_moves_within_the_list() {
    let mut app = started(&["a", "b"]);
    press(&mut app, Key::Up);
    assert_eq!(app.selected_stream, None);
    press(&mut app, Key::Down);
    assert_eq!(app.selected_stream, Some(0));
    press(&mut app, Key::Down);
    assert_eq!(app.selected_stream, Some(1));
    press(&mut app, Key::Down);
    assert_eq!(app.selected_stream, Some(1));
    press(&mut app, Key::Up);
    press(&mut app, Key::Up);
    assert_eq!(app.selected_stream, Some(0));
}

#[test]
fn up_and_down_undo_each_other() {
    let mut app = with_selected(&["a", "b", "c"], 1);
    press(&mut app, Key::Down);
    press(&mut app, Key::Up);
    assert_eq!(app.selected_stream, Some(1));
    press(&mut app, Key::Up);
    press(&mut app, Key::Down);
    assert_eq!(app.selected_stream, Some(1));
}

#[test]
fn nothing_to_select_in_an_empty_list() {
    let mut app = started(&[]);
    press(&mut app, Key::Down);
    assert_eq!(app.selected_stream, None);
}

#[test]
fn q_quits_unless_it_is_typed() {
    let mut app = started(&[]);
    assert!(matches!(press(&mut app, Key::Char('q')), Action::Quit));
    press(&mut app, Key::Char('c'));
    assert!(matches!(press(&mut app, Key::Char('q')), Action::Wait));
    assert_eq!(app.input, "q");
}

#[test]
fn writing_reading_and_uploading_need_a_selection() {
    let mut app = started(&["a"]);
    press(&mut app, Key::Char('w'));
    press(&mut app, Key::Char('r'));
    assert_eq!(app.input_mode, InputMode::Normal);
    assert!(app.messages.is_empty());
    press(&mut app, Key::Char('u'));
    assert_eq!(app.input_mode, InputMode::Normal);
    assert_eq!(app.messages, vec!["Please select a stream first"]);
}

#[test]
fn upload_key_asks_for_a_path() {
    let mut app = with_selected(&["a"], 0);
    press(&mut app, Key::Char('u'));
    assert_eq!(app.input_mode, InputMode::Writing);
    assert_eq!(app.messages, vec!["Enter path to file to upload (prefix with 'file:'):"]);
}

#[test]
fn other_keys_and_events_do_nothing() {
    let mut app = with_selected(&["a"], 0);
    for key in [Key::Char('x'), Key::Enter, Key::Esc, Key::Backspace, Key::Other] {
        assert!(matches!(press(&mut app, key), Action::Wait));
    }
    assert!(matches!(app.step(Event::Other), Action::Wait));
    assert!(matches!(app.step(Event::ChunkStored(Ok(0))), Action::Wait));
    assert_eq!(app.input_mode, InputMode::Normal);
    assert_eq!(app.selected_stream, Some(0));
    assert!(app.messages.is_empty());
    assert!(app.input.is_empty());
}

#[test]
fn typing_can_be_taken_back_and_abandoned() {
    let mut app = started(&[]);
    press(&mut app, Key::Char('c'));
    assert_eq!(app.input_mode, InputMode::Creating);
    type_text(&mut app, "ab\u{e9}");
    press(&mut app, Key::Backspace);
    assert_eq!(app.input, "ab");
    press(&mut app, Key::Backspace);
    press(&mut app, Key::Backspace);
    press(&mut app, Key::Backspace);
    assert_eq!(app.input, "");
    type_text(&mut app, "x");
    press(&mut app, Key::Esc);
    assert_eq!(app.input_mode, InputMode::Normal);
    assert_eq!(app.input, "");
}

#[test]
fn creating_a_stream_lists_the_streams_anew() {
    let mut app = with_selected(&["b"], 0);
    press(&mut app, Key::Char('c'));
    assert!(matches!(press(&mut app, Key::Enter), Action::Wait));
    assert_eq!(app.input_mode, InputMode::Creating);
    type_text(&mut app, "a");
    match press(&mut app, Key::Enter) {
        Action::CreateStream { stream_id } => assert_eq!(stream_id, "a"),
        _ => panic!("a stream is to be created"),
    }
    assert!(matches!(app.step(Event::StreamCreated(Ok(()))), Action::ListStreams));
    assert!(app.is_loading);
    assert!(matches!(app.step(Event::StreamsListed(stream_dirs(&["b", "a"]))), Action::Wait));
    assert_eq!(app.messages, vec!["Created stream: a"]);
    assert_eq!(app.streams, vec!["a", "b"]);
    assert_eq!(app.selected_stream, Some(0));
    assert_eq!(app.input_mode, InputMode::Normal);
    assert_eq!(app.input, "");
    assert!(!app.is_loading);
}

#[test]
fn refresh_keeps_a_selection_that_is_still_in_the_list() {
    let mut app = with_selected(&["a", "b", "c"], 1);
    assert!(matches!(press(&mut app, Key::Char('f')), Action::ListStreams));
    assert!(app.is_loading);
    app.step(Event::StreamsListed(stream_dirs(&["c", "d"])));
    assert_eq!(app.selected_stream, Some(1));
    assert_eq!(app.messages, vec!["Refreshing streams...", "Streams refreshed"]);
    press(&mut app, Key::Char('f'));
    app.step(Event::StreamsListed(stream_dirs(&["d"])));
    assert_eq!(app.selected_stream, None);
    assert_eq!(app.streams, vec!["d"]);
    assert!(app.stream_metadata.get("c").is_none());
    assert_eq!(app.stream_metadata.get("d").unwrap().created_at, "unknown");
}

#[test]
fn refreshing_twice_is_refreshing_once() {
    let mut app = with_selected(&["a", "b"], 1);
    app.refresh_streams(&stream_dirs(&["x"]));
    assert_eq!(app.selected_stream, None);
    app.refresh_streams(&stream_dirs(&["x"]));
    assert_eq!(app.streams, vec!["x"]);
    assert_eq!(app.selected_stream, None);
}

#[test]
fn typed_text_is_appended() {
    let mut app = with_selected(&["a", "b"], 1);
    press(&mut app, Key::Char('w'));
    type_text(&mut app, "h\u{e9} file:");
    match press(&mut app, Key::Enter) {
        Action::Append { stream_id, data } => {
            assert_eq!(stream_id, "b");
            assert_eq!(data.to_vec(), "h\u{e9} file:".as_bytes().to_vec());
        }
        _ => panic!("a text is to be appended"),
    }
    app.step(Event::Appended(Ok(120)));
    assert_eq!(app.messages, vec!["Wrote data at position 120"]);
    assert_eq!(app.input_mode, InputMode::Normal);
    assert_eq!(app.input, "");
}

#[test]
fn a_refused_text_is_reported() {
    let mut app = with_selected(&["a"], 0);
    press(&mut app, Key::Char('w'));
    press(&mut app, Key::Enter);
    app.step(Event::Appended(Err("disk full".to_string())));
    assert_eq!(app.messages, vec!["Error: disk full"]);
    assert_eq!(app.input_mode, InputMode::Normal);
}

#[test]
fn written_text_is_shown_when_read() {
    let mut app = with_selected(&["a"], 0);
    press(&mut app, Key::Char('w'));
    type_text(&mut app, "hello");
    let data = match press(&mut app, Key::Enter) {
        Action::Append { data, .. } => data,
        _ => panic!("a text is to be appended"),
    };
    app.step(Event::Appended(Ok(0)));
    press(&mut app, Key::Char('r'));
    assert_eq!(app.input_mode, InputMode::Reading);
    match press(&mut app, Key::Enter) {
        Action::Fetch { stream_id, position, length } => {
            assert_eq!(stream_id, "a");
            assert_eq!(position, 0);
            assert_eq!(length, 100);
        }
        _ => panic!("data is to be read"),
    }
    app.step(Event::Fetched(Ok(data)));
    assert_eq!(app.messages, vec!["Wrote data at position 0", "Read: hello"]);
    assert_eq!(app.input_mode, InputMode::Normal);
}

#[test]
fn binary_data_and_failed_reads_are_reported() {
    let mut app = with_selected(&["a"], 0);
    press(&mut app, Key::Char('r'));
    press(&mut app, Key::Enter);
    app.step(Event::Fetched(Ok(payload(vec![0xff, 0xfe]))));
    press(&mut app, Key::Char('r'));
    press(&mut app, Key::Enter);
    app.step(Event::Fetched(Err("gone".to_string())));
    assert_eq!(app.messages, vec!["Read 2 bytes of binary data", "Error: gone"]);
}

fn opening(path: &str) -> App {
    let mut app = with_selected(&["a"], 0);
    press(&mut app, Key::Char('u'));
    type_text(&mut app, path);
    match press(&mut app, Key::Enter) {
        Action::OpenFile { path } => assert_eq!(path, "/f"),
        _ => panic!("a file is to be opened"),
    }
    app
}

#[test]
fn a_file_is_uploaded_chunk_by_chunk() {
    let mut app = opening("file: /f ");
    match app.step(Event::FileOpened(Ok(5))) {
        Action::ReadChunk { limit } => assert_eq!(limit, 64 * 1024),
        _ => panic!("a chunk is to be read"),
    }
    assert_eq!(app.upload_progress, Some(("/f".to_string(), 0, 5)));
    let mut stored: Vec<u8> = Vec::new();
    for (chunk, through) in [(vec![1, 2, 3], 3), (vec![4, 5], 5)] {
        match app.step(Event::ChunkRead(Ok(chunk))) {
            Action::StoreChunk { stream_id, data } => {
                assert_eq!(stream_id, "a");
                stored.extend(data.to_vec());
            }
            _ => panic!("a chunk is to be stored"),
        }
        assert!(matches!(app.step(Event::ChunkStored(Ok(0))), Action::ReadChunk { .. }));
        assert_eq!(app.upload_progress, Some(("/f".to_string(), through, 5)));
    }
    assert!(matches!(app.step(Event::ChunkRead(Ok(vec![]))), Action::Wait));
    assert_eq!(stored, vec![1, 2, 3, 4, 5]);
    assert_eq!(app.upload_progress, None);
    assert_eq!(app.messages[1], "Successfully uploaded /f to stream a");
    assert_eq!(app.input_mode, InputMode::Normal);
    assert!(matches!(app.task, Task::Idle));
}

#[test]
fn a_file_that_cannot_be_opened_is_reported() {
    let mut app = opening("file:/f");
    assert!(matches!(app.step(Event::FileOpened(Err("no such file".to_string()))), Action::Wait));
    assert_eq!(app.messages[1], "Upload error: no such file");
    assert_eq!(app.upload_progress, None);
    assert_eq!(app.input_mode, InputMode::Normal);
}

#[test]
fn a_failed_upload_leaves_its_progress() {
    let mut app = opening("file:/f");
    app.step(Event::FileOpened(Ok(5)));
    assert!(matches!(app.step(Event::ChunkRead(Err("bad".to_string()))), Action::Wait));
    assert_eq!(app.messages[1], "Upload error: bad");
    assert_eq!(app.upload_progress, Some(("/f".to_string(), 0, 5)));
    assert_eq!(app.input_mode, InputMode::Normal);
}

#[test]
fn stray_answers_change_nothing() {
    let mut app = opening("file:/f");
    assert!(matches!(app.step(Event::Key(Key::Esc)), Action::Wait));
    assert!(matches!(app.step(Event::Appended(Ok(1))), Action::Wait));
    assert_eq!(app.input_mode, InputMode::Writing);
    assert!(matches!(app.task, Task::OpeningFile { .. }));
}

#[test]
fn a_failed_creation_is_reported_like_any_other() {
    let mut app = started(&[]);
    press(&mut app, Key::Char('c'));
    type_text(&mut app, "a");
    press(&mut app, Key::Enter);
    let failed = Event::StreamCreated(Err("exists".to_string()));
    assert!(matches!(app.step(failed), Action::ListStreams));
    app.step(Event::StreamsListed(stream_dirs(&[])));
    assert_eq!(app.messages, vec!["Created stream: a"]);
    assert_eq!(app.input_mode, InputMode::Normal);
}

#[test]
fn a_chunk_counts_whatever_the_storage_answers() {
    let mut app = opening("file:/f");
    app.step(Event::FileOpened(Ok(3)));
    app.step(Event::ChunkRead(Ok(vec![1, 2, 3])));
    let failed = Event::ChunkStored(Err("full".to_string()));
    assert!(matches!(app.step(failed), Action::ReadChunk { .. }));
    assert_eq!(app.upload_progress, Some(("/f".to_string(), 3, 3)));
    app.step(Event::ChunkRead(Ok(vec![])));
    assert_eq!(app.messages[1], "Successfully uploaded /f to stream a");
}
