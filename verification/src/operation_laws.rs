//! Laws of what the front end is for, each from the key that starts an operation to its end.

use crate::catalog_laws::{listing_shows_what_is_described, lists};
use crate::listing::DirEntryView;
use crate::state::{ActionView, AppView, Cause, EventView, InputMode, Key, TaskView, UploadView};
use crate::step_laws::{copying, typing, typing_appends, typing_key, upload_copies_file};
use crate::text::decimal_text;
use crate::text_laws::{decimals_read_back, is_decimal, lemma_named_path, marks, names_path};
use vstd::prelude::*;
use vstd::utf8::{encode_utf8, valid_utf8};

verus! {

/// The enter key.
pub open spec fn enter() -> EventView {
    EventView::Key(Key::Enter)
}

/// Whether keys are commands: nothing is under way and nothing is being typed.
pub open spec fn takes_commands(state: AppView) -> bool {
    state.task is Idle && state.mode == InputMode::Normal
}

/// The selection in a list of the given length: it stays where there is a stream.
pub open spec fn still_selected(selected: Option<int>, length: nat) -> Option<int> {
    match selected {
        Some(index) => if index < length {
            Some(index)
        } else {
            None
        },
        None => None,
    }
}

/// Law: the front end starts with nothing listed, selected, typed or told, reads streams
/// from their start a hundred bytes at a time, and is listing the streams.
pub proof fn start_is_empty()
    ensures
        ({
            let start = AppView::initial();
            &&& start.streams.len() == 0
            &&& start.selected is None
            &&& start.mode == InputMode::Normal
            &&& start.input.len() == 0
            &&& start.messages.len() == 0
            &&& start.read_position == 0
            &&& start.read_length == 100
            &&& start.upload_progress is None
            &&& start.is_loading
            &&& start.metadata == Map::<Seq<char>, crate::listing::MetadataView>::empty()
            &&& start.task == TaskView::ListingStreams(Cause::Startup)
        }),
{
}

/// Law: the first listing shows the streams and nothing is told.
pub proof fn first_listing_shows_the_streams(entries: Seq<DirEntryView>)
    ensures
        ({
            let start = AppView::initial();
            let listed = start.step(EventView::StreamsListed(entries));
            &&& listed.1 == ActionView::Wait
            &&& lists(listed.0.streams, listed.0.metadata, entries)
            &&& listed.0 == (AppView {
                streams: listed.0.streams,
                metadata: listed.0.metadata,
                is_loading: false,
                task: TaskView::Idle,
                ..start
            })
        }),
{
    listing_shows_what_is_described(entries);
}

/// Law: the key `f` lists the streams anew, tells so before and after, keeps the selection
/// where there still is a stream, and changes nothing else.
pub proof fn refresh_lists_the_streams(state: AppView, entries: Seq<DirEntryView>)
    requires
        takes_commands(state),
    ensures
        ({
            let asked = state.step(typing_key('f'));
            let listed = asked.0.step(EventView::StreamsListed(entries));
            &&& asked == (
                AppView {
                    messages: state.messages.push("Refreshing streams..."@),
                    is_loading: true,
                    task: TaskView::ListingStreams(Cause::Requested),
                    ..state
                },
                ActionView::ListStreams,
            )
            &&& listed.1 == ActionView::Wait
            &&& lists(listed.0.streams, listed.0.metadata, entries)
            &&& listed.0 == (AppView {
                streams: listed.0.streams,
                metadata: listed.0.metadata,
                selected: still_selected(state.selected, listed.0.streams.len()),
                messages: state.messages.push("Refreshing streams..."@).push(
                    "Streams refreshed"@,
                ),
                is_loading: false,
                ..state
            })
        }),
{
    listing_shows_what_is_described(entries);
}

/// Law: the keys `c`, `w`, `r` and `u` start typing afresh, the last three only where a
/// stream is selected, and `u` says what to type or to select.
pub proof fn keys_start_typing(state: AppView)
    requires
        takes_commands(state),
    ensures
        state.step(typing_key('c')) == (
            AppView { mode: InputMode::Creating, input: Seq::empty(), ..state },
            ActionView::Wait,
        ),
        state.selected is Some ==> state.step(typing_key('w')) == (
            AppView { mode: InputMode::Writing, input: Seq::empty(), ..state },
            ActionView::Wait,
        ),
        state.selected is Some ==> state.step(typing_key('r')) == (
            AppView { mode: InputMode::Reading, input: Seq::empty(), ..state },
            ActionView::Wait,
        ),
        state.selected is Some ==> state.step(typing_key('u')) == (
            AppView {
                mode: InputMode::Writing,
                input: Seq::empty(),
                messages: state.messages.push(
                    "Enter path to file to upload (prefix with 'file:'):"@,
                ),
                ..state
            },
            ActionView::Wait,
        ),
        state.selected is None ==> {
            &&& state.step(typing_key('w')) == (state, ActionView::Wait)
            &&& state.step(typing_key('r')) == (state, ActionView::Wait)
            &&& state.step(typing_key('u')) == (
                AppView { messages: state.messages.push("Please select a stream first"@), ..state },
                ActionView::Wait,
            )
        },
{
}

/// Law: down and up move the selection by one within the list, down starts at the top, and
/// nothing else changes.
pub proof fn arrows_move_the_selection(state: AppView)
    requires
        takes_commands(state),
        state.wf(),
    ensures
        ({
            let last = state.streams.len() - 1;
            let below = match state.selected {
                None if last >= 0 => Some(0),
                Some(i) if i < last => Some(i + 1),
                other => other,
            };
            let above = match state.selected {
                Some(i) if i >= 1 => Some(i - 1),
                other => other,
            };
            &&& state.step(EventView::Key(Key::Down)) == (
                AppView { selected: below, ..state },
                ActionView::Wait,
            )
            &&& state.step(EventView::Key(Key::Up)) == (
                AppView { selected: above, ..state },
                ActionView::Wait,
            )
        }),
{
}

/// Law: `q` changes nothing but ends the program, and keys that are no command do nothing.
pub proof fn other_commands_do_nothing(state: AppView, key: Key)
    requires
        takes_commands(state),
        !(key is Down) && !(key is Up),
        key matches Key::Char(c) ==> c != 'c' && c != 'w' && c != 'r' && c != 'u' && c != 'f',
    ensures
        state.step(EventView::Key(key)) == (
            state,
            if key == Key::Char('q') {
                ActionView::Quit
            } else {
                ActionView::Wait
            },
        ),
{
}

/// Law: while something is typed, every character joins it, backspace takes the last one
/// off, escape drops it all, and keys without a meaning do nothing.
pub proof fn keys_edit_what_is_typed(state: AppView, c: char, key: Key)
    requires
        state.task is Idle,
        state.mode != InputMode::Normal,
    ensures
        state.step(typing_key(c)) == (
            AppView { input: state.input.push(c), ..state },
            ActionView::Wait,
        ),
        state.input.len() > 0 ==> state.step(EventView::Key(Key::Backspace)) == (
            AppView { input: state.input.subrange(0, state.input.len() - 1), ..state },
            ActionView::Wait,
        ),
        state.input.len() == 0 ==> state.step(EventView::Key(Key::Backspace)) == (
            state,
            ActionView::Wait,
        ),
        state.step(EventView::Key(Key::Esc)) == (
            AppView { mode: InputMode::Normal, input: Seq::empty(), ..state },
            ActionView::Wait,
        ),
        key is Up || key is Down || key is Other ==> state.step(EventView::Key(key)) == (
            state,
            ActionView::Wait,
        ),
{
    if state.input.len() > 0 {
        assert(state.input.drop_last() =~= state.input.subrange(0, state.input.len() - 1));
    }
}

/// Law: enter asks for nothing where there is nothing to ask for: a stream without a name
/// is not created, and without a selected stream nothing is written or read.
pub proof fn enter_may_ask_for_nothing(state: AppView)
    requires
        state.task is Idle,
    ensures
        state.mode == InputMode::Creating && state.input.len() == 0 ==> state.step(enter()) == (
            state,
            ActionView::Wait,
        ),
        (state.mode == InputMode::Writing || state.mode == InputMode::Reading)
            && state.selected is None ==> state.step(enter()) == (
            AppView { mode: InputMode::Normal, input: Seq::empty(), ..state },
            ActionView::Wait,
        ),
{
}

/// Law: the key `c`, a name and enter have a stream created under the whole name, whatever
/// it is; that is told, the streams are listed anew, and nothing else changes.
pub proof fn stream_is_created_under_the_typed_name(
    state: AppView,
    name: Seq<char>,
    answer: Result<(), Seq<char>>,
    entries: Seq<DirEntryView>,
)
    requires
        takes_commands(state),
        name.len() > 0,
    ensures
        ({
            let typed = state.step(typing_key('c')).0.run(typing(name));
            let entered = typed.step(enter());
            let created = entered.0.step(EventView::StreamCreated(answer));
            let listed = created.0.step(EventView::StreamsListed(entries));
            let told = state.messages.push("Created stream: "@ + name);
            &&& entered == (
                AppView { task: TaskView::CreatingStream(name), ..typed },
                ActionView::CreateStream { stream_id: name },
            )
            &&& created == (
                AppView {
                    messages: told,
                    is_loading: true,
                    task: TaskView::ListingStreams(Cause::Created),
                    ..typed
                },
                ActionView::ListStreams,
            )
            &&& listed.1 == ActionView::Wait
            &&& lists(listed.0.streams, listed.0.metadata, entries)
            &&& listed.0 == (AppView {
                streams: listed.0.streams,
                metadata: listed.0.metadata,
                selected: still_selected(state.selected, listed.0.streams.len()),
                input: Seq::empty(),
                messages: told,
                is_loading: false,
                ..state
            })
        }),
{
    let typed = state.step(typing_key('c')).0;
    typing_appends(typed, name);
    assert(typed.input + name =~= name);
    listing_shows_what_is_described(entries);
}

/// Law: the key `w`, a text and enter have the text appended to the stream at the selected
/// place of the list; the position or the error is told, and nothing else changes.
pub proof fn typed_text_goes_to_the_selected_stream(
    state: AppView,
    i: int,
    text: Seq<char>,
    position: nat,
    error: Seq<char>,
)
    requires
        takes_commands(state),
        state.selected == Some(i),
        0 <= i < state.streams.len(),
        !"file:"@.is_prefix_of(text),
    ensures
        ({
            let typed = state.step(typing_key('w')).0.run(typing(text));
            let entered = typed.step(enter());
            &&& entered.1 == (ActionView::Append {
                stream_id: state.streams[i],
                data: encode_utf8(text),
            })
            &&& entered.0 == (AppView { task: TaskView::AppendingText, ..typed })
            &&& exists|place: Seq<char>| #[trigger]
                is_decimal(place, position as int) && entered.0.step(
                    EventView::Appended(Ok(position as int)),
                ) == (
                    AppView {
                        input: Seq::empty(),
                        messages: state.messages.push("Wrote data at position "@ + place),
                        ..state
                    },
                    ActionView::Wait,
                )
            &&& entered.0.step(EventView::Appended(Err(error))) == (
                AppView {
                    input: Seq::empty(),
                    messages: state.messages.push("Error: "@ + error),
                    ..state
                },
                ActionView::Wait,
            )
        }),
{
    let writing = state.step(typing_key('w')).0;
    typing_appends(writing, text);
    assert(writing.input + text =~= text);
    decimals_read_back(position);
    assert(is_decimal(decimal_text(position), position as int));
}

/// Law: the key `r` and enter have the stream at the selected place of the list read,
/// whatever is typed in between; what was read or the error is told, and nothing else
/// changes.
pub proof fn selected_stream_is_read(
    state: AppView,
    i: int,
    ignored: Seq<char>,
    text: Seq<char>,
    data: Seq<u8>,
    error: Seq<char>,
)
    requires
        takes_commands(state),
        state.selected == Some(i),
        0 <= i < state.streams.len(),
        !valid_utf8(data),
    ensures
        ({
            let typed = state.step(typing_key('r')).0.run(typing(ignored));
            let entered = typed.step(enter());
            &&& entered.1 == (ActionView::Fetch {
                stream_id: state.streams[i],
                position: state.read_position,
                length: state.read_length,
            })
            &&& entered.0 == (AppView { task: TaskView::FetchingData, ..typed })
            &&& entered.0.step(EventView::Fetched(Ok(encode_utf8(text)))) == (
                AppView {
                    input: Seq::empty(),
                    messages: state.messages.push("Read: "@ + text),
                    ..state
                },
                ActionView::Wait,
            )
            &&& exists|length: Seq<char>| #[trigger]
                is_decimal(length, data.len() as int) && entered.0.step(
                    EventView::Fetched(Ok(data)),
                ) == (
                    AppView {
                        input: Seq::empty(),
                        messages: state.messages.push(
                            "Read "@ + length + " bytes of binary data"@,
                        ),
                        ..state
                    },
                    ActionView::Wait,
                )
            &&& entered.0.step(EventView::Fetched(Err(error))) == (
                AppView {
                    input: Seq::empty(),
                    messages: state.messages.push("Error: "@ + error),
                    ..state
                },
                ActionView::Wait,
            )
        }),
{
    let reading = state.step(typing_key('r')).0;
    typing_appends(reading, ignored);
    vstd::utf8::encode_utf8_valid_utf8(text);
    vstd::utf8::encode_utf8_decode_utf8(text);
    decimals_read_back(data.len());
    assert(is_decimal(decimal_text(data.len()), data.len() as int));
}

/// The messages when a path is typed after the key `u` or the key `w`.
pub open spec fn prompted(messages: Seq<Seq<char>>, key: char) -> Seq<Seq<char>> {
    if key == 'u' {
        messages.push("Enter path to file to upload (prefix with 'file:'):"@)
    } else {
        messages
    }
}

proof fn lemma_upload_opens(
    state: AppView,
    i: int,
    key: char,
    typed: Seq<char>,
    count: nat,
    before: Seq<char>,
    path: Seq<char>,
    behind: Seq<char>,
)
    requires
        takes_commands(state),
        state.selected == Some(i),
        0 <= i < state.streams.len(),
        key == 'u' || key == 'w',
        count > 0,
        names_path(typed, count, before, path, behind),
    ensures
        ({
            let entered = state.step(typing_key(key)).0.run(typing(typed)).step(enter());
            &&& entered.1 == (ActionView::OpenFile { path })
            &&& entered.0 == (AppView {
                mode: InputMode::Writing,
                input: typed,
                messages: prompted(state.messages, key),
                task: TaskView::OpeningFile { stream_id: state.streams[i], path },
                ..state
            })
        }),
{
    let writing = state.step(typing_key(key)).0;
    typing_appends(writing, typed);
    lemma_named_path(typed, count, before, path, behind);
    assert(writing.input + typed =~= typed);
    let rest = marks((count - 1) as nat) + before + path + behind;
    assert(typed =~= "file:"@ + rest);
    assert("file:"@.is_prefix_of(typed));
}

/// Law: the key `u` or `w`, a path behind the mark `file:` and enter have the file at the
/// path opened. Its chunks go to the stream at the selected place of the list when enter was
/// pressed, each as it was read and in order, and to no other stream; the progress counts
/// them. At the end of the file the upload to that stream is told, and nothing else has
/// changed.
pub proof fn file_goes_to_the_selected_stream(
    state: AppView,
    i: int,
    key: char,
    typed: Seq<char>,
    count: nat,
    before: Seq<char>,
    path: Seq<char>,
    behind: Seq<char>,
    total: nat,
    chunks: Seq<Seq<u8>>,
    answers: Seq<Result<int, Seq<char>>>,
    other: Seq<char>,
)
    requires
        takes_commands(state),
        state.selected == Some(i),
        0 <= i < state.streams.len(),
        key == 'u' || key == 'w',
        count > 0,
        names_path(typed, count, before, path, behind),
        answers.len() == chunks.len(),
        forall|k: int| #![trigger chunks[k]] 0 <= k < chunks.len() ==> chunks[k].len() > 0,
    ensures
        ({
            let entered = state.step(typing_key(key)).0.run(typing(typed)).step(enter());
            let opened = entered.0.step(EventView::FileOpened(Ok(total as int)));
            let copied = opened.0.run(copying(chunks, answers));
            let through = chunks.flatten().len() as int;
            &&& entered.1 == (ActionView::OpenFile { path })
            &&& opened.1 == (ActionView::ReadChunk { limit: 65536 })
            &&& opened.0.upload_progress == Some((path, 0int, total as int))
            &&& opened.0.sent_to(state.streams[i], copying(chunks, answers)) == chunks.flatten()
            &&& other != state.streams[i] ==> opened.0.sent_to(
                other,
                copying(chunks, answers),
            ).len() == 0
            &&& copied.upload_progress == Some((path, through, total as int))
            &&& copied.messages == prompted(state.messages, key)
            &&& copied.step(EventView::ChunkRead(Ok(Seq::empty()))) == (
                AppView {
                    input: Seq::empty(),
                    messages: prompted(state.messages, key).push(
                        "Successfully uploaded "@ + path + " to stream "@ + state.streams[i],
                    ),
                    upload_progress: None,
                    ..state
                },
                ActionView::Wait,
            )
        }),
{
    lemma_upload_opens(state, i, key, typed, count, before, path, behind);
    let entered = state.step(typing_key(key)).0.run(typing(typed)).step(enter());
    let opened = entered.0.step(EventView::FileOpened(Ok(total as int)));
    let upload = UploadView {
        stream_id: state.streams[i],
        path,
        current: 0,
        total: total as int,
    };
    upload_copies_file(opened.0, upload, chunks, answers, other);
}

/// Law: every chunk of an upload is handed over for the stream at the selected place of the
/// list when enter was pressed, and then the next one is asked for.
pub proof fn every_chunk_goes_to_the_selected_stream(
    state: AppView,
    i: int,
    key: char,
    typed: Seq<char>,
    count: nat,
    before: Seq<char>,
    path: Seq<char>,
    behind: Seq<char>,
    total: nat,
    chunks: Seq<Seq<u8>>,
    answers: Seq<Result<int, Seq<char>>>,
    chunk: Seq<u8>,
    answer: Result<int, Seq<char>>,
)
    requires
        takes_commands(state),
        state.selected == Some(i),
        0 <= i < state.streams.len(),
        key == 'u' || key == 'w',
        count > 0,
        names_path(typed, count, before, path, behind),
        answers.len() == chunks.len(),
        forall|k: int| #![trigger chunks[k]] 0 <= k < chunks.len() ==> chunks[k].len() > 0,
        chunk.len() > 0,
    ensures
        ({
            let entered = state.step(typing_key(key)).0.run(typing(typed)).step(enter());
            let opened = entered.0.step(EventView::FileOpened(Ok(total as int)));
            let copied = opened.0.run(copying(chunks, answers));
            let read = copied.step(EventView::ChunkRead(Ok(chunk)));
            let stored = read.0.step(EventView::ChunkStored(answer));
            let through = chunks.flatten().len() + chunk.len();
            &&& read.1 == (ActionView::StoreChunk { stream_id: state.streams[i], data: chunk })
            &&& read.0 == (AppView { task: read.0.task, ..copied })
            &&& stored.1 == (ActionView::ReadChunk { limit: 65536 })
            &&& stored.0 == (AppView {
                upload_progress: Some((path, through as int, total as int)),
                task: stored.0.task,
                ..copied
            })
        }),
{
    lemma_upload_opens(state, i, key, typed, count, before, path, behind);
    let entered = state.step(typing_key(key)).0.run(typing(typed)).step(enter());
    let opened = entered.0.step(EventView::FileOpened(Ok(total as int)));
    let upload = UploadView {
        stream_id: state.streams[i],
        path,
        current: 0,
        total: total as int,
    };
    upload_copies_file(opened.0, upload, chunks, answers, state.streams[i]);
}

/// Law: a file that cannot be opened, or not be read to its end, is told with the error, and
/// keys are commands again; how far the upload was stays on show.
pub proof fn failed_upload_is_told(
    state: AppView,
    i: int,
    key: char,
    typed: Seq<char>,
    count: nat,
    before: Seq<char>,
    path: Seq<char>,
    behind: Seq<char>,
    total: nat,
    chunks: Seq<Seq<u8>>,
    answers: Seq<Result<int, Seq<char>>>,
    error: Seq<char>,
)
    requires
        takes_commands(state),
        state.selected == Some(i),
        0 <= i < state.streams.len(),
        key == 'u' || key == 'w',
        count > 0,
        names_path(typed, count, before, path, behind),
        answers.len() == chunks.len(),
        forall|k: int| #![trigger chunks[k]] 0 <= k < chunks.len() ==> chunks[k].len() > 0,
    ensures
        ({
            let entered = state.step(typing_key(key)).0.run(typing(typed)).step(enter());
            let opened = entered.0.step(EventView::FileOpened(Ok(total as int)));
            let copied = opened.0.run(copying(chunks, answers));
            let told = prompted(state.messages, key).push("Upload error: "@ + error);
            &&& entered.0.step(EventView::FileOpened(Err(error))) == (
                AppView { input: Seq::empty(), messages: told, ..state },
                ActionView::Wait,
            )
            &&& copied.step(EventView::ChunkRead(Err(error))) == (
                AppView {
                    input: Seq::empty(),
                    messages: told,
                    upload_progress: Some((path, chunks.flatten().len() as int, total as int)),
                    ..state
                },
                ActionView::Wait,
            )
        }),
{
    lemma_upload_opens(state, i, key, typed, count, before, path, behind);
    let entered = state.step(typing_key(key)).0.run(typing(typed)).step(enter());
    let opened = entered.0.step(EventView::FileOpened(Ok(total as int)));
    let upload = UploadView {
        stream_id: state.streams[i],
        path,
        current: 0,
        total: total as int,
    };
    upload_copies_file(opened.0, upload, chunks, answers, state.streams[i]);
}

/// Law: while something is under way, keys and anything else that is not its answer change
/// nothing and ask for nothing.
pub proof fn only_answers_count_meanwhile(state: AppView, event: EventView)
    requires
        match state.task {
            TaskView::Idle => !(event is Key),
            TaskView::ListingStreams(_) => !(event is StreamsListed),
            TaskView::CreatingStream(_) => !(event is StreamCreated),
            TaskView::AppendingText => !(event is Appended),
            TaskView::FetchingData => !(event is Fetched),
            TaskView::OpeningFile { stream_id, path } => !(event is FileOpened),
            TaskView::ReadingChunk(_) => !(event is ChunkRead),
            TaskView::StoringChunk(_, _) => !(event is ChunkStored),
        },
    ensures
        state.step(event) == (state, ActionView::Wait),
{
}

} // verus!
