//! Laws of the steps.

use crate::listing::{text_order, DirEntryView};
use crate::listing_laws::{
    described_streams_are_listed, list_is_sorted_and_complete, listed_streams_have_metadata,
};
use crate::state::{
    ActionView, AppView, Cause, EventView, InputMode, Key, TaskView, UploadView, CHUNK_SIZE,
    READ_LENGTH,
};
use crate::text::{is_white_space, trimmed, without_prefixes};
use crate::transition::upload_path;
use vstd::prelude::*;
use vstd::relations::sorted_by;
use vstd::utf8::encode_utf8;

verus! {

impl AppView {
    /// The state after a sequence of events.
    pub open spec fn run(self, events: Seq<EventView>) -> AppView
        decreases events.len(),
    {
        if events.len() == 0 {
            self
        } else {
            self.run(events.drop_last()).step(events.last()).0
        }
    }

    /// The bytes of files that were handed to the storage during a sequence of events.
    pub open spec fn sent(self, events: Seq<EventView>) -> Seq<u8>
        decreases events.len(),
    {
        if events.len() == 0 {
            Seq::empty()
        } else {
            let before = self.sent(events.drop_last());
            match self.run(events.drop_last()).step(events.last()).1 {
                ActionView::StoreChunk { stream_id, data } => before + data,
                _ => before,
            }
        }
    }

    /// The bytes of files that were handed to the storage for one stream during a sequence
    /// of events.
    pub open spec fn sent_to(self, stream_id: Seq<char>, events: Seq<EventView>) -> Seq<u8>
        decreases events.len(),
    {
        if events.len() == 0 {
            Seq::empty()
        } else {
            let before = self.sent_to(stream_id, events.drop_last());
            match self.run(events.drop_last()).step(events.last()).1 {
                ActionView::StoreChunk { stream_id: target, data } => if target == stream_id {
                    before + data
                } else {
                    before
                },
                _ => before,
            }
        }
    }

    /// Whether the parts of the state agree with each other: the selection points at a
    /// stream, the list is in order, exactly the listed streams have metadata, nothing is
    /// typed outside a mode for typing, only a selected stream is written to or read
    /// from, and the mode, the loading mark and the progress match what the surroundings
    /// are busy with.
    pub open spec fn consistent(self) -> bool {
        &&& self.wf()
        &&& sorted_by(self.streams, text_order())
        &&& forall|id: Seq<char>| #[trigger]
            self.metadata.contains_key(id) <==> self.streams.contains(id)
        &&& forall|id: Seq<char>| #[trigger]
            self.metadata.contains_key(id) ==> self.metadata[id].id == id
        &&& self.mode == InputMode::Normal ==> self.input.len() == 0
        &&& self.mode == InputMode::Writing || self.mode == InputMode::Reading
            ==> self.selected is Some
        &&& self.is_loading <==> self.task is ListingStreams
        &&& self.read_position == 0
        &&& self.read_length == READ_LENGTH
        &&& match self.task {
            TaskView::Idle => true,
            TaskView::ListingStreams(Cause::Created) => self.mode == InputMode::Creating,
            TaskView::ListingStreams(_) => self.mode == InputMode::Normal,
            TaskView::CreatingStream(_) => self.mode == InputMode::Creating,
            TaskView::AppendingText => self.mode == InputMode::Writing,
            TaskView::FetchingData => self.mode == InputMode::Reading,
            TaskView::OpeningFile { stream_id, path } => self.mode == InputMode::Writing,
            TaskView::ReadingChunk(upload) | TaskView::StoringChunk(upload, _) => {
                &&& self.mode == InputMode::Writing
                &&& self.upload_progress == Some((upload.path, upload.current, upload.total))
            },
        }
    }
}

/// The key that types a character.
pub open spec fn typing_key(c: char) -> EventView {
    EventView::Key(Key::Char(c))
}

/// The keys that type a text.
pub open spec fn typing(text: Seq<char>) -> Seq<EventView> {
    text.map_values(|c: char| typing_key(c))
}

/// What happens while the chunks of a file are read and stored, with what the storage
/// answers to each.
pub open spec fn copying(
    chunks: Seq<Seq<u8>>,
    answers: Seq<Result<int, Seq<char>>>,
) -> Seq<EventView>
    decreases chunks.len(),
{
    if chunks.len() == 0 {
        Seq::empty()
    } else {
        copying(chunks.drop_last(), answers.drop_last()).push(
            EventView::ChunkRead(Ok(chunks.last())),
        ).push(EventView::ChunkStored(answers.last()))
    }
}

/// Whether an event is an answer to what the surroundings are busy with.
pub open spec fn answers(task: TaskView, event: EventView) -> bool {
    match task {
        TaskView::Idle => event is Key,
        TaskView::ListingStreams(_) => event is StreamsListed,
        TaskView::CreatingStream(_) => event is StreamCreated,
        TaskView::AppendingText => event is Appended,
        TaskView::FetchingData => event is Fetched,
        TaskView::OpeningFile { stream_id, path } => event is FileOpened,
        TaskView::ReadingChunk(_) => event is ChunkRead,
        TaskView::StoringChunk(_, _) => event is ChunkStored,
    }
}

/// Whether an action sets the surroundings about a task.
pub open spec fn starts(action: ActionView, task: TaskView) -> bool {
    match task {
        TaskView::Idle => action is Wait || action is Quit,
        TaskView::ListingStreams(_) => action is ListStreams,
        TaskView::CreatingStream(stream_id) => action == (ActionView::CreateStream { stream_id }),
        TaskView::AppendingText => action is Append,
        TaskView::FetchingData => action is Fetch,
        TaskView::OpeningFile { stream_id, path } => action == (ActionView::OpenFile { path }),
        TaskView::ReadingChunk(_) => action == (ActionView::ReadChunk {
            limit: CHUNK_SIZE as int,
        }),
        TaskView::StoringChunk(upload, count) => action matches ActionView::StoreChunk {
            stream_id,
            data,
        } && stream_id == upload.stream_id && data.len() == count,
    }
}

/// Law: the state at the start is consistent.
pub proof fn start_is_consistent()
    ensures
        AppView::initial().consistent(),
{
}

/// Law: every event keeps a consistent state consistent.
pub proof fn step_keeps_consistent(state: AppView, event: EventView)
    requires
        state.consistent(),
    ensures
        state.step(event).0.consistent(),
{
    if let EventView::StreamsListed(entries) = event {
        list_is_sorted_and_complete(entries);
        listed_streams_have_metadata(entries);
    }
}

/// Law: whatever happens after the start, the state is consistent.
pub proof fn always_consistent(events: Seq<EventView>)
    ensures
        AppView::initial().run(events).consistent(),
    decreases events.len(),
{
    if events.len() > 0 {
        always_consistent(events.drop_last());
        step_keeps_consistent(AppView::initial().run(events.drop_last()), events.last());
    }
}

/// Law: an answer leads on. What the step asks for is what the state then waits for.
pub proof fn answers_lead_on(state: AppView, event: EventView)
    requires
        answers(state.task, event),
    ensures
        starts(state.step(event).1, state.step(event).0.task),
{
}

/// Law: an event that answers nothing changes nothing and asks for nothing.
pub proof fn strays_do_nothing(state: AppView, event: EventView)
    requires
        !answers(state.task, event),
    ensures
        state.step(event) == (state, ActionView::Wait),
{
}

/// Law: only the key `q` quits, and only while nothing is typed and nothing is under way.
pub proof fn only_q_quits(state: AppView, event: EventView)
    ensures
        state.step(event).1 is Quit <==> state.task is Idle && state.mode == InputMode::Normal
            && event == EventView::Key(Key::Char('q')),
{
}

/// Law: messages are never taken back.
pub proof fn messages_only_grow(state: AppView, events: Seq<EventView>)
    ensures
        state.messages.is_prefix_of(state.run(events).messages),
    decreases events.len(),
{
    if events.len() > 0 {
        let before = state.run(events.drop_last());
        let after = before.step(events.last()).0;
        messages_only_grow(state, events.drop_last());
        assert(before.messages.is_prefix_of(after.messages));
        assert(state.messages.is_prefix_of(after.messages));
    }
}

/// Law: below the bottom of the list, up undoes down.
pub proof fn up_undoes_down(state: AppView)
    requires
        state.selected matches Some(index) && 0 <= index < state.streams.len() - 1,
    ensures
        state.down().up() == state,
{
}

/// Law: above the top of the list, down undoes up.
pub proof fn down_undoes_up(state: AppView)
    requires
        state.wf(),
        state.selected matches Some(index) && index > 0,
    ensures
        state.up().down() == state,
{
}

/// Law: listing the same entries again changes nothing more.
pub proof fn listing_twice_is_listing_once(state: AppView, entries: Seq<DirEntryView>)
    ensures
        state.listing(entries).listing(entries) == state.listing(entries),
{
}

/// Law: escape abandons what is typed and changes nothing else.
pub proof fn escape_abandons(state: AppView)
    requires
        state.task is Idle,
        state.mode != InputMode::Normal,
    ensures
        state.step(EventView::Key(Key::Esc)) == (
            AppView { mode: InputMode::Normal, input: Seq::empty(), ..state },
            ActionView::Wait,
        ),
{
}

/// Law: in a mode for typing, backspace undoes a typed character.
pub proof fn backspace_undoes_typing(state: AppView, c: char)
    requires
        state.task is Idle,
        state.mode != InputMode::Normal,
    ensures
        state.run(seq![EventView::Key(Key::Char(c)), EventView::Key(Key::Backspace)]) == state,
{
    let events = seq![EventView::Key(Key::Char(c)), EventView::Key(Key::Backspace)];
    reveal_with_fuel(AppView::run, 3);
    assert(events.drop_last().drop_last() =~= Seq::empty());
    assert(state.input.push(c).drop_last() =~= state.input);
}

/// Law: what is typed joins what was typed before, and changes nothing else.
pub proof fn typing_appends(state: AppView, text: Seq<char>)
    requires
        state.task is Idle,
        state.mode != InputMode::Normal,
    ensures
        state.run(typing(text)) == (AppView { input: state.input + text, ..state }),
    decreases text.len(),
{
    if text.len() == 0 {
        assert(state.input + text =~= state.input);
    } else {
        typing_appends(state, text.drop_last());
        assert(typing(text).drop_last() =~= typing(text.drop_last()));
        assert((state.input + text.drop_last()).push(text.last()) =~= state.input + text);
    }
}

/// Law: a text typed for a selected stream goes to that stream as its UTF-8 encoding, and
/// where a read gives these bytes back, the text is shown as it was typed. A text that
/// starts with `file:` names a file instead.
pub proof fn written_text_is_read_back(state: AppView, text: Seq<char>)
    requires
        state.task is Idle,
        state.mode == InputMode::Normal,
        state.selected is Some,
        !"file:"@.is_prefix_of(text),
    ensures
        state.step(EventView::Key(Key::Char('w'))).0.run(typing(text)).step(
            EventView::Key(Key::Enter),
        ).1 == (ActionView::Append {
            stream_id: state.selected_id()->0,
            data: encode_utf8(text),
        }),
        forall|reading: AppView|
            reading.task is FetchingData ==> (#[trigger] reading.step(
                EventView::Fetched(Ok(encode_utf8(text))),
            )).0.messages == reading.messages.push("Read: "@ + text),
{
    let writing = state.step(EventView::Key(Key::Char('w'))).0;
    typing_appends(writing, text);
    assert(writing.input + text =~= text);
    vstd::utf8::encode_utf8_valid_utf8(text);
    vstd::utf8::encode_utf8_decode_utf8(text);
}

/// Law: a path typed with the mark `file:` in front has the file at that path opened.
pub proof fn typed_path_is_opened(state: AppView, path: Seq<char>)
    requires
        state.task is Idle,
        state.mode == InputMode::Normal,
        state.selected is Some,
        !"file:"@.is_prefix_of(path),
        path.len() > 0 ==> !is_white_space(path.first()) && !is_white_space(path.last()),
    ensures
        state.step(EventView::Key(Key::Char('u'))).0.run(typing("file:"@ + path)).step(
            EventView::Key(Key::Enter),
        ).1 == (ActionView::OpenFile { path }),
{
    let writing = state.step(EventView::Key(Key::Char('u'))).0;
    let text = "file:"@ + path;
    typing_appends(writing, text);
    marked_path_is_kept(path);
    assert(writing.input + text =~= text);
    assert("file:"@.is_prefix_of(text));
}

/// Law: what the storage answers to the creation of a stream or to a chunk of a file makes
/// no difference.
pub proof fn some_answers_are_ignored(
    state: AppView,
    created: Result<(), Seq<char>>,
    stored: Result<int, Seq<char>>,
)
    ensures
        state.step(EventView::StreamCreated(created)) == state.step(
            EventView::StreamCreated(Ok(())),
        ),
        state.step(EventView::ChunkStored(stored)) == state.step(EventView::ChunkStored(Ok(0))),
{
}

/// Law: a stream that was to be created is reported, and is in the list where the listing
/// that follows has it.
pub proof fn created_stream_is_listed(
    state: AppView,
    stream_id: Seq<char>,
    answer: Result<(), Seq<char>>,
    entries: Seq<DirEntryView>,
    i: int,
)
    requires
        state.task == TaskView::CreatingStream(stream_id),
        0 <= i < entries.len(),
        entries[i].stream() matches Some(stream) && stream.id == stream_id,
    ensures
        state.step(EventView::StreamCreated(answer)).1 is ListStreams,
        ({
            let after = state.step(EventView::StreamCreated(answer)).0.step(
                EventView::StreamsListed(entries),
            ).0;
            &&& after.messages == state.messages.push("Created stream: "@ + stream_id)
            &&& after.streams.contains(stream_id)
            &&& after.task is Idle
            &&& after.mode == InputMode::Normal
        }),
{
    described_streams_are_listed(entries, i);
}

/// Law: reading asks for the start of the selected stream.
pub proof fn read_asks_for_selected_stream(state: AppView)
    requires
        state.consistent(),
        state.task is Idle,
        state.mode == InputMode::Normal,
        state.selected is Some,
    ensures
        state.step(EventView::Key(Key::Char('r'))).0.step(EventView::Key(Key::Enter)).1 == (
        ActionView::Fetch {
            stream_id: state.selected_id()->0,
            position: 0,
            length: READ_LENGTH as int,
        }),
{
}

/// Law: whatever the storage or the file system answers, once nothing more is asked for,
/// nothing is under way and nothing is typed.
pub proof fn tasks_end_at_rest(state: AppView, event: EventView)
    requires
        !(state.task is Idle),
        answers(state.task, event),
        state.step(event).1 is Wait,
        state.consistent(),
    ensures
        state.step(event).0.task is Idle,
        state.step(event).0.mode == InputMode::Normal,
        state.step(event).0.input.len() == 0,
{
}

/// Law: a file goes byte for byte, in order, to its own stream and to no other, whatever
/// the storage answers, and the progress counts what went.
pub proof fn upload_copies_file(
    state: AppView,
    upload: UploadView,
    chunks: Seq<Seq<u8>>,
    answers: Seq<Result<int, Seq<char>>>,
    other: Seq<char>,
)
    requires
        state.task == TaskView::ReadingChunk(upload),
        state.upload_progress == Some((upload.path, upload.current, upload.total)),
        answers.len() == chunks.len(),
        forall|i: int| #![trigger chunks[i]] 0 <= i < chunks.len() ==> chunks[i].len() > 0,
    ensures
        state.sent(copying(chunks, answers)) == chunks.flatten(),
        state.sent_to(upload.stream_id, copying(chunks, answers)) == chunks.flatten(),
        other != upload.stream_id ==> state.sent_to(other, copying(chunks, answers)).len() == 0,
        state.run(copying(chunks, answers)) == state.uploading(
            UploadView { current: upload.current + chunks.flatten().len(), ..upload },
        ).0,
    decreases chunks.len(),
{
    chunks.lemma_flatten_and_flatten_alt_are_equivalent();
    if chunks.len() == 0 {
        assert(state.run(copying(chunks, answers)) =~= state.uploading(upload).0);
    } else {
        let rest = chunks.drop_last();
        let chunk = chunks.last();
        rest.lemma_flatten_and_flatten_alt_are_equivalent();
        upload_copies_file(state, upload, rest, answers.drop_last(), other);
        let events = copying(chunks, answers);
        let halfway = events.drop_last();
        let before = copying(rest, answers.drop_last());
        assert(halfway =~= before.push(EventView::ChunkRead(Ok(chunk))));
        assert(halfway.drop_last() =~= before);
        assert(chunks[chunks.len() - 1].len() > 0);
        reveal_with_fuel(AppView::run, 3);
        reveal_with_fuel(AppView::sent, 3);
        reveal_with_fuel(AppView::sent_to, 3);
    }
}

/// Law: at the end of the file its upload is reported and no progress is left.
pub proof fn upload_ends(state: AppView, upload: UploadView)
    requires
        state.task == TaskView::ReadingChunk(upload),
    ensures
        state.step(EventView::ChunkRead(Ok(Seq::empty()))).0 == state.uploaded(upload),
        state.step(EventView::ChunkRead(Ok(Seq::empty()))).0.upload_progress is None,
{
}

/// Law: a path with the mark `file:` in front names the file at that path, unless the path
/// itself starts with the mark or with white space, or ends with white space.
pub proof fn marked_path_is_kept(path: Seq<char>)
    requires
        !"file:"@.is_prefix_of(path),
        path.len() > 0 ==> !is_white_space(path.first()) && !is_white_space(path.last()),
    ensures
        upload_path("file:"@ + path) == path,
{
    reveal_strlit("file:");
    let mark = "file:"@;
    assert(mark.is_prefix_of(mark + path));
    assert((mark + path).skip(mark.len() as int) =~= path);
    assert(without_prefixes(path, mark) == path);
    assert(trimmed(path) == path);
}

} // verus!
