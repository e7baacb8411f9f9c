//! What each event does, stated over the models of the state, the events and the actions.

use crate::listing::{found_streams, listed_ids, streams_by_id, DirEntryView};
use crate::payload::payload_text_view;
use crate::state::{
    ActionView, AppView, Cause, EventView, InputMode, Key, TaskView, UploadView, CHUNK_SIZE,
    READ_LENGTH,
};
use crate::text::{decimal_text, trimmed, without_prefixes};
use vstd::prelude::*;
use vstd::utf8::encode_utf8;

verus! {

/// The file that a typed text names for upload: what is left without the marks `file:`
/// at its front and the white space around the rest.
pub open spec fn upload_path(input: Seq<char>) -> Seq<char> {
    trimmed(without_prefixes(input, "file:"@))
}

/// The message that shows data read from a stream: as text where it is text.
pub open spec fn read_message(data: Seq<u8>) -> Seq<char> {
    match payload_text_view(data) {
        Some(text) => "Read: "@ + text,
        None => "Read "@ + decimal_text(data.len()) + " bytes of binary data"@,
    }
}

impl AppView {
    /// The state before the first listing of the streams.
    pub open spec fn initial() -> AppView {
        AppView {
            streams: Seq::empty(),
            selected: None,
            mode: InputMode::Normal,
            input: Seq::empty(),
            messages: Seq::empty(),
            read_position: 0,
            read_length: READ_LENGTH as int,
            upload_progress: None,
            is_loading: true,
            metadata: Map::empty(),
            task: TaskView::ListingStreams(Cause::Startup),
        }
    }

    /// Whether the selection points at a stream of the list.
    pub open spec fn wf(self) -> bool {
        self.selected matches Some(index) ==> 0 <= index < self.streams.len()
    }

    /// The identifier of the selected stream.
    pub open spec fn selected_id(self) -> Option<Seq<char>> {
        match self.selected {
            Some(index) => Some(self.streams[index]),
            None => None,
        }
    }

    /// The state with one more message.
    pub open spec fn told(self, message: Seq<char>) -> AppView {
        AppView { messages: self.messages.push(message), ..self }
    }

    /// The state in another mode, with nothing typed.
    pub open spec fn entering(self, mode: InputMode) -> AppView {
        AppView { mode, input: Seq::empty(), ..self }
    }

    /// The state with something for the surroundings to do.
    pub open spec fn busy(self, task: TaskView) -> AppView {
        AppView { task, ..self }
    }

    /// The state when what was typed has been dealt with.
    pub open spec fn finished(self) -> AppView {
        self.busy(TaskView::Idle).entering(InputMode::Normal)
    }

    /// The state while the streams are being listed.
    pub open spec fn loading(self, cause: Cause) -> AppView {
        AppView { is_loading: true, ..self.busy(TaskView::ListingStreams(cause)) }
    }

    /// The state with the streams of a listing; the selection stays where it is, unless
    /// nothing is listed there.
    pub open spec fn listing(self, entries: Seq<DirEntryView>) -> AppView {
        let streams = listed_ids(entries);
        AppView {
            streams,
            metadata: streams_by_id(found_streams(entries)),
            selected: match self.selected {
                Some(index) if index < streams.len() => Some(index),
                _ => None,
            },
            is_loading: false,
            ..self
        }
    }

    /// The state with the selection one further down, or at the top where none was; at
    /// the bottom it stays.
    pub open spec fn down(self) -> AppView {
        AppView {
            selected: match self.selected {
                Some(index) => Some(
                    if index < self.streams.len() - 1 {
                        index + 1
                    } else {
                        index
                    },
                ),
                None => if self.streams.len() > 0 {
                    Some(0)
                } else {
                    None
                },
            },
            ..self
        }
    }

    /// The state with the selection one further up; at the top it stays.
    pub open spec fn up(self) -> AppView {
        AppView {
            selected: match self.selected {
                Some(index) => Some(
                    if index > 0 {
                        index - 1
                    } else {
                        index
                    },
                ),
                None => None,
            },
            ..self
        }
    }

    /// What a key does when nothing is being typed.
    pub open spec fn command_key(self, key: Key) -> (AppView, ActionView) {
        match key {
            Key::Char('q') => (self, ActionView::Quit),
            Key::Char('c') => (self.entering(InputMode::Creating), ActionView::Wait),
            Key::Char('w') => (
                if self.selected is Some {
                    self.entering(InputMode::Writing)
                } else {
                    self
                },
                ActionView::Wait,
            ),
            Key::Char('r') => (
                if self.selected is Some {
                    self.entering(InputMode::Reading)
                } else {
                    self
                },
                ActionView::Wait,
            ),
            Key::Char('u') => (
                if self.selected is Some {
                    self.entering(InputMode::Writing).told(
                        "Enter path to file to upload (prefix with 'file:'):"@,
                    )
                } else {
                    self.told("Please select a stream first"@)
                },
                ActionView::Wait,
            ),
            Key::Char('f') => (
                self.told("Refreshing streams..."@).loading(Cause::Requested),
                ActionView::ListStreams,
            ),
            Key::Down => (self.down(), ActionView::Wait),
            Key::Up => (self.up(), ActionView::Wait),
            _ => (self, ActionView::Wait),
        }
    }

    /// What the enter key does with what was typed.
    pub open spec fn submitted(self) -> (AppView, ActionView) {
        match (self.mode, self.selected_id()) {
            (InputMode::Normal, _) => (self, ActionView::Wait),
            (InputMode::Creating, _) => if self.input.len() > 0 {
                (
                    self.busy(TaskView::CreatingStream(self.input)),
                    ActionView::CreateStream { stream_id: self.input },
                )
            } else {
                (self, ActionView::Wait)
            },
            (InputMode::Writing, Some(stream_id)) => if "file:"@.is_prefix_of(self.input) {
                (
                    self.busy(TaskView::OpeningFile { stream_id, path: upload_path(self.input) }),
                    ActionView::OpenFile { path: upload_path(self.input) },
                )
            } else {
                (
                    self.busy(TaskView::AppendingText),
                    ActionView::Append { stream_id, data: encode_utf8(self.input) },
                )
            },
            (InputMode::Reading, Some(stream_id)) => (
                self.busy(TaskView::FetchingData),
                ActionView::Fetch {
                    stream_id,
                    position: self.read_position,
                    length: self.read_length,
                },
            ),
            _ => (self.finished(), ActionView::Wait),
        }
    }

    /// What a key does while something is being typed.
    pub open spec fn typing_key(self, key: Key) -> (AppView, ActionView) {
        match key {
            Key::Enter => self.submitted(),
            Key::Char(c) => (AppView { input: self.input.push(c), ..self }, ActionView::Wait),
            Key::Backspace => (
                AppView {
                    input: if self.input.len() > 0 {
                        self.input.drop_last()
                    } else {
                        self.input
                    },
                    ..self
                },
                ActionView::Wait,
            ),
            Key::Esc => (self.entering(InputMode::Normal), ActionView::Wait),
            _ => (self, ActionView::Wait),
        }
    }

    /// What a key does.
    pub open spec fn pressed(self, key: Key) -> (AppView, ActionView) {
        if self.mode == InputMode::Normal {
            self.command_key(key)
        } else {
            self.typing_key(key)
        }
    }

    /// What happens when the streams have been listed.
    pub open spec fn streams_listed(self, cause: Cause, entries: Seq<DirEntryView>) -> AppView {
        let listed = self.listing(entries).busy(TaskView::Idle);
        match cause {
            Cause::Startup => listed,
            Cause::Requested => listed.told("Streams refreshed"@),
            Cause::Created => listed.finished(),
        }
    }

    /// What happens when the storage has answered to a text.
    pub open spec fn appended(self, answer: Result<int, Seq<char>>) -> AppView {
        self.told(
            match answer {
                Ok(position) => "Wrote data at position "@ + decimal_text(position as nat),
                Err(error) => "Error: "@ + error,
            },
        ).finished()
    }

    /// What happens when the storage has answered to a read.
    pub open spec fn fetched(self, answer: Result<Seq<u8>, Seq<char>>) -> AppView {
        self.told(
            match answer {
                Ok(data) => read_message(data),
                Err(error) => "Error: "@ + error,
            },
        ).finished()
    }

    /// What happens when a file could not be opened or read to its end.
    pub open spec fn upload_failed(self, error: Seq<char>) -> AppView {
        self.told("Upload error: "@ + error).finished()
    }

    /// The state in which the next bytes of a file are wanted.
    pub open spec fn uploading(self, upload: UploadView) -> (AppView, ActionView) {
        (
            AppView {
                upload_progress: Some((upload.path, upload.current, upload.total)),
                ..self.busy(TaskView::ReadingChunk(upload))
            },
            ActionView::ReadChunk { limit: CHUNK_SIZE as int },
        )
    }

    /// The state when a file is through.
    pub open spec fn uploaded(self, upload: UploadView) -> AppView {
        AppView { upload_progress: None, ..self }.told(
            "Successfully uploaded "@ + upload.path + " to stream "@ + upload.stream_id,
        ).finished()
    }

    /// What happens when the next bytes of a file have been read.
    pub open spec fn chunk_read(
        self,
        upload: UploadView,
        answer: Result<Seq<u8>, Seq<char>>,
    ) -> (AppView, ActionView) {
        match answer {
            Err(error) => (self.upload_failed(error), ActionView::Wait),
            Ok(chunk) => if chunk.len() == 0 {
                (self.uploaded(upload), ActionView::Wait)
            } else {
                (
                    self.busy(TaskView::StoringChunk(upload, chunk.len() as int)),
                    ActionView::StoreChunk { stream_id: upload.stream_id, data: chunk },
                )
            },
        }
    }

    /// What an event does. An event that answers nothing that was asked for does nothing.
    pub open spec fn step(self, event: EventView) -> (AppView, ActionView) {
        match (self.task, event) {
            (TaskView::Idle, EventView::Key(key)) => self.pressed(key),
            (TaskView::ListingStreams(cause), EventView::StreamsListed(entries)) => (
                self.streams_listed(cause, entries),
                ActionView::Wait,
            ),
            (TaskView::CreatingStream(stream_id), EventView::StreamCreated(_)) => (
                self.told("Created stream: "@ + stream_id).loading(Cause::Created),
                ActionView::ListStreams,
            ),
            (TaskView::AppendingText, EventView::Appended(answer)) => (
                self.appended(answer),
                ActionView::Wait,
            ),
            (TaskView::FetchingData, EventView::Fetched(answer)) => (
                self.fetched(answer),
                ActionView::Wait,
            ),
            (TaskView::OpeningFile { stream_id, path }, EventView::FileOpened(answer)) => {
                match answer {
                    Ok(total) => self.uploading(UploadView { stream_id, path, current: 0, total }),
                    Err(error) => (self.upload_failed(error), ActionView::Wait),
                }
            },
            (TaskView::ReadingChunk(upload), EventView::ChunkRead(answer)) => self.chunk_read(
                upload,
                answer,
            ),
            (TaskView::StoringChunk(upload, count), EventView::ChunkStored(_)) => self.uploading(
                UploadView { current: upload.current + count, ..upload },
            ),
            _ => (self, ActionView::Wait),
        }
    }

    /// Whether the bytes of an upload can be counted in 64 bits after the event.
    pub open spec fn countable(self, event: EventView) -> bool {
        match (self.task, event) {
            (TaskView::StoringChunk(upload, count), EventView::ChunkStored(_)) => upload.current
                + count <= u64::MAX,
            _ => true,
        }
    }
}

} // verus!
