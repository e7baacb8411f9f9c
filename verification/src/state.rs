//! The state of the front end, what can happen to it and what it can ask for.

use crate::listing::{
    entry_views, table_view, DirEntry, DirEntryView, MetadataView, StreamMetadata,
};
use crate::payload::contents;
use crate::text::texts;
use bytes::Bytes;
use vstd::hash_map::StringHashMap;
use vstd::prelude::*;

verus! {

/// How many bytes of an uploaded file are read at a time.
pub const CHUNK_SIZE: usize = 65536;

/// How many bytes of a stream a read asks for.
pub const READ_LENGTH: usize = 100;

/// What typed keys mean.
#[derive(Clone, Copy, Debug, PartialEq, Eq, Structural)]
pub enum InputMode {
    Normal,
    Creating,
    Writing,
    Reading,
}

/// A key of the terminal.
#[derive(Clone, Copy, Debug, PartialEq, Eq, Structural)]
pub enum Key {
    Char(char),
    Enter,
    Backspace,
    Esc,
    Up,
    Down,
    Other,
}

/// Why the streams are being listed.
#[derive(Clone, Copy, Debug, PartialEq, Eq, Structural)]
pub enum Cause {
    Startup,
    Requested,
    Created,
}

/// A file on its way into a stream.
pub struct Upload {
    pub stream_id: String,
    pub path: String,
    pub current: u64,
    pub total: u64,
}

/// What the surroundings are busy with.
pub enum Task {
    Idle,
    ListingStreams(Cause),
    CreatingStream(String),
    AppendingText,
    FetchingData,
    OpeningFile { stream_id: String, path: String },
    ReadingChunk(Upload),
    StoringChunk(Upload, usize),
}

/// What happened.
pub enum Event {
    /// A key was pressed.
    Key(Key),
    /// The terminal reported something else.
    Other,
    /// The storage directory was listed.
    StreamsListed(Vec<DirEntry>),
    /// The storage created a stream, or said why not.
    StreamCreated(Result<(), String>),
    /// The storage appended a text and gave its position, or said why not.
    Appended(Result<u64, String>),
    /// The storage read some data, or said why not.
    Fetched(Result<Bytes, String>),
    /// A file was opened and has this size, or could not be opened.
    FileOpened(Result<u64, String>),
    /// The next bytes of the file were read (none at its end), or could not be read.
    ChunkRead(Result<Vec<u8>, String>),
    /// The storage appended a chunk and gave its position, or said why not.
    ChunkStored(Result<u64, String>),
}

/// What to do next.
pub enum Action {
    /// Wait for the next terminal event.
    Wait,
    /// Leave the program.
    Quit,
    /// List the storage directory.
    ListStreams,
    /// Have the storage create a stream.
    CreateStream { stream_id: String },
    /// Have the storage append data to a stream.
    Append { stream_id: String, data: Bytes },
    /// Have the storage read data from a stream.
    Fetch { stream_id: String, position: usize, length: usize },
    /// Open a file and find out its size.
    OpenFile { path: String },
    /// Read the next bytes of the open file, no more than `limit`.
    ReadChunk { limit: usize },
    /// Have the storage append a chunk to a stream.
    StoreChunk { stream_id: String, data: Bytes },
}

/// The state of the front end.
pub struct App {
    pub streams: Vec<String>,
    pub selected_stream: Option<usize>,
    pub input_mode: InputMode,
    pub input: String,
    pub messages: Vec<String>,
    pub read_position: usize,
    pub read_length: usize,
    /// The file being uploaded, the bytes that are through and the bytes in all.
    pub upload_progress: Option<(String, u64, u64)>,
    pub is_loading: bool,
    pub stream_metadata: StringHashMap<StreamMetadata>,
    pub task: Task,
}

/// The model of an [`Upload`].
#[verifier::ext_equal]
pub struct UploadView {
    pub stream_id: Seq<char>,
    pub path: Seq<char>,
    pub current: int,
    pub total: int,
}

/// The model of a [`Task`].
#[verifier::ext_equal]
pub enum TaskView {
    Idle,
    ListingStreams(Cause),
    CreatingStream(Seq<char>),
    AppendingText,
    FetchingData,
    OpeningFile { stream_id: Seq<char>, path: Seq<char> },
    ReadingChunk(UploadView),
    StoringChunk(UploadView, int),
}

/// The model of an [`Event`].
#[verifier::ext_equal]
pub enum EventView {
    Key(Key),
    Other,
    StreamsListed(Seq<DirEntryView>),
    StreamCreated(Result<(), Seq<char>>),
    Appended(Result<int, Seq<char>>),
    Fetched(Result<Seq<u8>, Seq<char>>),
    FileOpened(Result<int, Seq<char>>),
    ChunkRead(Result<Seq<u8>, Seq<char>>),
    ChunkStored(Result<int, Seq<char>>),
}

/// The model of an [`Action`].
#[verifier::ext_equal]
pub enum ActionView {
    Wait,
    Quit,
    ListStreams,
    CreateStream { stream_id: Seq<char> },
    Append { stream_id: Seq<char>, data: Seq<u8> },
    Fetch { stream_id: Seq<char>, position: int, length: int },
    OpenFile { path: Seq<char> },
    ReadChunk { limit: int },
    StoreChunk { stream_id: Seq<char>, data: Seq<u8> },
}

/// The model of an [`App`].
#[verifier::ext_equal]
pub struct AppView {
    pub streams: Seq<Seq<char>>,
    pub selected: Option<int>,
    pub mode: InputMode,
    pub input: Seq<char>,
    pub messages: Seq<Seq<char>>,
    pub read_position: int,
    pub read_length: int,
    pub upload_progress: Option<(Seq<char>, int, int)>,
    pub is_loading: bool,
    pub metadata: Map<Seq<char>, MetadataView>,
    pub task: TaskView,
}

impl View for Upload {
    type V = UploadView;

    open spec fn view(&self) -> UploadView {
        UploadView {
            stream_id: self.stream_id@,
            path: self.path@,
            current: self.current as int,
            total: self.total as int,
        }
    }
}

impl View for Task {
    type V = TaskView;

    open spec fn view(&self) -> TaskView {
        match *self {
            Task::Idle => TaskView::Idle,
            Task::ListingStreams(cause) => TaskView::ListingStreams(cause),
            Task::CreatingStream(stream_id) => TaskView::CreatingStream(stream_id@),
            Task::AppendingText => TaskView::AppendingText,
            Task::FetchingData => TaskView::FetchingData,
            Task::OpeningFile { stream_id, path } => TaskView::OpeningFile {
                stream_id: stream_id@,
                path: path@,
            },
            Task::ReadingChunk(upload) => TaskView::ReadingChunk(upload@),
            Task::StoringChunk(upload, count) => TaskView::StoringChunk(upload@, count as int),
        }
    }
}

impl View for Event {
    type V = EventView;

    open spec fn view(&self) -> EventView {
        match *self {
            Event::Key(key) => EventView::Key(key),
            Event::Other => EventView::Other,
            Event::StreamsListed(entries) => EventView::StreamsListed(entry_views(entries@)),
            Event::StreamCreated(Ok(())) => EventView::StreamCreated(Ok(())),
            Event::StreamCreated(Err(error)) => EventView::StreamCreated(Err(error@)),
            Event::Appended(Ok(position)) => EventView::Appended(Ok(position as int)),
            Event::Appended(Err(error)) => EventView::Appended(Err(error@)),
            Event::Fetched(Ok(data)) => EventView::Fetched(Ok(contents(data))),
            Event::Fetched(Err(error)) => EventView::Fetched(Err(error@)),
            Event::FileOpened(Ok(total)) => EventView::FileOpened(Ok(total as int)),
            Event::FileOpened(Err(error)) => EventView::FileOpened(Err(error@)),
            Event::ChunkRead(Ok(chunk)) => EventView::ChunkRead(Ok(chunk@)),
            Event::ChunkRead(Err(error)) => EventView::ChunkRead(Err(error@)),
            Event::ChunkStored(Ok(position)) => EventView::ChunkStored(Ok(position as int)),
            Event::ChunkStored(Err(error)) => EventView::ChunkStored(Err(error@)),
        }
    }
}

impl View for Action {
    type V = ActionView;

    open spec fn view(&self) -> ActionView {
        match *self {
            Action::Wait => ActionView::Wait,
            Action::Quit => ActionView::Quit,
            Action::ListStreams => ActionView::ListStreams,
            Action::CreateStream { stream_id } => ActionView::CreateStream {
                stream_id: stream_id@,
            },
            Action::Append { stream_id, data } => ActionView::Append {
                stream_id: stream_id@,
                data: contents(data),
            },
            Action::Fetch { stream_id, position, length } => ActionView::Fetch {
                stream_id: stream_id@,
                position: position as int,
                length: length as int,
            },
            Action::OpenFile { path } => ActionView::OpenFile { path: path@ },
            Action::ReadChunk { limit } => ActionView::ReadChunk { limit: limit as int },
            Action::StoreChunk { stream_id, data } => ActionView::StoreChunk {
                stream_id: stream_id@,
                data: contents(data),
            },
        }
    }
}

impl View for App {
    type V = AppView;

    open spec fn view(&self) -> AppView {
        AppView {
            streams: texts(self.streams@),
            selected: match self.selected_stream {
                Some(index) => Some(index as int),
                None => None,
            },
            mode: self.input_mode,
            input: self.input@,
            messages: texts(self.messages@),
            read_position: self.read_position as int,
            read_length: self.read_length as int,
            upload_progress: match self.upload_progress {
                Some(progress) => Some((progress.0@, progress.1 as int, progress.2 as int)),
                None => None,
            },
            is_loading: self.is_loading,
            metadata: table_view(self.stream_metadata@),
            task: self.task@,
        }
    }
}

} // verus!
