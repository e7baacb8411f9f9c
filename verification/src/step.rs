//! The steps of the front end.
//!
//! The front end does one thing at a time. A step takes one event, changes the state and
//! says what the surroundings have to do next; what they did comes back as the next event.

use crate::listing::{collect_streams, entry_views, DirEntry};
use crate::payload::{contents, payload, payload_text, text_payload};
use crate::state::{
    Action, ActionView, App, AppView, Cause, Event, InputMode, Key, Task, TaskView, Upload,
    CHUNK_SIZE, READ_LENGTH,
};
use crate::text::{decimal, join, starts_with, strip_prefixes, texts, trim};
use crate::transition::{read_message, upload_path};
use bytes::Bytes;
use vstd::hash_map::StringHashMap;
use vstd::prelude::*;
use vstd::string::*;

verus! {

/// Finds the file that a typed text names for upload.
pub fn upload_path_of(input: &str) -> (path: String)
    ensures
        path@ == upload_path(input@),
{
    proof {
        reveal_strlit("file:");
    }
    trim(strip_prefixes(input, "file:")).to_owned()
}

/// Words the message that shows data read from a stream.
pub fn describe_read(data: &Bytes) -> (message: String)
    ensures
        message@ == read_message(contents(*data)),
{
    match payload_text(data) {
        Some(text) => join("Read: ", text.as_str()),
        None => {
            let length = decimal(data.len() as u64);
            let start = join("Read ", length.as_str());
            join(start.as_str(), " bytes of binary data")
        },
    }
}

impl App {
    /// The state at the start, and the first thing to do.
    pub fn new() -> (start: (App, Action))
        ensures
            start.0@ == AppView::initial(),
            start.1@ == ActionView::ListStreams,
    {
        let app = App {
            streams: Vec::new(),
            selected_stream: None,
            input_mode: InputMode::Normal,
            input: String::new(),
            messages: Vec::new(),
            read_position: 0,
            read_length: READ_LENGTH,
            upload_progress: None,
            is_loading: true,
            stream_metadata: StringHashMap::new(),
            task: Task::ListingStreams(Cause::Startup),
        };
        assert(app@ =~= AppView::initial());
        (app, Action::ListStreams)
    }

    fn tell(&mut self, message: String)
        ensures
            final(self)@ == old(self)@.told(message@),
    {
        let ghost before = self.messages@;
        self.messages.push(message);
        assert(texts(self.messages@) =~= texts(before).push(message@));
    }

    fn enter(&mut self, mode: InputMode)
        ensures
            final(self)@ == old(self)@.entering(mode),
    {
        self.input_mode = mode;
        self.input = String::new();
    }

    fn finish(&mut self)
        ensures
            final(self)@ == old(self)@.finished(),
    {
        self.task = Task::Idle;
        self.enter(InputMode::Normal);
    }

    fn load(&mut self, cause: Cause) -> (action: Action)
        ensures
            final(self)@ == old(self)@.loading(cause),
            action@ == ActionView::ListStreams,
    {
        self.is_loading = true;
        self.task = Task::ListingStreams(cause);
        Action::ListStreams
    }

    fn selected_id(&self) -> (stream_id: Option<String>)
        requires
            self@.wf(),
        ensures
            stream_id is Some <==> self@.selected_id() is Some,
            stream_id matches Some(id) ==> self@.selected_id() == Some(id@),
    {
        match self.selected_stream {
            Some(index) => Some(self.streams[index].clone()),
            None => None,
        }
    }

    /// Replaces the streams by those of a directory listing.
    pub fn refresh_streams(&mut self, entries: &Vec<DirEntry>)
        ensures
            final(self)@ == old(self)@.listing(entry_views(entries@)),
            final(self)@.wf(),
    {
        let (streams, metadata) = collect_streams(entries);
        self.streams = streams;
        self.stream_metadata = metadata;
        if let Some(selected) = self.selected_stream {
            if selected >= self.streams.len() {
                self.selected_stream = None;
            }
        }
        self.is_loading = false;
    }

    fn press_command(&mut self, key: Key) -> (action: Action)
        requires
            old(self)@.wf(),
        ensures
            (final(self)@, action@) == old(self)@.command_key(key),
    {
        match key {
            Key::Char('q') => Action::Quit,
            Key::Char('c') => {
                self.enter(InputMode::Creating);
                Action::Wait
            },
            Key::Char('w') => {
                if self.selected_stream.is_some() {
                    self.enter(InputMode::Writing);
                }
                Action::Wait
            },
            Key::Char('r') => {
                if self.selected_stream.is_some() {
                    self.enter(InputMode::Reading);
                }
                Action::Wait
            },
            Key::Char('u') => {
                if self.selected_stream.is_some() {
                    self.enter(InputMode::Writing);
                    self.tell("Enter path to file to upload (prefix with 'file:'):".to_owned());
                } else {
                    self.tell("Please select a stream first".to_owned());
                }
                Action::Wait
            },
            Key::Char('f') => {
                self.tell("Refreshing streams...".to_owned());
                self.load(Cause::Requested)
            },
            Key::Down => {
                if let Some(selected) = self.selected_stream {
                    if selected < self.streams.len() - 1 {
                        self.selected_stream = Some(selected + 1);
                    }
                } else if self.streams.len() > 0 {
                    self.selected_stream = Some(0);
                }
                Action::Wait
            },
            Key::Up => {
                if let Some(selected) = self.selected_stream {
                    if selected > 0 {
                        self.selected_stream = Some(selected - 1);
                    }
                }
                Action::Wait
            },
            _ => Action::Wait,
        }
    }

    fn submit(&mut self) -> (action: Action)
        requires
            old(self)@.wf(),
            old(self)@.mode != InputMode::Normal,
        ensures
            (final(self)@, action@) == old(self)@.submitted(),
    {
        if self.input_mode == InputMode::Creating {
            if self.input.as_str().is_empty() {
                return Action::Wait;
            }
            let stream_id = self.input.clone();
            self.task = Task::CreatingStream(stream_id.clone());
            return Action::CreateStream { stream_id };
        }
        match self.selected_id() {
            Some(stream_id) => {
                if self.input_mode == InputMode::Reading {
                    self.task = Task::FetchingData;
                    Action::Fetch {
                        stream_id,
                        position: self.read_position,
                        length: self.read_length,
                    }
                } else if starts_with(self.input.as_str(), "file:") {
                    let path = upload_path_of(self.input.as_str());
                    self.task = Task::OpeningFile { stream_id, path: path.clone() };
                    Action::OpenFile { path }
                } else {
                    let data = text_payload(self.input.as_str());
                    self.task = Task::AppendingText;
                    Action::Append { stream_id, data }
                }
            },
            None => {
                self.finish();
                Action::Wait
            },
        }
    }

    fn press_typing(&mut self, key: Key) -> (action: Action)
        requires
            old(self)@.wf(),
            old(self)@.mode != InputMode::Normal,
        ensures
            (final(self)@, action@) == old(self)@.typing_key(key),
    {
        match key {
            Key::Enter => self.submit(),
            Key::Char(c) => {
                self.input.push(c);
                Action::Wait
            },
            Key::Backspace => {
                let _ = self.input.pop();
                Action::Wait
            },
            Key::Esc => {
                self.enter(InputMode::Normal);
                Action::Wait
            },
            _ => Action::Wait,
        }
    }

    fn press(&mut self, key: Key) -> (action: Action)
        requires
            old(self)@.wf(),
        ensures
            (final(self)@, action@) == old(self)@.pressed(key),
    {
        if self.input_mode == InputMode::Normal {
            self.press_command(key)
        } else {
            self.press_typing(key)
        }
    }

    fn take_task(&mut self) -> (task: Task)
        ensures
            task@ == old(self)@.task,
            final(self)@ == old(self)@.busy(TaskView::Idle),
    {
        let mut task = Task::Idle;
        std::mem::swap(&mut task, &mut self.task);
        task
    }

    fn streams_listed(&mut self, cause: Cause, entries: &Vec<DirEntry>)
        requires
            old(self)@.task is Idle,
        ensures
            final(self)@ == old(self)@.streams_listed(cause, entry_views(entries@)),
    {
        self.refresh_streams(entries);
        match cause {
            Cause::Startup => {},
            Cause::Requested => self.tell("Streams refreshed".to_owned()),
            Cause::Created => self.finish(),
        }
    }

    /// Notes that a stream was created, and has the streams listed anew.
    fn create_stream(&mut self, stream_id: &str) -> (action: Action)
        ensures
            final(self)@ == old(self)@.told("Created stream: "@ + stream_id@).loading(
                Cause::Created,
            ),
            action@ == ActionView::ListStreams,
    {
        self.tell(join("Created stream: ", stream_id));
        self.load(Cause::Created)
    }

    fn fail_upload(&mut self, error: &str)
        ensures
            final(self)@ == old(self)@.upload_failed(error@),
    {
        self.tell(join("Upload error: ", error));
        self.finish();
    }

    fn continue_upload(&mut self, upload: Upload) -> (action: Action)
        ensures
            (final(self)@, action@) == old(self)@.uploading(upload@),
    {
        self.upload_progress = Some((upload.path.clone(), upload.current, upload.total));
        self.task = Task::ReadingChunk(upload);
        Action::ReadChunk { limit: CHUNK_SIZE }
    }

    fn complete_upload(&mut self, upload: &Upload)
        ensures
            final(self)@ == old(self)@.uploaded(upload@),
    {
        self.upload_progress = None;
        let file = join("Successfully uploaded ", upload.path.as_str());
        let link = join(file.as_str(), " to stream ");
        self.tell(join(link.as_str(), upload.stream_id.as_str()));
        self.finish();
    }

    /// Takes the next bytes of an uploaded file: hands them to the storage, or ends the
    /// upload where there are none or they could not be read.
    fn upload_chunk(&mut self, upload: Upload, answer: Result<Vec<u8>, String>) -> (action: Action)
        ensures
            (final(self)@, action@) == old(self)@.chunk_read(
                upload@,
                match answer {
                    Ok(chunk) => Ok(chunk@),
                    Err(error) => Err(error@),
                },
            ),
    {
        match answer {
            Err(error) => {
                self.fail_upload(error.as_str());
                Action::Wait
            },
            Ok(chunk) => {
                if chunk.len() == 0 {
                    self.complete_upload(&upload);
                    Action::Wait
                } else {
                    let stream_id = upload.stream_id.clone();
                    self.task = Task::StoringChunk(upload, chunk.len());
                    Action::StoreChunk { stream_id, data: payload(chunk) }
                }
            },
        }
    }

    fn appended(&mut self, answer: Result<u64, String>)
        ensures
            final(self)@ == old(self)@.appended(
                match answer {
                    Ok(position) => Ok(position as int),
                    Err(error) => Err(error@),
                },
            ),
    {
        let message = match answer {
            Ok(position) => {
                let place = decimal(position);
                join("Wrote data at position ", place.as_str())
            },
            Err(error) => join("Error: ", error.as_str()),
        };
        self.tell(message);
        self.finish();
    }

    fn fetched(&mut self, answer: Result<Bytes, String>)
        ensures
            final(self)@ == old(self)@.fetched(
                match answer {
                    Ok(data) => Ok(contents(data)),
                    Err(error) => Err(error@),
                },
            ),
    {
        let message = match answer {
            Ok(data) => describe_read(&data),
            Err(error) => join("Error: ", error.as_str()),
        };
        self.tell(message);
        self.finish();
    }

    /// Deals with an event and says what to do next.
    pub fn step(&mut self, event: Event) -> (action: Action)
        requires
            old(self)@.wf(),
            old(self)@.countable(event@),
        ensures
            (final(self)@, action@) == old(self)@.step(event@),
            final(self)@.wf(),
    {
        let task = self.take_task();
        match (task, event) {
            (Task::Idle, Event::Key(key)) => self.press(key),
            (Task::ListingStreams(cause), Event::StreamsListed(entries)) => {
                self.streams_listed(cause, &entries);
                Action::Wait
            },
            (Task::CreatingStream(stream_id), Event::StreamCreated(_)) => {
                self.create_stream(stream_id.as_str())
            },
            (Task::AppendingText, Event::Appended(answer)) => {
                self.appended(answer);
                Action::Wait
            },
            (Task::FetchingData, Event::Fetched(answer)) => {
                self.fetched(answer);
                Action::Wait
            },
            (Task::OpeningFile { stream_id, path }, Event::FileOpened(answer)) => {
                match answer {
                    Ok(total) => self.continue_upload(
                        Upload { stream_id, path, current: 0, total },
                    ),
                    Err(error) => {
                        self.fail_upload(error.as_str());
                        Action::Wait
                    },
                }
            },
            (Task::ReadingChunk(upload), Event::ChunkRead(answer)) => {
                self.upload_chunk(upload, answer)
            },
            (Task::StoringChunk(upload, count), Event::ChunkStored(_)) => {
                let current: u64 = upload.current + count as u64;
                self.continue_upload(
                    Upload {
                        stream_id: upload.stream_id,
                        path: upload.path,
                        current,
                        total: upload.total,
                    },
                )
            },
            (task, _) => {
                self.task = task;
                Action::Wait
            },
        }
    }
}

} // verus!
