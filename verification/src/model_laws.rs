//! Laws that tie the models to what they model, and the functions to the models.

use crate::catalog_laws::{listing_shows_what_is_described, lists};
use crate::listing::{entry_views, DirEntry, MetadataView};
use crate::payload::contents;
use crate::session::{Order, OrderView, Outcome, OutcomeView, Phase, Session, SessionView};
use crate::settings::{storage_dir, storage_settings, StorageSettings};
use crate::state::{
    Action, ActionView, App, AppView, Cause, Event, EventView, InputMode, Task, TaskView, Upload,
};
use vstd::prelude::*;

verus! {

/// Law: a state is modelled by what it holds.
pub proof fn state_is_modelled(app: App, i: int, id: Seq<char>)
    ensures
        app@.streams.len() == app.streams@.len(),
        0 <= i < app.streams@.len() ==> app@.streams[i] == app.streams@[i]@,
        app.selected_stream matches Some(index) ==> app@.selected == Some(index as int),
        app.selected_stream is None ==> app@.selected is None,
        app@.mode == app.input_mode,
        app@.input == app.input@,
        app@.messages.len() == app.messages@.len(),
        0 <= i < app.messages@.len() ==> app@.messages[i] == app.messages@[i]@,
        app@.read_position == app.read_position,
        app@.read_length == app.read_length,
        app.upload_progress matches Some((path, current, total)) ==> app@.upload_progress == Some(
            (path@, current as int, total as int),
        ),
        app.upload_progress is None ==> app@.upload_progress is None,
        app@.is_loading == app.is_loading,
        app@.metadata.contains_key(id) <==> app.stream_metadata@.contains_key(id),
        app.stream_metadata@.contains_key(id) ==> app@.metadata[id] == (MetadataView {
            id: app.stream_metadata@[id].id@,
            created_at: app.stream_metadata@[id].created_at@,
            total_size: app.stream_metadata@[id].total_size,
        }),
        app@.task == app.task@,
{
}

/// Law: a task is modelled by what it is.
pub proof fn task_is_modelled(task: Task)
    ensures
        match task {
            Task::Idle => task@ == TaskView::Idle,
            Task::ListingStreams(cause) => task@ == TaskView::ListingStreams(cause),
            Task::CreatingStream(id) => task@ == TaskView::CreatingStream(id@),
            Task::AppendingText => task@ == TaskView::AppendingText,
            Task::FetchingData => task@ == TaskView::FetchingData,
            Task::OpeningFile { stream_id, path } => task@ == (TaskView::OpeningFile {
                stream_id: stream_id@,
                path: path@,
            }),
            Task::ReadingChunk(upload) => task@ == TaskView::ReadingChunk(upload@),
            Task::StoringChunk(upload, count) => task@ == TaskView::StoringChunk(
                upload@,
                count as int,
            ),
        },
{
}

/// Law: an upload is modelled by what it holds.
pub proof fn upload_is_modelled(upload: Upload)
    ensures
        upload@.stream_id == upload.stream_id@,
        upload@.path == upload.path@,
        upload@.current == upload.current,
        upload@.total == upload.total,
{
}

/// Law: an event is modelled by what happened.
pub proof fn event_is_modelled(event: Event)
    ensures
        match event {
            Event::Key(key) => event@ == EventView::Key(key),
            Event::Other => event@ == EventView::Other,
            Event::StreamsListed(entries) => event@ == EventView::StreamsListed(
                entry_views(entries@),
            ),
            Event::StreamCreated(answer) => event@ matches EventView::StreamCreated(view) && (
            answer is Ok <==> view is Ok) && (answer matches Err(error) ==> view == Err::<
                (),
                Seq<char>,
            >(error@)),
            Event::Appended(Ok(position)) => event@ == EventView::Appended(Ok(position as int)),
            Event::Appended(Err(error)) => event@ == EventView::Appended(Err(error@)),
            Event::Fetched(Ok(data)) => event@ == EventView::Fetched(Ok(contents(data))),
            Event::Fetched(Err(error)) => event@ == EventView::Fetched(Err(error@)),
            Event::FileOpened(Ok(total)) => event@ == EventView::FileOpened(Ok(total as int)),
            Event::FileOpened(Err(error)) => event@ == EventView::FileOpened(Err(error@)),
            Event::ChunkRead(Ok(chunk)) => event@ == EventView::ChunkRead(Ok(chunk@)),
            Event::ChunkRead(Err(error)) => event@ == EventView::ChunkRead(Err(error@)),
            Event::ChunkStored(Ok(position)) => event@ == EventView::ChunkStored(
                Ok(position as int),
            ),
            Event::ChunkStored(Err(error)) => event@ == EventView::ChunkStored(Err(error@)),
        },
{
}

/// Law: an action is modelled by what it asks for.
pub proof fn action_is_modelled(action: Action)
    ensures
        match action {
            Action::Wait => action@ == ActionView::Wait,
            Action::Quit => action@ == ActionView::Quit,
            Action::ListStreams => action@ == ActionView::ListStreams,
            Action::CreateStream { stream_id: id } => action@ == (ActionView::CreateStream {
                stream_id: id@,
            }),
            Action::Append { stream_id: id, data } => action@ == (ActionView::Append {
                stream_id: id@,
                data: contents(data),
            }),
            Action::Fetch { stream_id: id, position, length } => action@ == (ActionView::Fetch {
                stream_id: id@,
                position: position as int,
                length: length as int,
            }),
            Action::OpenFile { path } => action@ == (ActionView::OpenFile { path: path@ }),
            Action::ReadChunk { limit } => action@ == (ActionView::ReadChunk {
                limit: limit as int,
            }),
            Action::StoreChunk { stream_id: id, data } => action@ == (ActionView::StoreChunk {
                stream_id: id@,
                data: contents(data),
            }),
        },
{
}

/// Law: a session is modelled by its state and its phase.
pub proof fn session_is_modelled(session: Session)
    ensures
        session@.app == session.app@,
        session@.phase == session.phase,
{
}

/// Law: an outcome is modelled by what it brings.
pub proof fn outcome_is_modelled<E>(outcome: Outcome<E>)
    ensures
        match outcome {
            Outcome::Drawn(result) => outcome@ == OutcomeView::Drawn(result),
            Outcome::Received(Some(event)) => outcome@ == OutcomeView::<E>::Received(Some(event@)),
            Outcome::Received(None) => outcome@ == OutcomeView::<E>::Received(None),
            Outcome::Performed(event) => outcome@ == OutcomeView::<E>::Performed(event@),
        },
{
}

/// Law: an order is modelled by what it orders.
pub proof fn order_is_modelled<E>(order: Order<E>)
    ensures
        match order {
            Order::Perform(action) => order@ == OrderView::<E>::Perform(action@),
            Order::Draw => order@ == OrderView::<E>::Draw,
            Order::Receive => order@ == OrderView::<E>::Receive,
            Order::Return(result) => order@ == OrderView::Return(result),
            Order::Nothing => order@ == OrderView::<E>::Nothing,
        },
{
}

/// Law: the front end starts empty, reads a hundred bytes from the start of a stream, and
/// has the streams listed first.
pub proof fn front_end_starts_empty(start: (App, Action))
    requires
        call_ensures(App::new, (), start),
    ensures
        start.0.streams@.len() == 0,
        start.0.selected_stream is None,
        start.0.input_mode == InputMode::Normal,
        start.0.input@.len() == 0,
        start.0.messages@.len() == 0,
        start.0.read_position == 0,
        start.0.read_length == 100,
        start.0.upload_progress is None,
        start.0.is_loading,
        start.0@.metadata == Map::<Seq<char>, MetadataView>::empty(),
        start.0@.task == TaskView::ListingStreams(Cause::Startup),
        start.1 is ListStreams,
{
    assert(start.0@.streams.len() == start.0.streams@.len());
    assert(start.0@.messages.len() == start.0.messages@.len());
}

/// Law: every step does what the model says, and so keeps the selection on a stream.
pub proof fn step_follows_the_model(app: &mut App, event: Event, action: Action)
    requires
        call_ensures(App::step, (app, event), action),
    ensures
        final(app)@ == old(app)@.step(event@).0,
        action@ == old(app)@.step(event@).1,
        final(app)@.wf(),
{
}

/// Law: a step may be taken whenever the selection is on a stream and the bytes of an upload
/// can be counted in 64 bits; refreshing may be asked for at any time.
pub proof fn steps_may_be_taken(app: &mut App, event: Event, entries: &Vec<DirEntry>)
    requires
        old(app).selected_stream matches Some(index) ==> index < old(app).streams@.len(),
    ensures
        match (old(app).task, event) {
            (Task::StoringChunk(upload, count), Event::ChunkStored(_)) => upload.current + count
                <= u64::MAX ==> call_requires(App::step, (app, event)),
            _ => call_requires(App::step, (app, event)),
        },
        call_requires(App::refresh_streams, (app, entries)),
{
}

/// Law: a session may take an outcome whenever its front end may take the event in it.
pub proof fn outcomes_may_be_taken<E>(session: &mut Session, outcome: Outcome<E>)
    requires
        old(session).app.selected_stream matches Some(index) ==> index < old(
            session,
        ).app.streams@.len(),
    ensures
        match (old(session).app.task, outcome) {
            (Task::StoringChunk(upload, count), Outcome::Performed(Event::ChunkStored(_))) | (
                Task::StoringChunk(upload, count),
                Outcome::Received(Some(Event::ChunkStored(_))),
            ) => upload.current + count <= u64::MAX ==> call_requires(
                Session::step::<E>,
                (session, outcome),
            ),
            _ => call_requires(Session::step::<E>, (session, outcome)),
        },
{
}

/// Law: the storage is opened with a mebibyte in memory, chunks of 64 kibibytes, a hundred
/// cached entries, segments for an hour, and reads tracked one by one, in `./storage`.
pub proof fn storage_is_set_up(settings: StorageSettings, dir: &'static str)
    requires
        call_ensures(storage_settings, (), settings),
        call_ensures(storage_dir, (), dir),
    ensures
        settings.memory_threshold == 1024 * 1024,
        settings.max_chunk_size == 64 * 1024,
        settings.cache_size == 100,
        settings.segment_cleanup_seconds == 60 * 60,
        settings.granular_read_tracking,
        dir@ == "./storage"@,
{
}

/// Law: refreshing replaces the streams and their metadata by those of the listing, drops a
/// selection behind the end of the list, and changes nothing else.
pub proof fn refreshing_replaces_the_streams(app: &mut App, entries: &Vec<DirEntry>)
    requires
        call_ensures(App::refresh_streams, (app, entries), ()),
    ensures
        lists(final(app)@.streams, final(app)@.metadata, entry_views(entries@)),
        final(app)@ == (AppView {
            streams: final(app)@.streams,
            metadata: final(app)@.metadata,
            selected: match old(app)@.selected {
                Some(index) if index < final(app)@.streams.len() => Some(index),
                _ => None,
            },
            is_loading: false,
            ..old(app)@
        }),
{
    listing_shows_what_is_described(entry_views(entries@));
}

/// Law: a session starts with the front end at its start, and the streams are listed first.
pub proof fn session_starts_with_a_listing<E>(start: (Session, Order<E>))
    requires
        call_ensures(Session::new::<E>, (), start),
    ensures
        start.0@.app == AppView::initial(),
        start.0.phase == Phase::Performing,
        start.1 matches Order::Perform(action) && action@ == ActionView::ListStreams,
{
}

/// Law: every step of a session does what the model says.
pub proof fn session_follows_the_model<E>(
    session: &mut Session,
    outcome: Outcome<E>,
    order: Order<E>,
)
    requires
        call_ensures(Session::step::<E>, (session, outcome), order),
    ensures
        final(session)@ == old(session)@.step(outcome@).0,
        order@ == old(session)@.step(outcome@).1,
        final(session)@.app.wf(),
{
}

/// Law: when an event is taken, the front end takes it as its own step, and what that step
/// asks for is what is ordered: its action, the end, or a draw where it asks for nothing.
pub proof fn taken_event_is_carried_out<E>(session: SessionView, event: EventView)
    requires
        session.phase == Phase::Receiving && session.app.task is Idle || session.phase
            == Phase::Performing,
    ensures
        ({
            let outcome = if session.phase == Phase::Receiving {
                OutcomeView::<E>::Received(Some(event))
            } else {
                OutcomeView::<E>::Performed(event)
            };
            let step = session.app.step(event);
            let next = session.step(outcome);
            &&& next.0.app == step.0
            &&& step.1 is Quit ==> next.1 == OrderView::<E>::Return(Ok(())) && next.0.phase
                == Phase::Over
            &&& step.1 is Wait && step.0.task is Idle ==> next.1 == OrderView::<E>::Draw
                && next.0.phase == Phase::Drawing
            &&& step.1 is Wait && !(step.0.task is Idle) ==> next.1 == OrderView::<E>::Nothing
                && next.0.phase == session.phase
            &&& !(step.1 is Quit) && !(step.1 is Wait) ==> next.1 == OrderView::<E>::Perform(step.1)
                && next.0.phase == Phase::Performing
        }),
{
}

/// Law: a drawn screen leads to a look for an event and changes nothing else; a screen that
/// could not be drawn ends the session.
pub proof fn draw_leads_on<E>(session: SessionView, error: E)
    requires
        session.phase == Phase::Drawing,
    ensures
        session.step(OutcomeView::<E>::Drawn(Ok(()))) == (
            SessionView { app: session.app, phase: Phase::Receiving },
            OrderView::<E>::Receive,
        ),
        session.step(OutcomeView::Drawn(Err(error))) == (
            SessionView { app: session.app, phase: Phase::Over },
            OrderView::Return(Err(error)),
        ),
{
}

} // verus!
