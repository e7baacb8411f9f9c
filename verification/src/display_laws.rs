//! Laws of what is on the screen, stated over the state itself.

use crate::layout::{panels, Area, Panels};
use crate::listing::StreamMetadata;
use crate::screen::{describe_progress, ui, Color, Content, Label, Screen, TextStyle};
use crate::screen_laws::percentage_grows;
use crate::state::{App, InputMode};
use crate::text_laws::{decimals_read_back, is_decimal};
use vstd::arithmetic::div_mod::lemma_fundamental_div_mod_converse;
use vstd::prelude::*;

verus! {

/// Whether panels divide a screen: two cells of margin all around; title, input, content
/// and messages one below the other from the top to the bottom; three tenths of the content
/// for the streams, the rest for the details. Title and input have three rows each, the
/// messages five, the content all others. Where these are fewer than ten, the content has
/// ten rows, or all there are, then the messages have theirs, then title and input.
pub open spec fn divide(panels: Panels, screen: Area) -> bool {
    let fits = screen.width >= 4 && screen.height >= 4;
    let left = if fits {
        vstd::math::min(screen.x + 2, 65535)
    } else {
        0
    };
    let top = if fits {
        vstd::math::min(screen.y + 2, 65535)
    } else {
        0
    };
    let width = if fits {
        screen.width - 4
    } else {
        0
    };
    let height = if fits {
        screen.height - 4
    } else {
        0
    };
    let columns = vstd::math::min(left + width, 65535) - left;
    let rows = vstd::math::min(top + height, 65535) - top;
    let tenths = (3 * columns + 5) / 10;
    &&& panels.title.x == left && panels.title.width == width
    &&& panels.input.x == left && panels.input.width == width
    &&& panels.content.x == left && panels.content.width == width
    &&& panels.messages.x == left && panels.messages.width == width
    &&& panels.title.y == top
    &&& panels.input.y == panels.title.y + panels.title.height
    &&& panels.content.y == panels.input.y + panels.input.height
    &&& panels.messages.y == panels.content.y + panels.content.height
    &&& panels.messages.y + panels.messages.height == top + rows
    &&& panels.title.height == if rows >= 21 {
        3
    } else if rows >= 15 {
        (rows - 14) / 2
    } else {
        0
    }
    &&& panels.input.height == if rows >= 21 {
        3
    } else if rows >= 15 {
        (rows - 15) / 2
    } else {
        0
    }
    &&& panels.content.height == if rows >= 21 {
        rows - 11
    } else if rows >= 10 {
        10
    } else {
        rows
    }
    &&& panels.streams.y == panels.content.y && panels.streams.height == panels.content.height
    &&& panels.details.y == panels.content.y && panels.details.height == panels.content.height
    &&& panels.streams.x == left && panels.streams.width == tenths
    &&& panels.details.x == left + tenths && panels.details.width == columns - tenths
}

proof fn lemma_divide(panels: Panels, screen: Area)
    requires
        panels.fit(screen),
    ensures
        divide(panels, screen),
{
    let rows = seq![panels.title, panels.input, panels.content, panels.messages];
    let columns = seq![panels.streams, panels.details];
    assert(rows[0] == panels.title && rows[1] == panels.input && rows[2] == panels.content
        && rows[3] == panels.messages);
    assert(columns[0] == panels.streams && columns[1] == panels.details);
}

/// Law: the panels divide the screen.
pub proof fn panels_divide_the_screen(screen: Area, found: Panels)
    requires
        call_ensures(panels, (screen,), found),
    ensures
        divide(found, screen),
{
    lemma_divide(found, screen);
}

/// Whether a place of the list is the selected one.
pub open spec fn is_selected(app: App, i: int) -> bool {
    match app.selected_stream {
        Some(index) => index == i,
        None => false,
    }
}

/// Whether a list shows the streams in order, the selected one yellow and bold, the others
/// plain.
pub open spec fn show_streams(labels: Seq<Label>, app: App) -> bool {
    &&& labels.len() == app.streams@.len()
    &&& forall|i: int|
        #![trigger labels[i]]
        0 <= i < labels.len() ==> {
            &&& labels[i].text@ == app.streams@[i]@
            &&& is_selected(app, i) ==> labels[i].style == (
            TextStyle { color: Some(Color::Yellow), bold: true })
            &&& !is_selected(app, i) ==> labels[i].style == (
            TextStyle { color: None, bold: false })
        }
}

/// Whether a text words an upload: the path, a mark for every two percent but fifty at
/// most, and the whole percent that are through.
pub open spec fn words_progress(
    text: Seq<char>,
    path: Seq<char>,
    bar: Seq<char>,
    percent: int,
) -> bool {
    exists|number: Seq<char>| #[trigger]
        is_decimal(number, percent) && text == "Uploading: "@ + path + "\n["@ + bar + "] "@ + number
            + "%"@
}

/// Whether a bar has a mark for every two percent, fifty at most.
pub open spec fn is_bar(bar: Seq<char>, percent: int) -> bool {
    &&& percent >= 100 ==> bar.len() == 50
    &&& percent < 100 ==> bar.len() == percent / 2
    &&& forall|i: int| #![trigger bar[i]] 0 <= i < bar.len() ==> bar[i] == '='
}

/// Whether so many whole percent of a file are through.
pub open spec fn is_percentage(percent: int, current: int, total: int) -> bool {
    percent * total <= current * 100 < (percent + 1) * total
}

proof fn lemma_progress(
    path: Seq<char>,
    current: u64,
    total: u64,
    bar: Seq<char>,
    percent: int,
)
    requires
        total > 0,
        current * 100 <= u64::MAX,
        is_percentage(percent, current as int, total as int),
        percent <= usize::MAX,
        is_bar(bar, percent),
    ensures
        words_progress(
            crate::screen::progress_text(path, current as int, total as int),
            path,
            bar,
            percent,
        ),
{
    let hundredfold = current * 100;
    let rest = hundredfold - percent * total;
    assert((percent + 1) * total == percent * total + total) by (nonlinear_arith);
    lemma_fundamental_div_mod_converse(hundredfold, total as int, percent, rest);
    assert(crate::screen::percentage(current as int, total as int) == percent);
    percentage_grows(0, current as int, total as int);
    assert(bar =~= crate::screen::progress_bar(percent as u64));
    decimals_read_back(percent as nat);
}

/// Law: the progress of an upload is worded with its percentage and bar.
pub proof fn progress_is_worded(
    path: &str,
    current: u64,
    total: u64,
    text: String,
    bar: Seq<char>,
    percent: int,
)
    requires
        total > 0,
        current * 100 <= u64::MAX,
        call_ensures(describe_progress, (path, current, total), text),
        is_percentage(percent, current as int, total as int),
        percent <= usize::MAX,
        is_bar(bar, percent),
    ensures
        words_progress(text@, path@, bar, percent),
{
    lemma_progress(path@, current, total, bar, percent);
}

/// Whether a text words what is known of a stream.
pub open spec fn words_stream(text: Seq<char>, metadata: StreamMetadata) -> bool {
    exists|size: Seq<char>| #[trigger]
        is_decimal(size, metadata.total_size as int) && text == "Stream ID: "@ + metadata.id@
            + "\nCreated: "@ + metadata.created_at@ + "\nTotal Size: "@ + size + " bytes"@
}

/// Whether a text is about the right thing where no upload is under way: what is known of
/// the stream at the selected place of the list, or that nothing is known, or that none is
/// selected.
pub open spec fn words_selection(text: Seq<char>, app: App) -> bool {
    match app.selected_stream {
        Some(index) => {
            let stream_id = app.streams@[index as int]@;
            if app.stream_metadata@.contains_key(stream_id) {
                words_stream(text, app.stream_metadata@[stream_id])
            } else {
                text == "Selected stream: "@ + stream_id + "\nNo metadata available"@
            }
        },
        None => text == "No stream selected"@,
    }
}

/// Whether a text is about the upload that is under way.
pub open spec fn words_upload(text: Seq<char>, app: App, bar: Seq<char>, percent: int) -> bool {
    match app.upload_progress {
        Some((path, current, total)) => total > 0 && current * 100 <= u64::MAX && percent
            <= usize::MAX && is_percentage(percent, current as int, total as int) && is_bar(
            bar,
            percent,
        ) ==> words_progress(text, path@, bar, percent),
        None => true,
    }
}

/// Whether a state can be shown: where an upload is under way its file is not empty and its
/// bytes times a hundred fit in 64 bits, else the selection is on a stream.
pub open spec fn can_be_shown(app: App) -> bool {
    match app.upload_progress {
        Some((_, current, total)) => total > 0 && current * 100 <= u64::MAX,
        None => app.selected_stream matches Some(index) ==> index < app.streams@.len(),
    }
}

/// Law: every state that can be shown may be asked to be.
pub proof fn states_may_be_shown(app: &App, size: Area, path: &str, current: u64, total: u64)
    ensures
        call_requires(panels, (size,)),
        call_requires(App::label_streams, (app,)),
        can_be_shown(*app) ==> call_requires(App::describe_details, (app,)),
        can_be_shown(*app) ==> call_requires(App::content, (app,)),
        can_be_shown(*app) ==> call_requires(ui, (app, size)),
        total > 0 && current * 100 <= u64::MAX ==> call_requires(
            describe_progress,
            (path, current, total),
        ),
{
}

proof fn lemma_details(app: App, bar: Seq<char>, percent: int)
    requires
        can_be_shown(app),
    ensures
        words_upload(app@.details(), app, bar, percent),
        app.upload_progress is None ==> words_selection(app@.details(), app),
{
    match app.upload_progress {
        Some((path, current, total)) => {
            if percent <= usize::MAX && is_percentage(percent, current as int, total as int)
                && is_bar(bar, percent) {
                lemma_progress(path@, current, total, bar, percent);
            }
        },
        None => {
            if let Some(index) = app.selected_stream {
                let stream_id = app.streams@[index as int]@;
                assert(app@.streams[index as int] == stream_id);
                if app.stream_metadata@.contains_key(stream_id) {
                    let metadata = app.stream_metadata@[stream_id];
                    assert(app@.metadata[stream_id] == metadata@);
                    decimals_read_back(metadata.total_size as nat);
                }
            }
        },
    }
}

/// Law: the details are about the upload where one is under way, else about the stream at
/// the selected place of the list.
pub proof fn details_word_the_state(app: &App, text: String, bar: Seq<char>, percent: int)
    requires
        can_be_shown(*app),
        call_ensures(App::describe_details, (app,), text),
    ensures
        words_upload(text@, *app, bar, percent),
        app.upload_progress is None ==> words_selection(text@, *app),
{
    lemma_details(*app, bar, percent);
}

/// Whether the panels show the state: the title, what is typed under the name of its mode,
/// the streams, and the messages in order.
pub open spec fn shows(content: Content, app: App) -> bool {
    &&& content.title.text@ == "Binary Data Storage"@
    &&& content.title.style == (TextStyle { color: Some(Color::Cyan), bold: false })
    &&& content.input.text@ == app.input@
    &&& content.input.style == (TextStyle { color: Some(Color::Yellow), bold: false })
    &&& app.input_mode == InputMode::Normal ==> content.input_title@ == "Normal Mode"@
    &&& app.input_mode == InputMode::Creating ==> content.input_title@ == "Create Stream"@
    &&& app.input_mode == InputMode::Writing ==> content.input_title@ == "Write to Stream"@
    &&& app.input_mode == InputMode::Reading ==> content.input_title@ == "Read from Stream"@
    &&& app.is_loading ==> content.streams_title@ == "Streams (Loading...)"@
    &&& !app.is_loading ==> content.streams_title@ == "Streams"@
    &&& show_streams(content.streams@, app)
    &&& content.details_title@ == "Details"@
    &&& content.messages_title@ == "Messages"@
    &&& content.messages@.len() == app.messages@.len()
    &&& forall|i: int|
        #![trigger content.messages@[i]]
        0 <= i < app.messages@.len() ==> content.messages@[i]@ == app.messages@[i]@
}

proof fn lemma_labels(labels: Seq<Label>, app: App)
    requires
        labels.map_values(|label: Label| label@) == app@.stream_labels(),
    ensures
        show_streams(labels, app),
{
    let views = labels.map_values(|label: Label| label@);
    assert(views.len() == labels.len());
    assert forall|i: int| #![trigger labels[i]] 0 <= i < labels.len() implies {
        &&& labels[i].text@ == app.streams@[i]@
        &&& is_selected(app, i) ==> labels[i].style == (
        TextStyle { color: Some(Color::Yellow), bold: true })
        &&& !is_selected(app, i) ==> labels[i].style == (
        TextStyle { color: None, bold: false })
    } by {
        assert(views[i] == labels[i]@);
        assert(views[i] == app@.stream_labels()[i]);
    }
}

proof fn lemma_shows(content: Content, app: App)
    requires
        content@ == app@.content(),
    ensures
        shows(content, app),
{
    let view = content@;
    assert(view.title == content.title@ && view.input == content.input@);
    lemma_labels(content.streams@, app);
    assert(view.messages.len() == content.messages@.len());
    assert(app@.messages.len() == app.messages@.len());
    assert forall|i: int|
        #![trigger content.messages@[i]]
        0 <= i < app.messages@.len() implies content.messages@[i]@ == app.messages@[i]@ by {
        assert(view.messages[i] == content.messages@[i]@);
        assert(app@.messages[i] == app.messages@[i]@);
    }
}

/// Law: the list shows the streams, and the selected one stands out.
pub proof fn list_shows_the_streams(app: &App, labels: Vec<Label>)
    requires
        call_ensures(App::label_streams, (app,), labels),
    ensures
        show_streams(labels@, *app),
{
    lemma_labels(labels@, *app);
}

/// Law: the panels show the state.
pub proof fn content_shows_the_state(app: &App, content: Content, bar: Seq<char>, percent: int)
    requires
        can_be_shown(*app),
        call_ensures(App::content, (app,), content),
    ensures
        shows(content, *app),
        words_upload(content.details@, *app, bar, percent),
        app.upload_progress is None ==> words_selection(content.details@, *app),
{
    lemma_shows(content, *app);
    lemma_details(*app, bar, percent);
}

/// Law: the screen shows the state in panels that divide it.
pub proof fn screen_shows_the_state(
    app: &App,
    size: Area,
    screen: Screen,
    bar: Seq<char>,
    percent: int,
)
    requires
        can_be_shown(*app),
        call_ensures(ui, (app, size), screen),
    ensures
        divide(screen.panels, size),
        shows(screen.content, *app),
        words_upload(screen.content.details@, *app, bar, percent),
        app.upload_progress is None ==> words_selection(screen.content.details@, *app),
{
    lemma_divide(screen.panels, size);
    lemma_shows(screen.content, *app);
    lemma_details(*app, bar, percent);
}

} // verus!
