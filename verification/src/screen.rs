//! What the screen shows.

use crate::layout::{panels, Area, Panels};
use crate::listing::MetadataView;
use crate::state::{App, AppView, InputMode};
use crate::text::{decimal, decimal_text, join, repeated, texts};
use vstd::prelude::*;
use vstd::string::*;

verus! {

/// A colour of text.
#[derive(Clone, Copy, Debug, PartialEq, Eq, Structural)]
pub enum Color {
    Cyan,
    Yellow,
}

/// How a text looks; without a colour it has the terminal's own.
#[derive(Clone, Copy, Debug, PartialEq, Eq, Structural)]
pub struct TextStyle {
    pub color: Option<Color>,
    pub bold: bool,
}

/// A text and how it looks.
pub struct Label {
    pub text: String,
    pub style: TextStyle,
}

/// What the panels show.
pub struct Content {
    pub title: Label,
    pub input_title: String,
    pub input: Label,
    pub streams_title: String,
    pub streams: Vec<Label>,
    pub details_title: String,
    pub details: String,
    pub messages_title: String,
    pub messages: Vec<String>,
}

/// What the screen shows, and where.
pub struct Screen {
    pub panels: Panels,
    pub content: Content,
}

/// The model of a [`Label`].
pub struct LabelView {
    pub text: Seq<char>,
    pub style: TextStyle,
}

/// The model of a [`Content`].
#[verifier::ext_equal]
pub struct ContentView {
    pub title: LabelView,
    pub input_title: Seq<char>,
    pub input: LabelView,
    pub streams_title: Seq<char>,
    pub streams: Seq<LabelView>,
    pub details_title: Seq<char>,
    pub details: Seq<char>,
    pub messages_title: Seq<char>,
    pub messages: Seq<Seq<char>>,
}

impl View for Label {
    type V = LabelView;

    open spec fn view(&self) -> LabelView {
        LabelView { text: self.text@, style: self.style }
    }
}

impl View for Content {
    type V = ContentView;

    open spec fn view(&self) -> ContentView {
        ContentView {
            title: self.title@,
            input_title: self.input_title@,
            input: self.input@,
            streams_title: self.streams_title@,
            streams: self.streams@.map_values(|label: Label| label@),
            details_title: self.details_title@,
            details: self.details@,
            messages_title: self.messages_title@,
            messages: texts(self.messages@),
        }
    }
}

/// How a stream in the list looks.
pub open spec fn stream_style(selected: bool) -> TextStyle {
    if selected {
        TextStyle { color: Some(Color::Yellow), bold: true }
    } else {
        TextStyle { color: None, bold: false }
    }
}

/// The title of the input in each mode.
pub open spec fn mode_title(mode: InputMode) -> Seq<char> {
    match mode {
        InputMode::Normal => "Normal Mode"@,
        InputMode::Creating => "Create Stream"@,
        InputMode::Writing => "Write to Stream"@,
        InputMode::Reading => "Read from Stream"@,
    }
}

/// How much of an upload is through, in whole percent.
pub open spec fn percentage(current: int, total: int) -> int {
    current * 100 / total
}

/// The length of the bar for a percentage: a mark for every two percent, fifty at most.
pub open spec fn bar_length(percentage: u64) -> int {
    vstd::math::min((percentage as usize) as int / 2, 50)
}

/// The bar for a percentage.
pub open spec fn progress_bar(percentage: u64) -> Seq<char> {
    Seq::new(bar_length(percentage) as nat, |i: int| '=')
}

/// The text about an upload.
pub open spec fn progress_text(path: Seq<char>, current: int, total: int) -> Seq<char> {
    let percentage = percentage(current, total);
    "Uploading: "@ + path + "\n["@ + progress_bar(percentage as u64) + "] "@ + decimal_text(
        percentage as nat,
    ) + "%"@
}

/// The text about a stream.
pub open spec fn metadata_text(metadata: MetadataView) -> Seq<char> {
    "Stream ID: "@ + metadata.id + "\nCreated: "@ + metadata.created_at + "\nTotal Size: "@
        + decimal_text(metadata.total_size as nat) + " bytes"@
}

/// The text about a stream of which nothing more is known.
pub open spec fn unknown_stream_text(stream_id: Seq<char>) -> Seq<char> {
    "Selected stream: "@ + stream_id + "\nNo metadata available"@
}

impl AppView {
    /// Whether the details can be worked out: of an upload, the file is not empty and its
    /// bytes times a hundred fit in 64 bits; without one, the selection points at a stream.
    pub open spec fn showable(self) -> bool {
        match self.upload_progress {
            Some((_, current, total)) => total > 0 && current * 100 <= u64::MAX,
            None => self.wf(),
        }
    }

    /// The details: of the upload if there is one, else of the selected stream.
    pub open spec fn details(self) -> Seq<char> {
        match self.upload_progress {
            Some((path, current, total)) => progress_text(path, current, total),
            None => match self.selected_id() {
                Some(stream_id) => if self.metadata.contains_key(stream_id) {
                    metadata_text(self.metadata[stream_id])
                } else {
                    unknown_stream_text(stream_id)
                },
                None => "No stream selected"@,
            },
        }
    }

    /// The list of streams, the selected one standing out.
    pub open spec fn stream_labels(self) -> Seq<LabelView> {
        Seq::new(
            self.streams.len(),
            |i: int|
                LabelView {
                    text: self.streams[i],
                    style: stream_style(self.selected == Some(i)),
                },
        )
    }

    /// What the panels show.
    pub open spec fn content(self) -> ContentView {
        ContentView {
            title: LabelView {
                text: "Binary Data Storage"@,
                style: TextStyle { color: Some(Color::Cyan), bold: false },
            },
            input_title: mode_title(self.mode),
            input: LabelView {
                text: self.input,
                style: TextStyle { color: Some(Color::Yellow), bold: false },
            },
            streams_title: if self.is_loading {
                "Streams (Loading...)"@
            } else {
                "Streams"@
            },
            streams: self.stream_labels(),
            details_title: "Details"@,
            details: self.details(),
            messages_title: "Messages"@,
            messages: self.messages,
        }
    }
}

/// Words the progress of an upload.
pub fn describe_progress(path: &str, current: u64, total: u64) -> (text: String)
    requires
        total > 0,
        current * 100 <= u64::MAX,
    ensures
        text@ == progress_text(path@, current as int, total as int),
{
    let percentage: u64 = (current * 100) / total;
    let half: usize = percentage as usize / 2;
    let length: usize = if half < 50 {
        half
    } else {
        50
    };
    let bar = repeated('=', length);
    let number = decimal(percentage);
    let mut text = join("Uploading: ", path);
    text.append("\n[");
    text.append(bar.as_str());
    text.append("] ");
    text.append(number.as_str());
    text.append("%");
    text
}

impl App {
    /// Words the details.
    pub fn describe_details(&self) -> (text: String)
        requires
            self@.showable(),
        ensures
            text@ == self@.details(),
    {
        if let Some((path, current, total)) = &self.upload_progress {
            return describe_progress(path.as_str(), *current, *total);
        }
        match self.selected_stream {
            Some(index) => {
                let stream_id = &self.streams[index];
                match self.stream_metadata.get(stream_id.as_str()) {
                    Some(metadata) => {
                        let size = decimal(metadata.total_size);
                        let mut text = join("Stream ID: ", metadata.id.as_str());
                        text.append("\nCreated: ");
                        text.append(metadata.created_at.as_str());
                        text.append("\nTotal Size: ");
                        text.append(size.as_str());
                        text.append(" bytes");
                        text
                    },
                    None => {
                        let mut text = join("Selected stream: ", stream_id.as_str());
                        text.append("\nNo metadata available");
                        text
                    },
                }
            },
            None => "No stream selected".to_owned(),
        }
    }

    /// Lists the streams, the selected one standing out.
    pub fn label_streams(&self) -> (labels: Vec<Label>)
        ensures
            labels@.map_values(|label: Label| label@) == self@.stream_labels(),
    {
        let mut labels: Vec<Label> = Vec::new();
        let mut i: usize = 0;
        while i < self.streams.len()
            invariant
                i <= self.streams.len(),
                labels@.len() == i,
                forall|k: int|
                    #![trigger labels@[k]]
                    0 <= k < i ==> labels@[k]@ == self@.stream_labels()[k],
            decreases self.streams.len() - i,
        {
            let selected = match self.selected_stream {
                Some(index) => index == i,
                None => false,
            };
            let style = if selected {
                TextStyle { color: Some(Color::Yellow), bold: true }
            } else {
                TextStyle { color: None, bold: false }
            };
            labels.push(Label { text: self.streams[i].clone(), style });
            i += 1;
        }
        assert(labels@.map_values(|label: Label| label@) =~= self@.stream_labels());
        labels
    }

    /// Works out what the panels show.
    pub fn content(&self) -> (content: Content)
        requires
            self@.showable(),
        ensures
            content@ == self@.content(),
    {
        let input_title = match self.input_mode {
            InputMode::Normal => "Normal Mode",
            InputMode::Creating => "Create Stream",
            InputMode::Writing => "Write to Stream",
            InputMode::Reading => "Read from Stream",
        };
        let streams_title = if self.is_loading {
            "Streams (Loading...)"
        } else {
            "Streams"
        };
        let mut messages: Vec<String> = Vec::new();
        let mut i: usize = 0;
        while i < self.messages.len()
            invariant
                i <= self.messages.len(),
                messages@ == self.messages@.take(i as int),
            decreases self.messages.len() - i,
        {
            messages.push(self.messages[i].clone());
            i += 1;
            assert(messages@ =~= self.messages@.take(i as int));
        }
        assert(messages@ =~= self.messages@);
        Content {
            title: Label {
                text: "Binary Data Storage".to_owned(),
                style: TextStyle { color: Some(Color::Cyan), bold: false },
            },
            input_title: input_title.to_owned(),
            input: Label {
                text: self.input.clone(),
                style: TextStyle { color: Some(Color::Yellow), bold: false },
            },
            streams_title: streams_title.to_owned(),
            streams: self.label_streams(),
            details_title: "Details".to_owned(),
            details: self.describe_details(),
            messages_title: "Messages".to_owned(),
            messages,
        }
    }
}

/// Works out what a screen of the given size shows, and where.
pub fn ui(app: &App, size: Area) -> (screen: Screen)
    requires
        app@.showable(),
    ensures
        screen.panels.fit(size),
        screen.content@ == app@.content(),
{
    Screen { panels: panels(size), content: app.content() }
}

} // verus!
