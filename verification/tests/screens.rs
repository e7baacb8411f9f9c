use bindata_cli::layout::{column_shares, panels, row_shares, Area, Share};
use bindata_cli::listing::DirEntry;
use bindata_cli::screen::{describe_progress, ui, Color, TextStyle};
use bindata_cli::state::{App, Event, InputMode, Key};

fn listed() -> App {
    let (mut app, _) = App::new();
    let meta = "{\"id\": \"logs\", \"created_at\": \"today\", \"total_size\": 12}";
    app.step(Event::StreamsListed(vec![
        DirEntry { is_dir: true, has_text_name: true, meta: Some(meta.to_string()) },
        DirEntry {
            is_dir: true,
            has_text_name: true,
            meta: Some("{\"id\": \"mail\"}".to_string()),
        },
    ]));
    app
}

const SCREEN: Area = Area { x: 0, y: 0, width: 104, height: 40 };

#[test]
fn panels_share_the_screen() {
    let panels = panels(SCREEN);
    assert_eq!(panels.title, Area { x: 2, y: 2, width: 100, height: 3 });
    assert_eq!(panels.input, Area { x: 2, y: 5, width: 100, height: 3 });
    assert_eq!(panels.content, Area { x: 2, y: 8, width: 100, height: 25 });
    assert_eq!(panels.streams, Area { x: 2, y: 8, width: 30, height: 25 });
    assert_eq!(panels.details, Area { x: 32, y: 8, width: 70, height: 25 });
    assert_eq!(panels.messages, Area { x: 2, y: 33, width: 100, height: 5 });
}

#[test]
fn panels_fit_screens_of_any_size() {
    for width in [0u16, 1, 3, 4, 5, 10, 80, 233, 65535] {
        for height in [0u16, 1, 3, 4, 5, 12, 24, 25, 100, 65535] {
            for origin in [0u16, 7, 65530] {
                let screen = Area { x: origin, y: origin, width, height };
                let fits = width >= 4 && height >= 4;
                let x = if fits { origin.saturating_add(2) } else { 0 };
                let y = if fits { origin.saturating_add(2) } else { 0 };
                let inner_width = if fits { width - 4 } else { 0 };
                let inner_height = if fits { height - 4 } else { 0 };
                let bottom = y.saturating_add(inner_height) as u32;
                let p = panels(screen);
                let mut row = y as u32;
                for part in [p.title, p.input, p.content, p.messages] {
                    assert_eq!(part.x, x);
                    assert_eq!(part.width, inner_width);
                    assert!(row <= part.y as u32);
                    row = part.y as u32 + part.height as u32;
                    assert!(row <= bottom);
                }
                let right = p.content.x.saturating_add(p.content.width) as u32;
                let mut column = p.content.x as u32;
                for part in [p.streams, p.details] {
                    assert_eq!(part.y, p.content.y);
                    assert_eq!(part.height, p.content.height);
                    assert!(column <= part.x as u32);
                    column = part.x as u32 + part.width as u32;
                    assert!(column <= right);
                }
            }
        }
    }
}

#[test]
fn panels_have_their_sizes_where_there_is_room() {
    for (x, y) in [(0u16, 0u16), (7, 3), (65500, 65500)] {
        for width in [4u16, 5, 6, 7, 8, 9, 11, 14, 19, 24, 80, 81, 83, 133, 1003, 65535] {
            for height in [25u16, 26, 27, 30, 36, 50, 99, 1000, 65535] {
                let p = panels(Area { x, y, width, height });
                let left = x.saturating_add(2) as u32;
                let right = (x.saturating_add(2)).saturating_add(width - 4) as u32;
                let top = y.saturating_add(2) as u32;
                let bottom = (y.saturating_add(2)).saturating_add(height - 4) as u32;
                let streams_width = (3 * (right - left) + 5) / 10;
                assert_eq!(p.streams.x as u32, left);
                assert_eq!(p.streams.width as u32, streams_width);
                assert_eq!(p.details.x as u32, left + streams_width);
                assert_eq!(p.details.width as u32, right - left - streams_width);
                if bottom - top < 21 {
                    continue;
                }
                assert_eq!((p.title.y as u32, p.title.height), (top, 3));
                assert_eq!((p.input.y as u32, p.input.height), (top + 3, 3));
                let content_height = bottom - top - 11;
                assert_eq!((p.content.y as u32, p.content.height as u32), (top + 6, content_height));
                assert_eq!((p.messages.y as u32, p.messages.height), (bottom - 5, 5));
            }
        }
    }
}

#[test]
fn low_screens_keep_the_content_then_the_messages() {
    let heights = [
        (0, 0, 0, 0),
        (0, 0, 1, 0),
        (0, 0, 2, 0),
        (0, 0, 3, 0),
        (0, 0, 4, 0),
        (0, 0, 5, 0),
        (0, 0, 6, 0),
        (0, 0, 7, 0),
        (0, 0, 8, 0),
        (0, 0, 9, 0),
        (0, 0, 10, 0),
        (0, 0, 10, 1),
        (0, 0, 10, 2),
        (0, 0, 10, 3),
        (0, 0, 10, 4),
        (0, 0, 10, 5),
        (1, 0, 10, 5),
        (1, 1, 10, 5),
        (2, 1, 10, 5),
        (2, 2, 10, 5),
        (3, 2, 10, 5),
        (3, 3, 10, 5),
        (3, 3, 11, 5),
    ];
    for (room, (title, input, content, messages)) in heights.into_iter().enumerate() {
        for y in [0u16, 1, 7, 500, 32766, 65000] {
            let p = panels(Area { x: 3, y, width: 80, height: room as u16 + 4 });
            assert_eq!(p.title.y, y + 2);
            assert_eq!(p.title.height, title);
            assert_eq!(p.input.y, p.title.y + title);
            assert_eq!(p.input.height, input);
            assert_eq!(p.content.y, p.input.y + input);
            assert_eq!(p.content.height, content);
            assert_eq!(p.messages.y, p.content.y + content);
            assert_eq!(p.messages.height, messages);
        }
    }
}

#[test]
fn three_tenths_are_rounded_to_the_nearest_cell() {
    for (inner, streams) in [(0u16, 0u16), (1, 0), (2, 1), (3, 1), (4, 1), (5, 2), (15, 5), (25, 8)] {
        let p = panels(Area { x: 0, y: 0, width: inner + 4, height: 30 });
        assert_eq!(p.streams.width, streams);
        assert_eq!(p.details.width, inner - streams);
    }
}

#[test]
fn every_cell_inside_the_margin_belongs_to_one_panel() {
    for (width, height) in [(30u16, 25u16), (41, 33), (80, 24), (80, 21), (33, 18), (9, 8)] {
        let p = panels(Area { x: 1, y: 2, width, height });
        let drawn = [p.title, p.input, p.streams, p.details, p.messages];
        for column in 3..width - 1 {
            for row in 4..height {
                let owners = drawn
                    .iter()
                    .filter(|a| a.x <= column && column < a.x + a.width)
                    .filter(|a| a.y <= row && row < a.y + a.height)
                    .count();
                assert_eq!(owners, 1);
            }
        }
    }
}

#[test]
fn shares_are_as_designed() {
    assert_eq!(
        row_shares(),
        vec![Share::Length(3), Share::Length(3), Share::Min(10), Share::Length(5)]
    );
    assert_eq!(column_shares(), vec![Share::Percentage(30), Share::Percentage(70)]);
}

#[test]
fn titles_follow_the_state() {
    let (app, _) = App::new();
    let content = ui(&app, SCREEN).content;
    assert_eq!(content.title.text, "Binary Data Storage");
    assert_eq!(content.title.style, TextStyle { color: Some(Color::Cyan), bold: false });
    assert_eq!(content.input_title, "Normal Mode");
    assert_eq!(content.input.style, TextStyle { color: Some(Color::Yellow), bold: false });
    assert_eq!(content.streams_title, "Streams (Loading...)");
    assert_eq!(content.details_title, "Details");
    assert_eq!(content.messages_title, "Messages");
    let mut app = listed();
    assert_eq!(app.content().streams_title, "Streams");
    app.input_mode = InputMode::Creating;
    app.input = "abc".to_string();
    assert_eq!(app.content().input_title, "Create Stream");
    assert_eq!(app.content().input.text, "abc");
    app.input_mode = InputMode::Writing;
    assert_eq!(app.content().input_title, "Write to Stream");
    app.input_mode = InputMode::Reading;
    assert_eq!(app.content().input_title, "Read from Stream");
}

#[test]
fn the_selected_stream_stands_out() {
    let mut app = listed();
    app.step(Event::Key(Key::Down));
    app.step(Event::Key(Key::Down));
    let labels = app.label_streams();
    assert_eq!(labels[0].text, "logs");
    assert_eq!(labels[0].style, TextStyle { color: None, bold: false });
    assert_eq!(labels[1].text, "mail");
    assert_eq!(labels[1].style, TextStyle { color: Some(Color::Yellow), bold: true });
}

#[test]
fn details_show_the_selected_stream() {
    let mut app = listed();
    assert_eq!(app.describe_details(), "No stream selected");
    app.step(Event::Key(Key::Down));
    assert_eq!(app.describe_details(), "Stream ID: logs\nCreated: today\nTotal Size: 12 bytes");
    app.streams[0] = "lost".to_string();
    assert_eq!(app.describe_details(), "Selected stream: lost\nNo metadata available");
}

#[test]
fn details_show_the_upload_first() {
    let mut app = listed();
    app.step(Event::Key(Key::Down));
    app.upload_progress = Some(("/f".to_string(), 1, 4));
    assert_eq!(app.describe_details(), "Uploading: /f\n[============] 25%");
    assert_eq!(ui(&app, SCREEN).content.details, "Uploading: /f\n[============] 25%");
}

#[test]
fn an_upload_is_shown_whatever_is_selected() {
    let mut app = listed();
    app.selected_stream = Some(9);
    app.upload_progress = Some(("/f".to_string(), 3, 4));
    let bar = "=".repeat(37);
    assert_eq!(app.describe_details(), format!("Uploading: /f\n[{}] 75%", bar));
    let content = ui(&app, SCREEN).content;
    assert_eq!(content.details, format!("Uploading: /f\n[{}] 75%", bar));
    assert!(content.streams.iter().all(|label| !label.style.bold));
}

#[test]
fn the_bar_grows_until_all_is_through() {
    let mut last = 0;
    for current in 0..20u64 {
        let text = describe_progress("f", current, 13);
        let marks = text.chars().filter(|c| *c == '=').count();
        assert!(last <= marks);
        assert_eq!(marks == 50, current >= 13);
        last = marks;
    }
}

#[test]
fn progress_is_drawn_as_a_bar() {
    assert_eq!(describe_progress("f", 0, 10), "Uploading: f\n[] 0%");
    assert_eq!(describe_progress("f", 1, 100), "Uploading: f\n[] 1%");
    assert_eq!(describe_progress("f", 1, 3), "Uploading: f\n[================] 33%");
    let full = "=".repeat(50);
    assert_eq!(describe_progress("f", 3, 3), format!("Uploading: f\n[{}] 100%", full));
    assert_eq!(describe_progress("f", 9, 3), format!("Uploading: f\n[{}] 300%", full));
}

#[test]
fn messages_are_shown_in_order() {
    let mut app = listed();
    app.messages = vec!["one".to_string(), "two".to_string()];
    assert_eq!(app.content().messages, vec!["one", "two"]);
}
