use bindata_cli::listing::DirEntry;
use bindata_cli::session::{Order, Outcome, Phase, Session};
use bindata_cli::state::{Action, Event, InputMode, Key};

fn key(key: Key) -> Outcome<String> {
    Outcome::Received(Some(Event::Key(key)))
}

fn drawn() -> Outcome<String> {
    Outcome::Drawn(Ok(()))
}

fn entry(id: &str) -> DirEntry {
    let meta = format!("{{\"id\": \"{}\"}}", id);
    DirEntry { is_dir: true, has_text_name: true, meta: Some(meta) }
}

fn drawing() -> Session {
    let (mut session, order): (Session, Order<String>) = Session::new();
    assert!(matches!(order, Order::Perform(Action::ListStreams)));
    assert_eq!(session.phase, Phase::Performing);
    let listed: Outcome<String> = Outcome::Performed(Event::StreamsListed(vec![entry("logs")]));
    assert!(matches!(session.step(listed), Order::Draw));
    session
}

fn receiving() -> Session {
    let mut session = drawing();
    assert!(matches!(session.step(drawn()), Order::Receive));
    session
}

#[test]
fn a_session_lists_the_streams_then_draws() {
    let session = drawing();
    assert_eq!(session.phase, Phase::Drawing);
    assert_eq!(session.app.streams, vec!["logs"]);
}

#[test]
fn q_ends_a_session_well() {
    let mut session = receiving();
    assert!(matches!(session.step(key(Key::Char('q'))), Order::Return(Ok(()))));
    assert_eq!(session.phase, Phase::Over);
    assert!(matches!(session.step(drawn()), Order::Nothing));
    assert!(matches!(session.step(key(Key::Down)), Order::Nothing));
    assert_eq!(session.phase, Phase::Over);
    assert_eq!(session.app.selected_stream, None);
}

#[test]
fn q_is_typed_outside_normal_mode() {
    let mut session = receiving();
    assert!(matches!(session.step(key(Key::Char('c'))), Order::Draw));
    assert!(matches!(session.step(drawn()), Order::Receive));
    assert!(matches!(session.step(key(Key::Char('q'))), Order::Draw));
    assert_eq!(session.app.input, "q");
    assert_eq!(session.app.input_mode, InputMode::Creating);
}

#[test]
fn a_failed_draw_ends_a_session_with_its_error() {
    let mut session = drawing();
    match session.step(Outcome::Drawn(Err("no terminal".to_string()))) {
        Order::Return(Err(error)) => assert_eq!(error, "no terminal"),
        _ => panic!("the error of the draw was expected"),
    }
    assert!(matches!(session.step(key(Key::Char('c'))), Order::Nothing));
    assert_eq!(session.app.input_mode, InputMode::Normal);
}

#[test]
fn without_an_event_the_screen_is_drawn_again() {
    let mut session = receiving();
    for _ in 0..3 {
        let none: Outcome<String> = Outcome::Received(None);
        assert!(matches!(session.step(none), Order::Draw));
        assert!(matches!(session.step(drawn()), Order::Receive));
    }
    let other: Outcome<String> = Outcome::Received(Some(Event::Other));
    assert!(matches!(session.step(other), Order::Draw));
}

#[test]
fn one_event_is_taken_for_each_draw() {
    let mut session = receiving();
    assert!(matches!(session.step(key(Key::Down)), Order::Draw));
    assert_eq!(session.app.selected_stream, Some(0));
    assert!(matches!(session.step(key(Key::Char('q'))), Order::Nothing));
    assert_eq!(session.phase, Phase::Drawing);
    assert!(matches!(session.step(drawn()), Order::Receive));
    assert!(matches!(session.step(drawn()), Order::Nothing));
    assert!(matches!(session.step(key(Key::Char('q'))), Order::Return(Ok(()))));
}

#[test]
fn actions_are_performed_before_the_next_draw() {
    let mut session = receiving();
    session.step(key(Key::Char('c')));
    session.step(drawn());
    session.step(key(Key::Char('n')));
    session.step(drawn());
    match session.step(key(Key::Enter)) {
        Order::Perform(Action::CreateStream { stream_id }) => assert_eq!(stream_id, "n"),
        _ => panic!("the creation of a stream was expected"),
    }
    assert!(matches!(session.step(drawn()), Order::Nothing));
    let stray: Outcome<String> = Outcome::Performed(Event::ChunkStored(Ok(0)));
    assert!(matches!(session.step(stray), Order::Nothing));
    assert_eq!(session.phase, Phase::Performing);
    let created: Outcome<String> = Outcome::Performed(Event::StreamCreated(Ok(())));
    assert!(matches!(session.step(created), Order::Perform(Action::ListStreams)));
    let listed: Outcome<String> =
        Outcome::Performed(Event::StreamsListed(vec![entry("n"), entry("logs")]));
    assert!(matches!(session.step(listed), Order::Draw));
    assert_eq!(session.app.streams, vec!["logs", "n"]);
    assert_eq!(session.app.messages, vec!["Created stream: n"]);
}
