//! Laws of the course of a session.

use crate::session::{OrderView, OutcomeView, Phase, SessionView};
use crate::state::{EventView, InputMode, Key};
use crate::step_laws::{start_is_consistent, step_keeps_consistent};
use vstd::prelude::*;

verus! {

/// Whether a session takes an outcome: it is of what was ordered.
pub open spec fn takes<E>(phase: Phase, outcome: OutcomeView<E>) -> bool {
    match phase {
        Phase::Performing => outcome is Performed,
        Phase::Drawing => outcome is Drawn,
        Phase::Receiving => outcome is Received,
        Phase::Over => false,
    }
}

/// The event that an outcome brings.
pub open spec fn event_in<E>(outcome: OutcomeView<E>) -> Option<EventView> {
    match outcome {
        OutcomeView::Drawn(_) => None,
        OutcomeView::Received(event) => event,
        OutcomeView::Performed(event) => Some(event),
    }
}

impl SessionView {
    /// Whether the front end is consistent, and busy exactly while something is performed.
    pub open spec fn sound(self) -> bool {
        &&& self.app.consistent()
        &&& match self.phase {
            Phase::Performing => !(self.app.task is Idle),
            _ => self.app.task is Idle,
        }
    }

    /// The session after a sequence of outcomes.
    pub open spec fn run<E>(self, outcomes: Seq<OutcomeView<E>>) -> SessionView
        decreases outcomes.len(),
    {
        if outcomes.len() == 0 {
            self
        } else {
            self.run(outcomes.drop_last()).step(outcomes.last()).0
        }
    }

    /// The events that were handled during a sequence of outcomes, in order.
    pub open spec fn handled<E>(self, outcomes: Seq<OutcomeView<E>>) -> Seq<EventView>
        decreases outcomes.len(),
    {
        if outcomes.len() == 0 {
            Seq::empty()
        } else {
            let before = self.handled(outcomes.drop_last());
            match event_in(outcomes.last()) {
                Some(event) if takes(
                    self.run(outcomes.drop_last()).phase,
                    outcomes.last(),
                ) => before.push(event),
                _ => before,
            }
        }
    }

    /// How often the screen was drawn during a sequence of outcomes.
    pub open spec fn draws<E>(self, outcomes: Seq<OutcomeView<E>>) -> nat
        decreases outcomes.len(),
    {
        if outcomes.len() == 0 {
            0
        } else {
            let taken = takes(self.run(outcomes.drop_last()).phase, outcomes.last());
            let drawn = outcomes.last() matches OutcomeView::Drawn(Ok(_));
            self.draws(outcomes.drop_last()) + if taken && drawn {
                1nat
            } else {
                0
            }
        }
    }

    /// How often a terminal event was looked for during a sequence of outcomes.
    pub open spec fn receives<E>(self, outcomes: Seq<OutcomeView<E>>) -> nat
        decreases outcomes.len(),
    {
        if outcomes.len() == 0 {
            0
        } else {
            let taken = takes(self.run(outcomes.drop_last()).phase, outcomes.last());
            self.receives(outcomes.drop_last()) + if taken && outcomes.last() is Received {
                1nat
            } else {
                0
            }
        }
    }
}

/// Law: every outcome keeps a sound session sound.
pub proof fn session_stays_sound<E>(session: SessionView, outcome: OutcomeView<E>)
    requires
        session.sound(),
    ensures
        session.step(outcome).0.sound(),
{
    if let Some(event) = event_in(outcome) {
        step_keeps_consistent(session.app, event);
    }
}

/// Law: a session is sound after any sequence of outcomes.
pub proof fn session_is_always_sound<E>(outcomes: Seq<OutcomeView<E>>)
    ensures
        SessionView::initial().run(outcomes).sound(),
    decreases outcomes.len(),
{
    if outcomes.len() == 0 {
        start_is_consistent();
    } else {
        session_is_always_sound(outcomes.drop_last());
        session_stays_sound(
            SessionView::initial().run(outcomes.drop_last()),
            outcomes.last(),
        );
    }
}

/// Law: a session ends well exactly when the key `q` is received in normal mode.
pub proof fn session_ends_well_on_q<E>(session: SessionView, outcome: OutcomeView<E>)
    requires
        session.sound(),
    ensures
        session.step(outcome).1 == OrderView::<E>::Return(Ok(())) <==> {
            &&& session.phase == Phase::Receiving
            &&& session.app.mode == InputMode::Normal
            &&& outcome == OutcomeView::<E>::Received(Some(EventView::Key(Key::Char('q'))))
        },
{
}

/// Law: a session ends in an error exactly when the screen could not be drawn, and the
/// error is the one of the drawing.
pub proof fn session_ends_with_the_error_of_a_draw<E>(
    session: SessionView,
    outcome: OutcomeView<E>,
    error: E,
)
    ensures
        session.step(outcome).1 == OrderView::<E>::Return(Err(error)) <==> session.phase
            == Phase::Drawing && outcome == OutcomeView::<E>::Drawn(Err(error)),
{
}

/// Law: a session is over exactly when it has ended with a result; then nothing is ordered
/// any more and nothing changes.
pub proof fn ended_session_stays_ended<E>(session: SessionView, outcome: OutcomeView<E>)
    ensures
        session.step(outcome).0.phase == Phase::Over <==> session.phase == Phase::Over
            || session.step(outcome).1 is Return,
        session.phase == Phase::Over ==> session.step(outcome) == (
            session,
            OrderView::<E>::Nothing,
        ),
{
}

/// Law: what is ordered next is what the session waits for, only actions that there is
/// something to do for are ordered, and an outcome of anything else changes nothing.
pub proof fn orders_match_phases<E>(session: SessionView, outcome: OutcomeView<E>)
    ensures
        match session.step(outcome).1 {
            OrderView::Perform(action) => session.step(outcome).0.phase == Phase::Performing
                && !(action is Wait) && !(action is Quit),
            OrderView::Draw => session.step(outcome).0.phase == Phase::Drawing,
            OrderView::Receive => session.step(outcome).0.phase == Phase::Receiving,
            OrderView::Return(_) => session.step(outcome).0.phase == Phase::Over,
            OrderView::Nothing => session.step(outcome).0.phase == session.phase,
        },
        !takes(session.phase, outcome) ==> session.step(outcome) == (
            session,
            OrderView::<E>::Nothing,
        ),
{
}

/// Law: where no terminal event has come in, or none can come any more, the screen is drawn
/// again and nothing else changes.
pub proof fn empty_channel_leads_to_a_draw<E>(session: SessionView)
    requires
        session.phase == Phase::Receiving,
    ensures
        session.step(OutcomeView::<E>::Received(None)) == (
            session.in_phase(Phase::Drawing),
            OrderView::<E>::Draw,
        ),
{
}

/// Law: the screen is drawn before every look for a terminal event, and between two draws
/// there is exactly one such look.
pub proof fn one_event_per_draw<E>(outcomes: Seq<OutcomeView<E>>)
    ensures
        ({
            let start = SessionView::initial();
            if start.run(outcomes).phase == Phase::Receiving {
                start.draws(outcomes) == start.receives(outcomes) + 1
            } else {
                start.draws(outcomes) == start.receives(outcomes)
            }
        }),
    decreases outcomes.len(),
{
    session_is_always_sound(outcomes);
    if outcomes.len() > 0 {
        one_event_per_draw(outcomes.drop_last());
        session_is_always_sound(outcomes.drop_last());
    }
}

/// Law: the events are handled one after the other in the order in which they came, and
/// nothing else changes the state of the front end.
pub proof fn events_are_handled_in_order<E>(session: SessionView, outcomes: Seq<OutcomeView<E>>)
    ensures
        session.run(outcomes).app == session.app.run(session.handled(outcomes)),
    decreases outcomes.len(),
{
    if outcomes.len() > 0 {
        events_are_handled_in_order(session, outcomes.drop_last());
        let before = session.handled(outcomes.drop_last());
        if let Some(event) = event_in(outcomes.last()) {
            assert(before.push(event).drop_last() =~= before);
        }
    }
}

} // verus!
