//! The course of a session: the screen is drawn, a terminal event is taken if there is one,
//! and what it asks for is done before the screen is drawn again.

use crate::state::{Action, ActionView, App, AppView, Event, EventView, Task};
use vstd::prelude::*;

verus! {

/// What a session is waiting for.
#[derive(Clone, Copy, Debug, PartialEq, Eq, Structural)]
pub enum Phase {
    Performing,
    Drawing,
    Receiving,
    Over,
}

/// The outcome of an order.
pub enum Outcome<E> {
    /// The screen was drawn, or could not be.
    Drawn(Result<(), E>),
    /// The next terminal event, if one had come in.
    Received(Option<Event>),
    /// What came of an action.
    Performed(Event),
}

/// What is to be done next.
pub enum Order<E> {
    /// Perform an action.
    Perform(Action),
    /// Draw the screen.
    Draw,
    /// Take the next terminal event, if one has come in.
    Receive,
    /// End the session with a result.
    Return(Result<(), E>),
    /// Nothing: the outcome was not of what was ordered.
    Nothing,
}

/// A session: the state of the front end and what the session is waiting for.
pub struct Session {
    pub app: App,
    pub phase: Phase,
}

/// The model of an [`Outcome`].
pub enum OutcomeView<E> {
    Drawn(Result<(), E>),
    Received(Option<EventView>),
    Performed(EventView),
}

/// The model of an [`Order`].
pub enum OrderView<E> {
    Perform(ActionView),
    Draw,
    Receive,
    Return(Result<(), E>),
    Nothing,
}

/// The model of a [`Session`].
#[verifier::ext_equal]
pub struct SessionView {
    pub app: AppView,
    pub phase: Phase,
}

impl<E> View for Outcome<E> {
    type V = OutcomeView<E>;

    open spec fn view(&self) -> OutcomeView<E> {
        match *self {
            Outcome::Drawn(result) => OutcomeView::Drawn(result),
            Outcome::Received(None) => OutcomeView::Received(None),
            Outcome::Received(Some(event)) => OutcomeView::Received(Some(event@)),
            Outcome::Performed(event) => OutcomeView::Performed(event@),
        }
    }
}

impl<E> View for Order<E> {
    type V = OrderView<E>;

    open spec fn view(&self) -> OrderView<E> {
        match *self {
            Order::Perform(action) => OrderView::Perform(action@),
            Order::Draw => OrderView::Draw,
            Order::Receive => OrderView::Receive,
            Order::Return(result) => OrderView::Return(result),
            Order::Nothing => OrderView::Nothing,
        }
    }
}

impl View for Session {
    type V = SessionView;

    open spec fn view(&self) -> SessionView {
        SessionView { app: self.app@, phase: self.phase }
    }
}

impl SessionView {
    /// The session at its start, when the streams are to be listed.
    pub open spec fn initial() -> SessionView {
        SessionView { app: AppView::initial(), phase: Phase::Performing }
    }

    /// The session in another phase.
    pub open spec fn in_phase(self, phase: Phase) -> SessionView {
        SessionView { phase, ..self }
    }

    /// What follows when an event has been taken: the action is performed, and when there
    /// is none and nothing is under way the screen is drawn.
    pub open spec fn following<E>(self, taken: (AppView, ActionView)) -> (
        SessionView,
        OrderView<E>,
    ) {
        let next = SessionView { app: taken.0, ..self };
        match taken.1 {
            ActionView::Quit => (next.in_phase(Phase::Over), OrderView::Return(Ok(()))),
            ActionView::Wait => if taken.0.task is Idle {
                (next.in_phase(Phase::Drawing), OrderView::Draw)
            } else {
                (next, OrderView::Nothing)
            },
            action => (next.in_phase(Phase::Performing), OrderView::Perform(action)),
        }
    }

    /// What an outcome leads to. An outcome of what was not ordered does nothing.
    pub open spec fn step<E>(self, outcome: OutcomeView<E>) -> (SessionView, OrderView<E>) {
        match (self.phase, outcome) {
            (Phase::Drawing, OutcomeView::Drawn(Ok(()))) => (
                self.in_phase(Phase::Receiving),
                OrderView::Receive,
            ),
            (Phase::Drawing, OutcomeView::Drawn(Err(error))) => (
                self.in_phase(Phase::Over),
                OrderView::Return(Err(error)),
            ),
            (Phase::Receiving, OutcomeView::Received(None)) => (
                self.in_phase(Phase::Drawing),
                OrderView::Draw,
            ),
            (Phase::Receiving, OutcomeView::Received(Some(event))) => self.following(
                self.app.step(event),
            ),
            (Phase::Performing, OutcomeView::Performed(event)) => self.following(
                self.app.step(event),
            ),
            _ => (self, OrderView::Nothing),
        }
    }

    /// Whether the bytes of an upload can be counted in 64 bits after the outcome.
    pub open spec fn countable<E>(self, outcome: OutcomeView<E>) -> bool {
        match outcome {
            OutcomeView::Received(Some(event)) | OutcomeView::Performed(event) =>
                self.app.countable(event),
            _ => true,
        }
    }
}

impl Session {
    /// Starts a session.
    pub fn new<E>() -> (start: (Session, Order<E>))
        ensures
            start.0@ == SessionView::initial(),
            start.1@ == OrderView::<E>::Perform(ActionView::ListStreams),
    {
        let (app, action) = App::new();
        (Session { app, phase: Phase::Performing }, Order::Perform(action))
    }

    /// Goes on to what an action asks for.
    fn follow<E>(&mut self, action: Action) -> (order: Order<E>)
        ensures
            (final(self)@, order@) == old(self)@.following::<E>((old(self)@.app, action@)),
    {
        match action {
            Action::Quit => {
                self.phase = Phase::Over;
                Order::Return(Ok(()))
            },
            Action::Wait => match self.app.task {
                Task::Idle => {
                    self.phase = Phase::Drawing;
                    Order::Draw
                },
                _ => Order::Nothing,
            },
            action => {
                self.phase = Phase::Performing;
                Order::Perform(action)
            },
        }
    }

    /// Takes the outcome of the last order and gives the next.
    pub fn step<E>(&mut self, outcome: Outcome<E>) -> (order: Order<E>)
        requires
            old(self)@.app.wf(),
            old(self)@.countable(outcome@),
        ensures
            (final(self)@, order@) == old(self)@.step(outcome@),
            final(self)@.app.wf(),
    {
        match (self.phase, outcome) {
            (Phase::Drawing, Outcome::Drawn(Ok(()))) => {
                self.phase = Phase::Receiving;
                Order::Receive
            },
            (Phase::Drawing, Outcome::Drawn(Err(error))) => {
                self.phase = Phase::Over;
                Order::Return(Err(error))
            },
            (Phase::Receiving, Outcome::Received(None)) => {
                self.phase = Phase::Drawing;
                Order::Draw
            },
            (Phase::Receiving, Outcome::Received(Some(event))) => {
                let action = self.app.step(event);
                self.follow(action)
            },
            (Phase::Performing, Outcome::Performed(event)) => {
                let action = self.app.step(event);
                self.follow(action)
            },
            _ => Order::Nothing,
        }
    }
}

} // verus!
