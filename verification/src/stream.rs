//! The streaming emitter: hands the records of a search to the consumer one
//! by one, stops at the first hand-off that fails, and releases the outcome
//! event once, after the last hand-off.

use vstd::prelude::*;
use crate::record::{views, Entity};
use crate::search::{SearchEvent, SearchEventView};

verus! {

/// How many records the hand-off channel between the emitter and the
/// consumer holds: the emitter waits until the consumer has taken the record
/// that was offered last.
pub const HANDOFF_CAPACITY: usize = 1;

/// What the emitter asks for next.
#[derive(Debug, PartialEq, Eq)]
pub enum Step<E, P, Q> {
    /// Hand this record to the consumer and report what became of it.
    Offer(E),
    /// The stream has ended: submit the outcome event.
    Publish(SearchEvent<P, Q>),
    /// Nothing is left to do.
    Done,
}

/// The model of a [`Step`].
pub enum StepView<R, P, Q> {
    Offer(R),
    Publish(SearchEventView<P, Q>),
    Done,
}

impl<E: View, P: View, Q: View> View for Step<E, P, Q> {
    type V = StepView<E::V, P::V, Q::V>;

    open spec fn view(&self) -> StepView<E::V, P::V, Q::V> {
        match self {
            Step::Offer(record) => StepView::Offer(record@),
            Step::Publish(event) => StepView::Publish(event@),
            Step::Done => StepView::Done,
        }
    }
}

/// The state of an emission: the records of the search in the order in
/// which the store returned them, how many of them were offered, and the
/// outcome event as long as it was not released.
pub struct EmitterView<R, P, Q> {
    pub records: Seq<R>,
    pub cursor: nat,
    pub event: Option<SearchEventView<P, Q>>,
}

/// One step of an emission. While the consumer listens and records are left,
/// the next record is offered. Once the consumer has gone or no record is
/// left, the event is released; after that nothing happens any more.
pub open spec fn step_of<R, P, Q>(state: EmitterView<R, P, Q>, listening: bool) -> (
    EmitterView<R, P, Q>,
    StepView<R, P, Q>,
) {
    match state.event {
        None => (state, StepView::Done),
        Some(event) => if listening && state.cursor < state.records.len() {
            (
                EmitterView { cursor: state.cursor + 1, ..state },
                StepView::Offer(state.records[state.cursor as int]),
            )
        } else {
            (EmitterView { event: None, ..state }, StepView::Publish(event))
        },
    }
}

/// The producer side of a streamed search. The records were fetched in one
/// pass before the emitter was made: no step reaches for the store.
pub struct Emitter<E: Entity, Q> {
    records: Vec<E>,
    cursor: usize,
    event: Option<SearchEvent<E::Partial, Q>>,
}

/// The model of an outcome event that may have been released.
pub open spec fn held<P: View, Q: View>(event: Option<SearchEvent<P, Q>>) -> Option<
    SearchEventView<P::V, Q::V>,
> {
    match event {
        Some(event) => Some(event@),
        None => None,
    }
}

impl<E: Entity, Q: View> View for Emitter<E, Q> {
    type V = EmitterView<E::V, <E::Partial as View>::V, Q::V>;

    closed spec fn view(&self) -> EmitterView<E::V, <E::Partial as View>::V, Q::V> {
        EmitterView {
            records: views(self.records@),
            cursor: self.cursor as nat,
            event: held(self.event),
        }
    }
}

impl<E: Entity, Q: View> Emitter<E, Q> {
    /// An emitter that has offered nothing yet.
    pub fn new(records: Vec<E>, event: SearchEvent<E::Partial, Q>) -> (emitter: Self)
        ensures
            emitter@ == (EmitterView { records: views(records@), cursor: 0, event: Some(event@) }),
    {
        Emitter { records, cursor: 0, event: Some(event) }
    }

    /// Takes one step. `listening` tells whether the consumer took the record
    /// that was offered last; before the first offer it is `true`.
    pub fn advance(&mut self, listening: bool) -> (step: Step<E, E::Partial, Q>)
        ensures
            (final(self)@, step@) == step_of(old(self)@, listening),
    {
        if self.event.is_none() {
            Step::Done
        } else if listening && self.cursor < self.records.len() {
            let record = self.records[self.cursor].duplicate();
            self.cursor = self.cursor + 1;
            Step::Offer(record)
        } else {
            match self.event.take() {
                Some(event) => Step::Publish(event),
                None => Step::Done,
            }
        }
    }
}

} // verus!
