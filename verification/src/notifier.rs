//! The event notifier: submits an outcome event to the event bus at most
//! once, never again after a failure, and tells the caller nothing.

use vstd::prelude::*;

verus! {

/// What became of the one attempt to publish an event. `Failed` stands for
/// every failure: the bus was unreachable, it refused the event, or the task
/// that published it died.
#[derive(Clone, Copy, Debug, PartialEq, Eq, Structural)]
pub enum Delivery {
    Delivered,
    Failed,
}

/// Where an event stands on its way to the event bus.
pub enum Phase<V> {
    /// The event waits to be handed to the publishing task.
    Queued(V),
    /// The event was handed out and the attempt has not ended.
    InFlight,
    /// The event bus took the event.
    Delivered,
    /// The attempt failed and the event is gone.
    Dropped,
}

/// Handing the event out: only an event that waits is handed out, and from
/// then on it is in flight.
pub open spec fn dispatched<V>(phase: Phase<V>) -> (Phase<V>, Option<V>) {
    match phase {
        Phase::Queued(event) => (Phase::InFlight, Some(event)),
        _ => (phase, None),
    }
}

/// The end of the attempt: an event in flight is delivered or dropped, and
/// no other phase changes.
pub open spec fn settled<V>(phase: Phase<V>, outcome: Delivery) -> Phase<V> {
    match phase {
        Phase::InFlight => match outcome {
            Delivery::Delivered => Phase::Delivered,
            Delivery::Failed => Phase::Dropped,
        },
        _ => phase,
    }
}

/// One outcome event on its way to the event bus. It is made when the store
/// operation of a call has resolved, and it lives in a task of its own: the
/// response to the caller does not wait for it.
pub struct Notifier<T> {
    waiting: Option<T>,
    outcome: Option<Delivery>,
}

impl<T: View> View for Notifier<T> {
    type V = Phase<T::V>;

    closed spec fn view(&self) -> Phase<T::V> {
        match self.waiting {
            Some(event) => Phase::Queued(event@),
            None => match self.outcome {
                None => Phase::InFlight,
                Some(Delivery::Delivered) => Phase::Delivered,
                Some(Delivery::Failed) => Phase::Dropped,
            },
        }
    }
}

impl<T: View> Notifier<T> {
    /// Queues an event.
    pub fn submit(event: T) -> (notifier: Self)
        ensures
            notifier@ == Phase::Queued(event@),
    {
        Notifier { waiting: Some(event), outcome: None }
    }

    /// Hands the event to the publishing task. The event is handed out once;
    /// every later call returns `None`.
    pub fn dispatch(&mut self) -> (event: Option<T>)
        ensures
            final(self)@ == dispatched(old(self)@).0,
            match event {
                Some(event) => dispatched(old(self)@).1 == Some(event@),
                None => dispatched(old(self)@).1 is None,
            },
    {
        let event = self.waiting.take();
        if event.is_some() {
            self.outcome = None;
        }
        event
    }

    /// Records how the attempt ended. A failure is absorbed: the event is
    /// dropped and is never handed out again.
    pub fn settle(&mut self, outcome: Delivery)
        ensures
            final(self)@ == settled(old(self)@, outcome),
    {
        if self.waiting.is_none() && self.outcome.is_none() {
            self.outcome = Some(outcome);
        }
    }

    /// Whether the attempt has ended, one way or the other.
    pub fn is_settled(&self) -> (done: bool)
        ensures
            done == (self@ is Delivered || self@ is Dropped),
    {
        self.waiting.is_none() && self.outcome.is_some()
    }
}

} // verus!
