//! Outcome events and replies: what a call hands to the event bus and to its
//! caller.

use vstd::prelude::*;
use crate::record::{views, Entity};
use crate::status::{
    descriptor, unavailable_status, Code, ErrorDescriptor, ErrorDescriptorView, Status, StatusView,
};
use crate::store::{missing_row_text, StoreError, StoreErrorView, StoreFault};

verus! {

/// The outcome event of a unary call: the state of the entity as far as it
/// is known, and the error descriptor of a call that failed.
#[derive(Debug, PartialEq, Eq)]
pub struct Event<P> {
    pub entity: P,
    pub error: Option<ErrorDescriptor>,
}

/// The model of an [`Event`].
pub struct EventView<P> {
    pub entity: P,
    pub error: Option<ErrorDescriptorView>,
}

/// The model of an optional error descriptor.
pub open spec fn error_view(error: Option<ErrorDescriptor>) -> Option<ErrorDescriptorView> {
    match error {
        Some(e) => Some(e@),
        None => None,
    }
}

impl<P: View> View for Event<P> {
    type V = EventView<P::V>;

    open spec fn view(&self) -> EventView<P::V> {
        EventView { entity: self.entity@, error: error_view(self.error) }
    }
}

/// What a unary call ends with: the response for the caller and the outcome
/// event for the event bus. Neither depends on what becomes of the other.
#[derive(Debug, PartialEq, Eq)]
pub struct Reply<T, P> {
    pub response: Result<T, Status>,
    pub event: Event<P>,
}

/// The model of a [`Reply`].
pub struct ReplyView<T, P> {
    pub response: Result<T, StatusView>,
    pub event: EventView<P>,
}

/// The model of a response.
pub open spec fn response_view<T: View>(response: Result<T, Status>) -> Result<T::V, StatusView> {
    match response {
        Ok(record) => Ok(record@),
        Err(status) => Err(status@),
    }
}

impl<T: View, P: View> View for Reply<T, P> {
    type V = ReplyView<T::V, P::V>;

    open spec fn view(&self) -> ReplyView<T::V, P::V> {
        ReplyView { response: response_view(self.response), event: self.event@ }
    }
}

/// The model of the rows that a store operation returned, or of its failure.
pub open spec fn rows_view<E: View>(outcome: Result<Vec<E>, StoreError>) -> Result<
    Seq<E::V>,
    StoreErrorView,
> {
    match outcome {
        Ok(rows) => Ok(views(rows@)),
        Err(error) => Err(error@),
    }
}

/// The model of the one row that a store operation returned, or of its
/// failure.
pub open spec fn row_view<E: View>(outcome: Result<E, StoreError>) -> Result<E::V, StoreErrorView> {
    match outcome {
        Ok(row) => Ok(row@),
        Err(error) => Err(error@),
    }
}

/// The reply to a call that succeeded with `row`.
pub open spec fn success<E: Entity>(row: E::V) -> ReplyView<E::V, <E::Partial as View>::V> {
    ReplyView { response: Ok(row), event: EventView { entity: E::whole(row), error: None } }
}

/// The reply to a call that failed with `status`; the event holds what was
/// known of the entity and describes the failure with `message`.
pub open spec fn failure<E: Entity>(
    known: <E::Partial as View>::V,
    status: StatusView,
    message: Seq<char>,
) -> ReplyView<E::V, <E::Partial as View>::V> {
    ReplyView {
        response: Err(status),
        event: EventView { entity: known, error: Some(descriptor(status.code, message)) },
    }
}

/// The status that tells a caller that no such record exists.
pub open spec fn missing_status<E: Entity>() -> StatusView {
    StatusView { code: Code::NotFound, message: E::missing_text() }
}

/// The status that a store failure maps to: a missing row is not-found,
/// and any other failure is unavailable.
pub open spec fn status_of<E: Entity>(fault: StoreFault) -> StatusView {
    match fault {
        StoreFault::NotFound => missing_status::<E>(),
        StoreFault::Other => unavailable_status(),
    }
}

/// The reply to a call whose store operation failed with `error`. The event
/// describes the failure with the store's own words.
pub open spec fn store_failure<E: Entity>(
    known: <E::Partial as View>::V,
    error: StoreErrorView,
) -> ReplyView<E::V, <E::Partial as View>::V> {
    failure::<E>(known, status_of::<E>(error.fault), error.message)
}

/// The reply to a look-up that the store answered with `found`: the first
/// row if there is one, not-found if there is none, and the reply to a store
/// failure if the store failed.
pub open spec fn fetched_reply<E: Entity>(
    known: <E::Partial as View>::V,
    found: Result<Seq<E::V>, StoreErrorView>,
) -> ReplyView<E::V, <E::Partial as View>::V> {
    match found {
        Ok(rows) => if rows.len() > 0 {
            success::<E>(rows[0])
        } else {
            failure::<E>(known, missing_status::<E>(), E::missing_text())
        },
        Err(error) => store_failure::<E>(known, error),
    }
}

/// The reply to a create that the store answered with `stored`. A create
/// aims at no row, so a store failure of any kind is unavailable.
pub open spec fn created_reply<E: Entity>(
    known: <E::Partial as View>::V,
    stored: Result<E::V, StoreErrorView>,
) -> ReplyView<E::V, <E::Partial as View>::V> {
    match stored {
        Ok(row) => success::<E>(row),
        Err(error) => failure::<E>(known, unavailable_status(), error.message),
    }
}

/// The reply to an update or a delete that the store answered with
/// `outcome`: the row, or the reply to a store failure.
pub open spec fn changed_reply<E: Entity>(
    known: <E::Partial as View>::V,
    outcome: Result<E::V, StoreErrorView>,
) -> ReplyView<E::V, <E::Partial as View>::V> {
    match outcome {
        Ok(row) => success::<E>(row),
        Err(error) => store_failure::<E>(known, error),
    }
}

/// The reply to a request that was rejected before any store call.
pub open spec fn rejected_reply<E: Entity>(
    known: <E::Partial as View>::V,
    reason: Seq<char>,
) -> ReplyView<E::V, <E::Partial as View>::V> {
    failure::<E>(known, StatusView { code: Code::InvalidArgument, message: reason }, reason)
}

/// The first of the rows that a statement returned, or the failure of a
/// statement that met no row.
pub open spec fn first_row<R>(rows: Result<Seq<R>, StoreErrorView>) -> Result<R, StoreErrorView> {
    match rows {
        Ok(rows) => if rows.len() > 0 {
            Ok(rows[0])
        } else {
            Err(StoreErrorView { fault: StoreFault::NotFound, message: missing_row_text() })
        },
        Err(error) => Err(error),
    }
}

/// Takes the first of the rows that a statement returned.
pub fn take_first<E: View>(rows: Result<Vec<E>, StoreError>) -> (row: Result<E, StoreError>)
    ensures
        row_view(row) == first_row(rows_view(rows)),
{
    match rows {
        Ok(rows) => {
            let mut rows = rows;
            if rows.len() > 0 {
                Ok(rows.remove(0))
            } else {
                Err(StoreError::not_found())
            }
        },
        Err(error) => Err(error),
    }
}

/// Builds the reply to a call that succeeded with `row`.
pub fn succeed<E: Entity>(row: E) -> (reply: Reply<E, E::Partial>)
    ensures
        reply@ == success::<E>(row@),
{
    let entity = row.snapshot();
    Reply { response: Ok(row), event: Event { entity, error: None } }
}

/// Builds the reply to a call that failed.
pub fn fail<E: Entity>(known: E::Partial, status: Status, message: String) -> (reply: Reply<
    E,
    E::Partial,
>)
    ensures
        reply@ == failure::<E>(known@, status@, message@),
{
    let error = ErrorDescriptor::new(status.code, message);
    Reply { response: Err(status), event: Event { entity: known, error: Some(error) } }
}

/// Builds the reply to a call whose store operation failed.
pub fn fail_on<E: Entity>(known: E::Partial, error: StoreError) -> (reply: Reply<E, E::Partial>)
    ensures
        reply@ == store_failure::<E>(known@, error@),
{
    match error.fault {
        StoreFault::NotFound => fail(known, Status::not_found(E::missing()), error.message),
        StoreFault::Other => fail(known, Status::unavailable(), error.message),
    }
}

/// Builds the reply to a look-up by key.
pub fn fetched<E: Entity>(known: E::Partial, found: Result<Vec<E>, StoreError>) -> (reply: Reply<
    E,
    E::Partial,
>)
    ensures
        reply@ == fetched_reply::<E>(known@, rows_view(found)),
{
    match found {
        Ok(rows) => {
            let mut rows = rows;
            if rows.len() > 0 {
                let row = rows.remove(0);
                succeed(row)
            } else {
                fail(known, Status::not_found(E::missing()), E::missing())
            }
        },
        Err(error) => fail_on(known, error),
    }
}

/// Builds the reply to a create.
pub fn created<E: Entity>(known: E::Partial, stored: Result<E, StoreError>) -> (reply: Reply<
    E,
    E::Partial,
>)
    ensures
        reply@ == created_reply::<E>(known@, row_view(stored)),
{
    match stored {
        Ok(row) => succeed(row),
        Err(error) => fail(known, Status::unavailable(), error.message),
    }
}

/// Builds the reply to an update or a delete.
pub fn changed<E: Entity>(known: E::Partial, outcome: Result<E, StoreError>) -> (reply: Reply<
    E,
    E::Partial,
>)
    ensures
        reply@ == changed_reply::<E>(known@, row_view(outcome)),
{
    match outcome {
        Ok(row) => succeed(row),
        Err(error) => fail_on(known, error),
    }
}

/// Builds the reply to a request that is rejected before any store call.
pub fn rejected<E: Entity>(known: E::Partial, reason: &str) -> (reply: Reply<E, E::Partial>)
    ensures
        reply@ == rejected_reply::<E>(known@, reason@),
{
    fail(known, Status::invalid_argument(reason.to_owned()), reason.to_owned())
}

} // verus!
