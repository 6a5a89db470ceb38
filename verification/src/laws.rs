//! What holds of the service as a whole: of a call against a table, of two
//! calls in a row, of a stream and of the notifier.

use vstd::prelude::*;
use crate::event::{
    changed_reply, created_reply, fetched_reply, first_row, missing_status, EventView, ReplyView,
};
use crate::notifier::{dispatched, settled, Delivery, Phase};
use crate::record::{Changes, Criteria, Entity};
use crate::search::{id_filter_of, id_set, satisfies, searched_reply, Query};
use crate::status::{unavailable_status, StatusView};
use crate::store::{StoreErrorView, StoreFault};
use crate::stream::{step_of, EmitterView, StepView};
use crate::table::{
    distinct, holds, insert_returns, lookup, place, predicate, rows_after_delete,
    rows_after_insert, rows_after_update, selected, update_returns,
};

verus! {

/// The rows that the store returned, as the outcome of an operation that
/// did not fail.
pub open spec fn answer<R>(rows: Seq<R>) -> Result<Seq<R>, StoreErrorView> {
    Ok(rows)
}

/// The reply to a look-up by id against a table.
pub open spec fn get_by_id<E: Entity>(rows: Seq<E::V>, id: Seq<char>) -> ReplyView<
    E::V,
    <E::Partial as View>::V,
> {
    fetched_reply::<E>(E::bare(id), answer(lookup::<E>(rows, id)))
}

/// The reply to a delete against a table.
pub open spec fn delete<E: Entity>(rows: Seq<E::V>, id: Seq<char>) -> ReplyView<
    E::V,
    <E::Partial as View>::V,
> {
    changed_reply::<E>(E::bare(id), first_row(answer(lookup::<E>(rows, id))))
}

/// The reply to a create against a table; `known` is what the request told
/// of the record.
pub open spec fn create<E: Entity>(
    rows: Seq<E::V>,
    row: E::V,
    known: <E::Partial as View>::V,
) -> ReplyView<E::V, <E::Partial as View>::V> {
    created_reply::<E>(known, first_row(insert_returns::<E>(rows, row)))
}

/// The reply to an update against a table; `known` is what the request told
/// of the record.
pub open spec fn update<E: Entity, C: Changes<E>>(
    rows: Seq<E::V>,
    id: Seq<char>,
    changes: C,
    known: <E::Partial as View>::V,
) -> ReplyView<E::V, <E::Partial as View>::V> {
    changed_reply::<E>(known, first_row(answer(update_returns::<E, C>(rows, id, changes))))
}

/// A look-up and a delete of an id that no row has are both answered with
/// not-found, and the delete leaves the table as it is.
pub proof fn unknown_id_is_not_found<E: Entity>(rows: Seq<E::V>, id: Seq<char>)
    requires
        !holds::<E>(rows, id),
    ensures
        get_by_id::<E>(rows, id).response == Err::<E::V, _>(missing_status::<E>()),
        delete::<E>(rows, id).response == Err::<E::V, _>(missing_status::<E>()),
        rows_after_delete::<E>(rows, id) == rows,
{
}

/// A record that was created under an id that no row had is found under
/// that id as it was created: the look-up is answered as the create was.
pub proof fn created_record_is_found<E: Entity>(
    rows: Seq<E::V>,
    row: E::V,
    known: <E::Partial as View>::V,
)
    requires
        distinct::<E>(rows),
        !holds::<E>(rows, E::key(row)),
    ensures
        create::<E>(rows, row, known).response == Ok::<_, StatusView>(row),
        distinct::<E>(rows_after_insert::<E>(rows, row)),
        get_by_id::<E>(rows_after_insert::<E>(rows, row), E::key(row)) == create::<E>(
            rows,
            row,
            known,
        ),
{
    let after = rows_after_insert::<E>(rows, row);
    let last = rows.len() as int;
    assert(after == rows.push(row));
    assert(E::key(after[last]) == E::key(row));
    assert forall|i: int, j: int| 0 <= i < j < after.len() implies E::key(#[trigger] after[i])
        != E::key(#[trigger] after[j]) by {
        if j == last {
            assert(after[i] == rows[i]);
        } else {
            assert(after[i] == rows[i]);
            assert(after[j] == rows[j]);
        }
    }
    let at = place::<E>(after, E::key(row));
    assert(E::key(after[at]) == E::key(row));
    if at != last {
        assert(after[at] == rows[at]);
    }
}

/// The first delete of a record returns the record as it was and removes
/// it; a second delete of the same id is answered with not-found.
pub proof fn second_delete_is_not_found<E: Entity>(rows: Seq<E::V>, id: Seq<char>)
    requires
        distinct::<E>(rows),
        holds::<E>(rows, id),
    ensures
        delete::<E>(rows, id).response == Ok::<_, StatusView>(rows[place::<E>(rows, id)]),
        E::key(rows[place::<E>(rows, id)]) == id,
        !holds::<E>(rows_after_delete::<E>(rows, id), id),
        delete::<E>(rows_after_delete::<E>(rows, id), id).response == Err::<E::V, _>(
            missing_status::<E>(),
        ),
{
    let at = place::<E>(rows, id);
    let after = rows_after_delete::<E>(rows, id);
    assert(after == rows.remove(at));
    assert forall|i: int| 0 <= i < after.len() implies E::key(#[trigger] after[i]) != id by {
        let from = if i < at {
            i
        } else {
            i + 1
        };
        assert(after[i] == rows[from]);
        if from < at {
            assert(E::key(rows[from]) != E::key(rows[at]));
        } else {
            assert(E::key(rows[at]) != E::key(rows[from]));
        }
    }
}

/// An update with a changeset that names no field leaves every row of the
/// table as it is, and is answered with the row as it was.
pub proof fn empty_update_changes_nothing<E: Entity, C: Changes<E>>(
    rows: Seq<E::V>,
    id: Seq<char>,
    changes: C,
    known: <E::Partial as View>::V,
)
    requires
        changes.is_empty(),
    ensures
        rows_after_update::<E, C>(rows, id, changes) == rows,
        update_returns::<E, C>(rows, id, changes) == lookup::<E>(rows, id),
        holds::<E>(rows, id) ==> update::<E, C>(rows, id, changes, known).response == Ok::<
            _,
            StatusView,
        >(rows[place::<E>(rows, id)]),
{
    if holds::<E>(rows, id) {
        let at = place::<E>(rows, id);
        changes.empty_keeps_row(rows[at]);
        assert(rows.update(at, rows[at]) =~= rows);
    }
}

/// The id filter of a search: where the request names no id, a row need
/// only meet the other predicates; where it names ids, a row must have one
/// of them and meet the other predicates.
pub proof fn id_filter_restricts<E: Entity, F: Criteria<E>>(
    query: Query<F>,
    ids: Seq<Seq<char>>,
    row: E::V,
)
    requires
        id_set(query.ids) == id_filter_of(ids),
    ensures
        satisfies::<E, F>(query, row) <==> (ids.len() == 0 || ids.contains(E::key(row)))
            && query.filter.admits(row),
        ids.len() == 0 && query.filter.is_open() ==> satisfies::<E, F>(query, row),
{
    if query.filter.is_open() {
        query.filter.open_admits_all(row);
    }
}

/// A search without limit and offset returns the rows of the table that
/// meet every predicate of the query, and no other.
pub proof fn search_is_exact<E: Entity, F: Criteria<E>>(rows: Seq<E::V>, query: Query<F>)
    requires
        query.limit is None,
        query.offset is None,
    ensures
        selected::<E, F>(rows, query) == answer(rows.filter(predicate::<E, F>(query))),
        forall|row: E::V| #[trigger]
            rows.filter(predicate::<E, F>(query)).contains(row) <==> rows.contains(row)
                && satisfies::<E, F>(query, row),
{
    let wanted = predicate::<E, F>(query);
    let found = rows.filter(wanted);
    assert forall|row: E::V| #[trigger] found.contains(row) <==> rows.contains(row) && satisfies::<
        E,
        F,
    >(query, row) by {
        if found.contains(row) {
            rows.lemma_filter_contains_rev(wanted, row);
            let k = choose|k: int| 0 <= k < found.len() && found[k] == row;
            rows.lemma_filter_pred(wanted, k);
        }
        if rows.contains(row) && wanted(row) {
            let i = choose|i: int| 0 <= i < rows.len() && rows[i] == row;
            rows.lemma_filter_contains(wanted, i);
        }
    }
}

/// The records that an emission offers while it takes one step for each
/// entry of `listening`. An entry tells whether the consumer still listened
/// when the step was taken.
pub open spec fn offered<R, P, Q>(state: EmitterView<R, P, Q>, listening: Seq<bool>) -> Seq<R>
    decreases listening.len(),
{
    if listening.len() == 0 {
        Seq::empty()
    } else {
        let (next, step) = step_of(state, listening[0]);
        let rest = offered(next, listening.drop_first());
        match step {
            StepView::Offer(record) => seq![record] + rest,
            _ => rest,
        }
    }
}

/// How often an emission releases its event while it takes one step for
/// each entry of `listening`.
pub open spec fn released<R, P, Q>(state: EmitterView<R, P, Q>, listening: Seq<bool>) -> nat
    decreases listening.len(),
{
    if listening.len() == 0 {
        0
    } else {
        let (next, step) = step_of(state, listening[0]);
        let rest = released(next, listening.drop_first());
        match step {
            StepView::Publish(_) => 1 + rest,
            _ => rest,
        }
    }
}

/// For how many steps the consumer listened before it first did not.
pub open spec fn patience(listening: Seq<bool>) -> nat
    decreases listening.len(),
{
    if listening.len() == 0 || !listening[0] {
        0
    } else {
        1 + patience(listening.drop_first())
    }
}

/// How many records an emission offers: those that are left, or as many as
/// the consumer listened for, whichever is less.
pub open spec fn reach<R, P, Q>(state: EmitterView<R, P, Q>, listening: Seq<bool>) -> nat {
    let left = (state.records.len() - state.cursor) as nat;
    if patience(listening) < left {
        patience(listening)
    } else {
        left
    }
}

/// The records that an emission is to offer: the next `reach` of them.
pub open spec fn due<R, P, Q>(state: EmitterView<R, P, Q>, listening: Seq<bool>) -> Seq<R> {
    state.records.subrange(
        state.cursor as int,
        (state.cursor + reach(state, listening)) as int,
    )
}

/// An emission that has released its event offers nothing and releases
/// nothing any more.
pub proof fn ended_stream_is_silent<R, P, Q>(state: EmitterView<R, P, Q>, listening: Seq<bool>)
    requires
        state.event is None,
    ensures
        offered(state, listening) == Seq::<R>::empty(),
        released(state, listening) == 0,
    decreases listening.len(),
{
    if listening.len() > 0 {
        ended_stream_is_silent(state, listening.drop_first());
    }
}

/// A stream offers the records of the search in their order, one per step,
/// and stops at the first step at which the consumer no longer listens: from
/// then on it offers nothing. It releases the outcome event once, at the
/// step that follows the last offer, and never before.
pub proof fn stream_is_exact<R, P, Q>(state: EmitterView<R, P, Q>, listening: Seq<bool>)
    requires
        state.event is Some,
        state.cursor <= state.records.len(),
    ensures
        offered(state, listening) == due(state, listening),
        released(state, listening) == if reach(state, listening) < listening.len() {
            1nat
        } else {
            0nat
        },
    decreases listening.len(),
{
    if listening.len() > 0 {
        let (next, step) = step_of(state, listening[0]);
        let rest = listening.drop_first();
        if listening[0] && state.cursor < state.records.len() {
            stream_is_exact(next, rest);
            assert(offered(state, listening) =~= due(state, listening));
        } else {
            ended_stream_is_silent(next, rest);
            assert(offered(state, listening) =~= due(state, listening));
        }
    } else {
        assert(offered(state, listening) =~= due(state, listening));
    }
}

/// A store failure that is no missing row is answered with unavailable,
/// whatever the operation.
pub proof fn store_failure_is_unavailable<E: Entity, Q>(
    error: StoreErrorView,
    known: <E::Partial as View>::V,
    params: Q,
    ids: Seq<Seq<char>>,
)
    requires
        error.fault == StoreFault::Other,
    ensures
        fetched_reply::<E>(known, Err(error)).response == Err::<E::V, _>(unavailable_status()),
        created_reply::<E>(known, Err(error)).response == Err::<E::V, _>(unavailable_status()),
        changed_reply::<E>(known, Err(error)).response == Err::<E::V, _>(unavailable_status()),
        searched_reply::<E, Q>(params, ids, Err(error)) matches Err(failure) && failure.status
            == unavailable_status(),
{
}

/// What a call has come to once the attempt to publish its event has ended
/// with `outcome`: the response that the caller saw, and the phase of the
/// event.
pub open spec fn concluded<T, P>(reply: ReplyView<T, P>, outcome: Delivery) -> (
    Result<T, StatusView>,
    Phase<EventView<P>>,
) {
    (reply.response, settled(dispatched(Phase::Queued(reply.event)).0, outcome))
}

/// Whether the event of a call is published or the attempt fails, the
/// caller sees the same response. A failed attempt drops the event, and an
/// event that was dropped is never handed out again.
pub proof fn publish_failure_is_absorbed<T, P>(reply: ReplyView<T, P>)
    ensures
        concluded(reply, Delivery::Failed).0 == reply.response,
        concluded(reply, Delivery::Failed).0 == concluded(reply, Delivery::Delivered).0,
        concluded(reply, Delivery::Failed).1 == Phase::<EventView<P>>::Dropped,
        dispatched(concluded(reply, Delivery::Failed).1).1 is None,
        forall|again: Delivery| #[trigger]
            settled(concluded(reply, Delivery::Failed).1, again) == concluded(
                reply,
                Delivery::Failed,
            ).1,
{
}

} // verus!
