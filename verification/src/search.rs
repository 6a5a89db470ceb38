//! Searches: the query that a search request becomes, and what the service
//! answers once the store has run it.

use vstd::prelude::*;
use crate::event::error_view;
use crate::record::{texts, views, Criteria, Entity};
use crate::status::{
    descriptor, unavailable_status, Code, ErrorDescriptor, ErrorDescriptorView, Status, StatusView,
};
use crate::store::{StoreError, StoreErrorView};
use crate::stream::{Emitter, EmitterView};

verus! {

/// A search as the store runs it. An id filter that is present holds at
/// least one id. The predicates combine conjunctively; `limit` and `offset`
/// bound the rows that come back and are independent of each other.
#[derive(Debug, PartialEq, Eq)]
pub struct Query<F> {
    pub ids: Option<Vec<String>>,
    pub filter: F,
    pub limit: Option<i64>,
    pub offset: Option<i64>,
}

/// The model of an optional id filter.
pub open spec fn id_set(ids: Option<Vec<String>>) -> Option<Seq<Seq<char>>> {
    match ids {
        Some(ids) => Some(texts(ids@)),
        None => None,
    }
}

/// Whether the id filter lets a key pass: an absent filter lets every key
/// pass.
pub open spec fn passes(ids: Option<Seq<Seq<char>>>, key: Seq<char>) -> bool {
    match ids {
        Some(ids) => ids.contains(key),
        None => true,
    }
}

/// Whether a row meets every predicate of the query.
pub open spec fn satisfies<E: Entity, F: Criteria<E>>(query: Query<F>, row: E::V) -> bool {
    passes(id_set(query.ids), E::key(row)) && query.filter.admits(row)
}

/// The id filter of a query for the ids of a request: an id filter that is
/// empty is no id filter.
pub open spec fn id_filter_of(ids: Seq<Seq<char>>) -> Option<Seq<Seq<char>>> {
    if ids.len() == 0 {
        None
    } else {
        Some(ids)
    }
}

/// Whether a row count of a request is one that the store can take.
pub open spec fn fits(count: Option<u64>) -> bool {
    match count {
        Some(n) => n <= i64::MAX,
        None => true,
    }
}

/// The row count of a query for the row count of a request.
pub open spec fn bound_of(count: Option<u64>) -> Option<i64> {
    match count {
        Some(n) => Some(n as i64),
        None => None,
    }
}

/// The id filter of a query for the ids of a request.
pub fn id_filter(ids: &Vec<String>) -> (filter: Option<Vec<String>>)
    ensures
        id_set(filter) == id_filter_of(texts(ids@)),
{
    if ids.len() == 0 {
        None
    } else {
        Some(crate::record::copy_texts(ids))
    }
}

/// The row count of a query for the row count of a request, where the store
/// can take it.
pub fn bound(count: Option<u64>) -> (bound: Option<Option<i64>>)
    ensures
        bound is Some <==> fits(count),
        bound matches Some(b) ==> b == bound_of(count),
{
    match count {
        Some(n) => {
            if n <= 0x7fff_ffff_ffff_ffffu64 {
                let b: i64 = n as i64;
                Some(Some(b))
            } else {
                None
            }
        },
        None => Some(None),
    }
}

/// The outcome event of a search: the records as far as they are known, the
/// error descriptor of a search that failed, and the request's parameters.
#[derive(Debug, PartialEq, Eq)]
pub struct SearchEvent<P, Q> {
    pub entities: Vec<P>,
    pub error: Option<ErrorDescriptor>,
    pub search_params: Q,
}

/// The model of a [`SearchEvent`].
pub struct SearchEventView<P, Q> {
    pub entities: Seq<P>,
    pub error: Option<ErrorDescriptorView>,
    pub search_params: Q,
}

impl<P: View, Q: View> View for SearchEvent<P, Q> {
    type V = SearchEventView<P::V, Q::V>;

    open spec fn view(&self) -> SearchEventView<P::V, Q::V> {
        SearchEventView {
            entities: views(self.entities@),
            error: error_view(self.error),
            search_params: self.search_params@,
        }
    }
}

/// A search that ended before any record was streamed: the terminal status
/// for the caller and the outcome event.
#[derive(Debug, PartialEq, Eq)]
pub struct SearchFailure<P, Q> {
    pub status: Status,
    pub event: SearchEvent<P, Q>,
}

/// The model of a [`SearchFailure`].
pub struct SearchFailureView<P, Q> {
    pub status: StatusView,
    pub event: SearchEventView<P, Q>,
}

impl<P: View, Q: View> View for SearchFailure<P, Q> {
    type V = SearchFailureView<P::V, Q::V>;

    open spec fn view(&self) -> SearchFailureView<P::V, Q::V> {
        SearchFailureView { status: self.status@, event: self.event@ }
    }
}

/// The payloads that hold the ids of a request and nothing else.
pub open spec fn bare_all<E: Entity>(ids: Seq<Seq<char>>) -> Seq<<E::Partial as View>::V> {
    Seq::new(ids.len(), |i: int| E::bare(ids[i]))
}

/// The payloads that hold every field of the rows.
pub open spec fn whole_all<E: Entity>(rows: Seq<E::V>) -> Seq<<E::Partial as View>::V> {
    Seq::new(rows.len(), |i: int| E::whole(rows[i]))
}

/// The failure of a search with `status`; the event holds the ids that the
/// request named and describes the failure with `message`.
pub open spec fn search_failure<E: Entity, Q>(
    params: Q,
    ids: Seq<Seq<char>>,
    status: StatusView,
    message: Seq<char>,
) -> SearchFailureView<<E::Partial as View>::V, Q> {
    SearchFailureView {
        status,
        event: SearchEventView {
            entities: bare_all::<E>(ids),
            error: Some(descriptor(status.code, message)),
            search_params: params,
        },
    }
}

/// The outcome event of a search that the store answered with `rows`.
pub open spec fn search_success<E: Entity, Q>(params: Q, rows: Seq<E::V>) -> SearchEventView<
    <E::Partial as View>::V,
    Q,
> {
    SearchEventView { entities: whole_all::<E>(rows), error: None, search_params: params }
}

/// What a search that the store answered with `found` ends in: a stream of
/// the rows, with the outcome event held back until the stream has ended, or
/// unavailable if the store failed.
pub open spec fn searched_reply<E: Entity, Q>(
    params: Q,
    ids: Seq<Seq<char>>,
    found: Result<Seq<E::V>, StoreErrorView>,
) -> Result<
    EmitterView<E::V, <E::Partial as View>::V, Q>,
    SearchFailureView<<E::Partial as View>::V, Q>,
> {
    match found {
        Ok(rows) => Ok(
            EmitterView {
                records: rows,
                cursor: 0,
                event: Some(search_success::<E, Q>(params, rows)),
            },
        ),
        Err(error) => Err(search_failure::<E, Q>(params, ids, unavailable_status(), error.message)),
    }
}

/// The model of what a search ends in.
pub open spec fn search_view<E: Entity, Q: View>(
    reply: Result<Emitter<E, Q>, SearchFailure<E::Partial, Q>>,
) -> Result<
    EmitterView<E::V, <E::Partial as View>::V, Q::V>,
    SearchFailureView<<E::Partial as View>::V, Q::V>,
> {
    match reply {
        Ok(emitter) => Ok(emitter@),
        Err(failure) => Err(failure@),
    }
}

/// Builds the payloads that hold the ids of a request and nothing else.
pub fn placeholders<E: Entity>(ids: &Vec<String>) -> (partials: Vec<E::Partial>)
    ensures
        views(partials@) == bare_all::<E>(texts(ids@)),
{
    let mut partials: Vec<E::Partial> = Vec::new();
    let mut i: usize = 0;
    while i < ids.len()
        invariant
            i <= ids.len(),
            partials.len() == i,
            forall|j: int| 0 <= j < i ==> partials[j]@ == E::bare(ids[j]@),
        decreases ids.len() - i,
    {
        partials.push(E::placeholder(&ids[i]));
        i += 1;
    }
    assert(views(partials@) =~= bare_all::<E>(texts(ids@)));
    partials
}

/// Builds the payloads that hold every field of the rows.
pub fn snapshots<E: Entity>(rows: &Vec<E>) -> (partials: Vec<E::Partial>)
    ensures
        views(partials@) == whole_all::<E>(views(rows@)),
{
    let mut partials: Vec<E::Partial> = Vec::new();
    let mut i: usize = 0;
    while i < rows.len()
        invariant
            i <= rows.len(),
            partials.len() == i,
            forall|j: int| 0 <= j < i ==> partials[j]@ == E::whole(rows[j]@),
        decreases rows.len() - i,
    {
        partials.push(rows[i].snapshot());
        i += 1;
    }
    assert(views(partials@) =~= whole_all::<E>(views(rows@)));
    partials
}

/// Builds the failure of a search.
pub fn fail_search<E: Entity, Q: View>(
    params: Q,
    ids: &Vec<String>,
    status: Status,
    message: String,
) -> (failure: SearchFailure<E::Partial, Q>)
    ensures
        failure@ == search_failure::<E, Q::V>(params@, texts(ids@), status@, message@),
{
    let error = ErrorDescriptor::new(status.code, message);
    let entities = placeholders::<E>(ids);
    let event = SearchEvent { entities, error: Some(error), search_params: params };
    SearchFailure { status, event }
}

/// Builds what a search ends in once the store has answered. `params` is the
/// copy of the request's parameters that the outcome event carries, and
/// `ids` are the ids that the request named.
pub fn searched<E: Entity, Q: View>(
    params: Q,
    ids: &Vec<String>,
    found: Result<Vec<E>, StoreError>,
) -> (reply: Result<Emitter<E, Q>, SearchFailure<E::Partial, Q>>)
    ensures
        search_view(reply) == searched_reply::<E, Q::V>(
            params@,
            texts(ids@),
            crate::event::rows_view(found),
        ),
{
    match found {
        Ok(rows) => {
            let entities = snapshots::<E>(&rows);
            let event = SearchEvent { entities, error: None, search_params: params };
            Ok(Emitter::new(rows, event))
        },
        Err(error) => Err(fail_search::<E, Q>(params, ids, Status::unavailable(), error.message)),
    }
}

/// The text that rejects a search whose limit the store cannot take.
pub open spec fn limit_text() -> Seq<char> {
    "limit is out of range"@
}

/// The text that rejects a search whose offset the store cannot take.
pub open spec fn offset_text() -> Seq<char> {
    "offset is out of range"@
}

/// The status that rejects a request before any store call.
pub open spec fn invalid_status(reason: Seq<char>) -> StatusView {
    StatusView { code: Code::InvalidArgument, message: reason }
}

/// Builds the rejection of a search before any store call.
pub fn reject_search<E: Entity, Q: View>(params: Q, ids: &Vec<String>, reason: &str) -> (failure:
    SearchFailure<E::Partial, Q>)
    ensures
        failure@ == search_failure::<E, Q::V>(
            params@,
            texts(ids@),
            invalid_status(reason@),
            reason@,
        ),
{
    fail_search::<E, Q>(
        params,
        ids,
        Status::invalid_argument(reason.to_owned()),
        reason.to_owned(),
    )
}

/// Whether the store can take the limit and the offset of a request.
pub open spec fn admissible(limit: Option<u64>, offset: Option<u64>) -> bool {
    fits(limit) && fits(offset)
}

/// Whether the id filter and the row counts of a query are those of a
/// request.
pub open spec fn is_query_of<F>(
    query: Query<F>,
    ids: Seq<Seq<char>>,
    limit: Option<u64>,
    offset: Option<u64>,
) -> bool {
    &&& id_set(query.ids) == id_filter_of(ids)
    &&& query.limit == bound_of(limit)
    &&& query.offset == bound_of(offset)
}

/// The failure that rejects a request whose limit or offset the store
/// cannot take: it names the limit if that is at fault, else the offset.
pub open spec fn out_of_range<E: Entity, Q>(
    params: Q,
    ids: Seq<Seq<char>>,
    limit: Option<u64>,
) -> SearchFailureView<<E::Partial as View>::V, Q> {
    let reason = if fits(limit) {
        offset_text()
    } else {
        limit_text()
    };
    search_failure::<E, Q>(params, ids, invalid_status(reason), reason)
}

/// Builds the query of a search request, or rejects a request whose limit or
/// offset the store cannot take. `params` is the copy of the request's
/// parameters that the outcome event of a rejection carries.
pub fn plan<E: Entity, F, Q: View>(
    params: Q,
    ids: &Vec<String>,
    filter: F,
    limit: Option<u64>,
    offset: Option<u64>,
) -> (planned: Result<Query<F>, SearchFailure<E::Partial, Q>>)
    ensures
        match planned {
            Ok(query) => {
                &&& admissible(limit, offset)
                &&& is_query_of(query, texts(ids@), limit, offset)
                &&& query.filter == filter
            },
            Err(failure) => {
                &&& !admissible(limit, offset)
                &&& failure@ == out_of_range::<E, Q::V>(params@, texts(ids@), limit)
            },
        },
{
    match bound(limit) {
        Some(limit) => match bound(offset) {
            Some(offset) => Ok(Query { ids: id_filter(ids), filter, limit, offset }),
            None => Err(reject_search::<E, Q>(params, ids, "offset is out of range")),
        },
        None => Err(reject_search::<E, Q>(params, ids, "limit is out of range")),
    }
}

} // verus!
