//! Epics: an epic stands in a column, has a reporter and may have an
//! assignee and a description; it starts and is due at an instant.

use vstd::prelude::*;
use crate::event::{
    changed, changed_reply, created, created_reply, fetched, fetched_reply, first_row, rejected,
    rejected_reply, row_view, rows_view, take_first, Reply,
};
use crate::ident::{is_uuid_text, mint_id};
use crate::instant::{
    calendar_text, exact, exact_reading, not_before, read_exact, read_to_the_second,
    reading_to_the_second, to_the_second, Instant, Timestamp,
};
use crate::record::{
    agrees, copy_text, copy_texts, meets, patched, text, texts, value_set, Changes, Criteria,
    Draft, Entity, Patch,
};
use crate::search::{
    admissible, invalid_status, is_query_of, out_of_range, plan, reject_search, search_failure,
    search_view, searched, searched_reply, SearchFailure,
};
use crate::store::{StoreCall, StoreError};
use crate::stream::Emitter;

verus! {

/// A stored epic.
#[derive(Debug, PartialEq, Eq)]
pub struct Epic {
    pub id: String,
    pub column_id: String,
    pub assignee_id: Option<String>,
    pub name: String,
    pub reporter_id: String,
    pub description: Option<String>,
    pub start_date: Instant,
    pub due_date: Instant,
}

/// The model of an [`Epic`].
pub struct EpicView {
    pub id: Seq<char>,
    pub column_id: Seq<char>,
    pub assignee_id: Option<Seq<char>>,
    pub name: Seq<char>,
    pub reporter_id: Seq<char>,
    pub description: Option<Seq<char>>,
    pub start_date: Instant,
    pub due_date: Instant,
}

impl View for Epic {
    type V = EpicView;

    open spec fn view(&self) -> EpicView {
        EpicView {
            id: self.id@,
            column_id: self.column_id@,
            assignee_id: text(self.assignee_id),
            name: self.name@,
            reporter_id: self.reporter_id@,
            description: text(self.description),
            start_date: self.start_date,
            due_date: self.due_date,
        }
    }
}

/// An epic in an outcome event: every field is optional, so that an event
/// can tell what little was known of an epic when a call failed. The two
/// dates stand in it as the calendar prints them.
#[derive(Debug, PartialEq, Eq)]
pub struct PartialEpic {
    pub id: Option<String>,
    pub column_id: Option<String>,
    pub assignee_id: Option<String>,
    pub reporter_id: Option<String>,
    pub name: Option<String>,
    pub description: Option<String>,
    pub start_date: Option<String>,
    pub due_date: Option<String>,
}

/// The model of a [`PartialEpic`].
pub struct PartialEpicView {
    pub id: Option<Seq<char>>,
    pub column_id: Option<Seq<char>>,
    pub assignee_id: Option<Seq<char>>,
    pub reporter_id: Option<Seq<char>>,
    pub name: Option<Seq<char>>,
    pub description: Option<Seq<char>>,
    pub start_date: Option<Seq<char>>,
    pub due_date: Option<Seq<char>>,
}

impl View for PartialEpic {
    type V = PartialEpicView;

    open spec fn view(&self) -> PartialEpicView {
        PartialEpicView {
            id: text(self.id),
            column_id: text(self.column_id),
            assignee_id: text(self.assignee_id),
            reporter_id: text(self.reporter_id),
            name: text(self.name),
            description: text(self.description),
            start_date: text(self.start_date),
            due_date: text(self.due_date),
        }
    }
}

impl Entity for Epic {
    type Partial = PartialEpic;

    open spec fn key(row: EpicView) -> Seq<char> {
        row.id
    }

    open spec fn whole(row: EpicView) -> PartialEpicView {
        PartialEpicView {
            id: Some(row.id),
            column_id: Some(row.column_id),
            assignee_id: row.assignee_id,
            reporter_id: Some(row.reporter_id),
            name: Some(row.name),
            description: row.description,
            start_date: calendar_text(row.start_date.seconds, row.start_date.nanos),
            due_date: calendar_text(row.due_date.seconds, row.due_date.nanos),
        }
    }

    open spec fn bare(id: Seq<char>) -> PartialEpicView {
        PartialEpicView {
            id: Some(id),
            column_id: None,
            assignee_id: None,
            reporter_id: None,
            name: None,
            description: None,
            start_date: None,
            due_date: None,
        }
    }

    open spec fn missing_text() -> Seq<char> {
        "Epic not found"@
    }

    fn id(&self) -> (id: &String) {
        &self.id
    }

    fn duplicate(&self) -> (copy: Epic) {
        Epic {
            id: self.id.clone(),
            column_id: self.column_id.clone(),
            assignee_id: copy_text(&self.assignee_id),
            name: self.name.clone(),
            reporter_id: self.reporter_id.clone(),
            description: copy_text(&self.description),
            start_date: self.start_date,
            due_date: self.due_date,
        }
    }

    fn snapshot(&self) -> (partial: PartialEpic) {
        PartialEpic {
            id: Some(self.id.clone()),
            column_id: Some(self.column_id.clone()),
            assignee_id: copy_text(&self.assignee_id),
            reporter_id: Some(self.reporter_id.clone()),
            name: Some(self.name.clone()),
            description: copy_text(&self.description),
            start_date: self.start_date.rendered(),
            due_date: self.due_date.rendered(),
        }
    }

    fn placeholder(id: &String) -> (partial: PartialEpic) {
        PartialEpic {
            id: Some(id.clone()),
            column_id: None,
            assignee_id: None,
            reporter_id: None,
            name: None,
            description: None,
            start_date: None,
            due_date: None,
        }
    }

    fn missing() -> (message: String) {
        "Epic not found".to_owned()
    }
}

/// An epic to insert.
#[derive(Debug, PartialEq, Eq)]
pub struct NewEpic {
    pub id: String,
    pub column_id: String,
    pub assignee_id: Option<String>,
    pub reporter_id: String,
    pub name: String,
    pub description: Option<String>,
    pub start_date: Instant,
    pub due_date: Instant,
}

impl Draft<Epic> for NewEpic {
    open spec fn row(self) -> EpicView {
        EpicView {
            id: self.id@,
            column_id: self.column_id@,
            assignee_id: text(self.assignee_id),
            name: self.name@,
            reporter_id: self.reporter_id@,
            description: text(self.description),
            start_date: self.start_date,
            due_date: self.due_date,
        }
    }

    fn into_row(self) -> (row: Epic) {
        Epic {
            id: self.id,
            column_id: self.column_id,
            assignee_id: self.assignee_id,
            name: self.name,
            reporter_id: self.reporter_id,
            description: self.description,
            start_date: self.start_date,
            due_date: self.due_date,
        }
    }
}

/// The fields of an epic that an update may change. A field that is `None`
/// or `Keep` stays as it is; the assignee and the description, which may
/// hold no value, can also be cleared.
#[derive(Debug, PartialEq, Eq)]
pub struct EpicChangeSet {
    pub column_id: Option<String>,
    pub assignee_id: Patch,
    pub name: Option<String>,
    pub reporter_id: Option<String>,
    pub description: Patch,
    pub start_date: Option<Instant>,
    pub due_date: Option<Instant>,
}

/// What a field holds after an update that may name a new value.
pub open spec fn replaced(by: Option<String>, current: Seq<char>) -> Seq<char> {
    match by {
        Some(s) => s@,
        None => current,
    }
}

/// The instant that a field holds after an update that may name a new one.
pub open spec fn moved(to: Option<Instant>, current: Instant) -> Instant {
    match to {
        Some(at) => at,
        None => current,
    }
}

impl Changes<Epic> for EpicChangeSet {
    open spec fn applied(self, row: EpicView) -> EpicView {
        EpicView {
            id: row.id,
            column_id: replaced(self.column_id, row.column_id),
            assignee_id: patched(self.assignee_id@, row.assignee_id),
            name: replaced(self.name, row.name),
            reporter_id: replaced(self.reporter_id, row.reporter_id),
            description: patched(self.description@, row.description),
            start_date: moved(self.start_date, row.start_date),
            due_date: moved(self.due_date, row.due_date),
        }
    }

    open spec fn is_empty(self) -> bool {
        &&& self.column_id is None
        &&& self.assignee_id@ is Keep
        &&& self.name is None
        &&& self.reporter_id is None
        &&& self.description@ is Keep
        &&& self.start_date is None
        &&& self.due_date is None
    }

    fn apply(&self, row: &Epic) -> (changed: Epic) {
        Epic {
            id: row.id.clone(),
            column_id: match &self.column_id {
                Some(s) => s.clone(),
                None => row.column_id.clone(),
            },
            assignee_id: self.assignee_id.apply(&row.assignee_id),
            name: match &self.name {
                Some(s) => s.clone(),
                None => row.name.clone(),
            },
            reporter_id: match &self.reporter_id {
                Some(s) => s.clone(),
                None => row.reporter_id.clone(),
            },
            description: self.description.apply(&row.description),
            start_date: match self.start_date {
                Some(at) => at,
                None => row.start_date,
            },
            due_date: match self.due_date {
                Some(at) => at,
                None => row.due_date,
            },
        }
    }

    fn names_nothing(&self) -> (empty: bool) {
        self.column_id.is_none() && self.assignee_id.is_keep() && self.name.is_none()
            && self.reporter_id.is_none() && self.description.is_keep()
            && self.start_date.is_none() && self.due_date.is_none()
    }

    proof fn keeps_key(self, row: EpicView) {
    }

    proof fn empty_keeps_row(self, row: EpicView) {
    }
}

/// The predicates of an epic search beside the id filter: the column, the
/// earliest instant at which an epic may start, and the latest at which it
/// may be due.
#[derive(Debug, PartialEq, Eq)]
pub struct EpicFilter {
    pub column_id: Option<String>,
    pub min_start_date: Option<Instant>,
    pub max_due_date: Option<Instant>,
}

/// Whether an instant is not before a bound, where there is one.
pub open spec fn starts_from(bound: Option<Instant>, at: Instant) -> bool {
    match bound {
        Some(bound) => not_before(at, bound),
        None => true,
    }
}

/// Whether an instant is not after a bound, where there is one.
pub open spec fn ends_by(bound: Option<Instant>, at: Instant) -> bool {
    match bound {
        Some(bound) => not_before(bound, at),
        None => true,
    }
}

impl Criteria<Epic> for EpicFilter {
    open spec fn admits(self, row: EpicView) -> bool {
        &&& agrees(text(self.column_id), row.column_id)
        &&& starts_from(self.min_start_date, row.start_date)
        &&& ends_by(self.max_due_date, row.due_date)
    }

    open spec fn is_open(self) -> bool {
        &&& self.column_id is None
        &&& self.min_start_date is None
        &&& self.max_due_date is None
    }

    fn test(&self, row: &Epic) -> (admitted: bool) {
        let starts = match &self.min_start_date {
            Some(bound) => row.start_date.is_not_before(bound),
            None => true,
        };
        let ends = match &self.max_due_date {
            Some(bound) => bound.is_not_before(&row.due_date),
            None => true,
        };
        meets(&self.column_id, &row.column_id) && starts && ends
    }

    proof fn open_admits_all(self, row: EpicView) {
    }
}

/// Inserting an epic: the row that the insert statement returned is the
/// stored epic.
pub trait CreateEpic {
    fn create(inserted: Result<Vec<Epic>, StoreError>) -> (stored: Result<Epic, StoreError>)
        ensures
            row_view(stored) == first_row(rows_view(inserted)),
    ;
}

impl CreateEpic for Epic {
    fn create(inserted: Result<Vec<Epic>, StoreError>) -> (stored: Result<Epic, StoreError>) {
        take_first(inserted)
    }
}

/// Updating an epic: the row that the update statement returned, or
/// not-found where it met no row.
pub trait UpdateEpic {
    fn update(updated: Result<Vec<Epic>, StoreError>) -> (stored: Result<Epic, StoreError>)
        ensures
            row_view(stored) == first_row(rows_view(updated)),
    ;
}

impl UpdateEpic for Epic {
    fn update(updated: Result<Vec<Epic>, StoreError>) -> (stored: Result<Epic, StoreError>) {
        take_first(updated)
    }
}

/// Deleting an epic: the row that the delete statement returned, which is
/// the epic as it was before, or not-found where it met no row.
pub trait DeleteEpic {
    fn delete(deleted: Result<Vec<Epic>, StoreError>) -> (removed: Result<Epic, StoreError>)
        ensures
            row_view(removed) == first_row(rows_view(deleted)),
    ;
}

impl DeleteEpic for Epic {
    fn delete(deleted: Result<Vec<Epic>, StoreError>) -> (removed: Result<Epic, StoreError>) {
        take_first(deleted)
    }
}

/// The request for one epic by its id.
#[derive(Debug, PartialEq, Eq)]
pub struct EpicId {
    pub epic_id: String,
}

/// The request to create an epic. The column and the two dates are
/// mandatory: a request without one of them is rejected. Of a date the whole
/// seconds count.
#[derive(Debug, PartialEq, Eq)]
pub struct CreateEpicRequest {
    pub column_id: Option<String>,
    pub assignee_id: Option<String>,
    pub reporter_id: String,
    pub name: String,
    pub description: Option<String>,
    pub start_date: Option<Timestamp>,
    pub due_date: Option<Timestamp>,
}

/// The request to update an epic: a field that is `None` or `Keep` stays as
/// it is. Of a date the whole seconds count.
#[derive(Debug, PartialEq, Eq)]
pub struct UpdateEpicRequest {
    pub epic_id: String,
    pub column_id: Option<String>,
    pub assignee_id: Patch,
    pub name: Option<String>,
    pub reporter_id: Option<String>,
    pub description: Patch,
    pub start_date: Option<Timestamp>,
    pub due_date: Option<Timestamp>,
}

/// The parameters of an epic search. An empty list of ids is no id filter.
#[derive(Debug, PartialEq, Eq)]
pub struct SearchEpicsParams {
    pub epics_ids: Vec<String>,
    pub column_id: Option<String>,
    pub min_start_date: Option<Timestamp>,
    pub max_due_date: Option<Timestamp>,
    pub limit: Option<u64>,
    pub offset: Option<u64>,
}

/// The model of [`SearchEpicsParams`].
pub struct SearchEpicsParamsView {
    pub epics_ids: Seq<Seq<char>>,
    pub column_id: Option<Seq<char>>,
    pub min_start_date: Option<Timestamp>,
    pub max_due_date: Option<Timestamp>,
    pub limit: Option<u64>,
    pub offset: Option<u64>,
}

impl View for SearchEpicsParams {
    type V = SearchEpicsParamsView;

    open spec fn view(&self) -> SearchEpicsParamsView {
        SearchEpicsParamsView {
            epics_ids: texts(self.epics_ids@),
            column_id: text(self.column_id),
            min_start_date: self.min_start_date,
            max_due_date: self.max_due_date,
            limit: self.limit,
            offset: self.offset,
        }
    }
}

impl SearchEpicsParams {
    /// A copy of the parameters.
    pub fn duplicate(&self) -> (copy: Self)
        ensures
            copy@ == self@,
    {
        SearchEpicsParams {
            epics_ids: copy_texts(&self.epics_ids),
            column_id: copy_text(&self.column_id),
            min_start_date: self.min_start_date,
            max_due_date: self.max_due_date,
            limit: self.limit,
            offset: self.offset,
        }
    }
}

/// The one operation that an epic call hands to the store.
pub type EpicCall = StoreCall<NewEpic, EpicChangeSet, EpicFilter>;

/// What a unary epic call ends with.
pub type EpicReply = Reply<Epic, PartialEpic>;

/// The producer side of a streamed epic search.
pub type EpicStream = Emitter<Epic, SearchEpicsParams>;

/// An epic search that ended before any record was streamed.
pub type EpicSearchFailure = SearchFailure<PartialEpic, SearchEpicsParams>;

/// What is wrong with a date that a request must carry, if anything: it is
/// missing, or the calendar has no date for it. `reading` is what the
/// calendar says of it.
pub open spec fn date_flaw(
    stamp: Option<Timestamp>,
    reading: Option<Seq<char>>,
    missing: Seq<char>,
    out_of_range: Seq<char>,
) -> Option<Seq<char>> {
    if stamp is None {
        Some(missing)
    } else if reading is None {
        Some(out_of_range)
    } else {
        None
    }
}

/// Why a create request is rejected, if it is: the first of its flaws, the
/// column before the start date before the due date. `start` and `due` are
/// what the calendar says of the two dates.
pub open spec fn create_flaw(
    request: CreateEpicRequest,
    start: Option<Seq<char>>,
    due: Option<Seq<char>>,
) -> Option<Seq<char>> {
    let start_flaw = date_flaw(
        request.start_date,
        start,
        "start_date is missing"@,
        "start_date is out of range"@,
    );
    if request.column_id is None {
        Some("column_id is missing"@)
    } else if start_flaw is Some {
        start_flaw
    } else {
        date_flaw(request.due_date, due, "due_date is missing"@, "due_date is out of range"@)
    }
}

/// What a create request tells of the epic.
pub open spec fn create_known(
    request: CreateEpicRequest,
    start: Option<Seq<char>>,
    due: Option<Seq<char>>,
) -> PartialEpicView {
    PartialEpicView {
        id: None,
        column_id: text(request.column_id),
        assignee_id: text(request.assignee_id),
        reporter_id: Some(request.reporter_id@),
        name: Some(request.name@),
        description: text(request.description),
        start_date: start,
        due_date: due,
    }
}

/// The epic that a create request without a flaw describes, under the id
/// `id`. Of a date the whole seconds count.
pub open spec fn create_row(request: CreateEpicRequest, id: Seq<char>) -> EpicView {
    EpicView {
        id,
        column_id: request.column_id->0@,
        assignee_id: text(request.assignee_id),
        name: request.name@,
        reporter_id: request.reporter_id@,
        description: text(request.description),
        start_date: to_the_second(request.start_date->0),
        due_date: to_the_second(request.due_date->0),
    }
}

/// Whether `call` is the store operation of a create request without a
/// flaw: the insert of the epic that the request describes, under the id
/// `id`.
pub open spec fn is_create_call(
    call: EpicCall,
    request: CreateEpicRequest,
    id: Seq<char>,
    start: Option<Seq<char>>,
    due: Option<Seq<char>>,
) -> bool {
    &&& create_flaw(request, start, due) is None
    &&& call matches StoreCall::Insert(draft)
    &&& draft.row() == create_row(request, id)
}

/// Whether `reply` rejects a create request for its first flaw.
pub open spec fn is_create_rejection(
    reply: EpicReply,
    request: CreateEpicRequest,
    start: Option<Seq<char>>,
    due: Option<Seq<char>>,
) -> bool {
    &&& create_flaw(request, start, due) matches Some(reason)
    &&& reply@ == rejected_reply::<Epic>(create_known(request, start, due), reason)
}

/// Whether `planned` is the plan of a create request: the insert of the
/// epic that the request describes, or the reply that rejects a request with
/// a flaw.
pub open spec fn is_create_plan(
    planned: Result<EpicCall, EpicReply>,
    request: CreateEpicRequest,
    id: Seq<char>,
    start: Option<Seq<char>>,
    due: Option<Seq<char>>,
) -> bool {
    match planned {
        Ok(call) => is_create_call(call, request, id, start, due),
        Err(reply) => is_create_rejection(reply, request, start, due),
    }
}

/// Whether the calendar lacks a date that a request names.
pub open spec fn off_calendar(stamp: Option<Timestamp>, reading: Option<Seq<char>>) -> bool {
    stamp is Some && reading is None
}

/// Why an update request is rejected, if it is: the first of the dates it
/// names for which the calendar has no date.
pub open spec fn update_flaw(
    request: UpdateEpicRequest,
    start: Option<Seq<char>>,
    due: Option<Seq<char>>,
) -> Option<Seq<char>> {
    if off_calendar(request.start_date, start) {
        Some("start_date is out of range"@)
    } else if off_calendar(request.due_date, due) {
        Some("due_date is out of range"@)
    } else {
        None
    }
}

/// What an update request tells of the epic.
pub open spec fn update_known(
    request: UpdateEpicRequest,
    start: Option<Seq<char>>,
    due: Option<Seq<char>>,
) -> PartialEpicView {
    PartialEpicView {
        id: Some(request.epic_id@),
        column_id: text(request.column_id),
        assignee_id: value_set(request.assignee_id@),
        reporter_id: text(request.reporter_id),
        name: text(request.name),
        description: value_set(request.description@),
        start_date: start,
        due_date: due,
    }
}

/// The instant that a changeset holds for a date of an update request.
pub open spec fn change_of(stamp: Option<Timestamp>) -> Option<Instant> {
    match stamp {
        Some(stamp) => Some(to_the_second(stamp)),
        None => None,
    }
}

/// Whether a changeset holds the fields that an update request names.
pub open spec fn is_changeset_of(changes: EpicChangeSet, request: UpdateEpicRequest) -> bool {
    &&& text(changes.column_id) == text(request.column_id)
    &&& changes.assignee_id@ == request.assignee_id@
    &&& text(changes.name) == text(request.name)
    &&& text(changes.reporter_id) == text(request.reporter_id)
    &&& changes.description@ == request.description@
    &&& changes.start_date == change_of(request.start_date)
    &&& changes.due_date == change_of(request.due_date)
}

/// Whether an update request names no field.
pub open spec fn names_nothing(request: UpdateEpicRequest) -> bool {
    &&& request.column_id is None
    &&& request.assignee_id@ is Keep
    &&& request.name is None
    &&& request.reporter_id is None
    &&& request.description@ is Keep
    &&& request.start_date is None
    &&& request.due_date is None
}

/// Whether `planned` is the plan of an update request: the update with the
/// changeset of the request, a look-up where the request names no field, or
/// the reply that rejects a request with a flaw.
pub open spec fn is_update_plan(
    planned: Result<EpicCall, EpicReply>,
    request: UpdateEpicRequest,
    start: Option<Seq<char>>,
    due: Option<Seq<char>>,
) -> bool {
    match planned {
        Ok(StoreCall::Update { id, changes }) => {
            &&& update_flaw(request, start, due) is None
            &&& id@ == request.epic_id@
            &&& !changes.is_empty()
            &&& is_changeset_of(changes, request)
        },
        Ok(StoreCall::Fetch { id }) => {
            &&& update_flaw(request, start, due) is None
            &&& id@ == request.epic_id@
            &&& names_nothing(request)
        },
        Ok(_) => false,
        Err(reply) => {
            &&& update_flaw(request, start, due) matches Some(reason)
            &&& reply@ == rejected_reply::<Epic>(update_known(request, start, due), reason)
        },
    }
}

/// Why a search is rejected for its date bounds, if it is: the first of
/// the bounds that no instant stands for, because its nanoseconds are
/// negative or the calendar has no date for it. `earliest` and `latest` are
/// what the calendar says of the two bounds.
pub open spec fn search_flaw(
    params: SearchEpicsParams,
    earliest: Option<Seq<char>>,
    latest: Option<Seq<char>>,
) -> Option<Seq<char>> {
    if off_calendar(params.min_start_date, earliest) {
        Some("min_start_date is out of range"@)
    } else if off_calendar(params.max_due_date, latest) {
        Some("max_due_date is out of range"@)
    } else {
        None
    }
}

/// The instant that a query holds for a date bound of a search.
pub open spec fn bound_at(stamp: Option<Timestamp>) -> Option<Instant> {
    match stamp {
        Some(stamp) => exact(stamp),
        None => None,
    }
}

/// Whether `planned` is the plan of a search: the query of the request, or
/// the failure that rejects it. A flaw of a date bound is named before one
/// of the limit or the offset.
pub open spec fn is_search_plan(
    planned: Result<EpicCall, EpicSearchFailure>,
    params: SearchEpicsParams,
    earliest: Option<Seq<char>>,
    latest: Option<Seq<char>>,
) -> bool {
    match planned {
        Ok(call) => {
            &&& search_flaw(params, earliest, latest) is None
            &&& admissible(params.limit, params.offset)
            &&& call matches StoreCall::Search(query)
            &&& is_query_of(query, texts(params.epics_ids@), params.limit, params.offset)
            &&& text(query.filter.column_id) == text(params.column_id)
            &&& query.filter.min_start_date == bound_at(params.min_start_date)
            &&& query.filter.max_due_date == bound_at(params.max_due_date)
        },
        Err(failure) => match search_flaw(params, earliest, latest) {
            Some(reason) => failure@ == search_failure::<Epic, SearchEpicsParamsView>(
                params@,
                texts(params.epics_ids@),
                invalid_status(reason),
                reason,
            ),
            None => {
                &&& !admissible(params.limit, params.offset)
                &&& failure@ == out_of_range::<Epic, SearchEpicsParamsView>(
                    params@,
                    texts(params.epics_ids@),
                    params.limit,
                )
            },
        },
    }
}

/// The epic service. Each operation has two halves: `plan_` turns the request
/// into the one operation that is handed to the store, or rejects it, and the
/// function named after the operation turns what the store returned into the
/// reply.
pub struct EpicsController;

impl EpicsController {
    /// The store operation of a look-up by id.
    pub fn plan_get_epic_by_id(request: &EpicId) -> (call: EpicCall)
        ensures
            call matches StoreCall::Fetch { id } && id@ == request.epic_id@,
    {
        StoreCall::Fetch { id: request.epic_id.clone() }
    }

    /// The reply to a look-up by id, which the store answered with `found`.
    pub fn get_epic_by_id(
        request: &EpicId,
        found: Result<Vec<Epic>, StoreError>,
    ) -> (reply: EpicReply)
        ensures
            reply@ == fetched_reply::<Epic>(Epic::bare(request.epic_id@), rows_view(found)),
    {
        fetched(Epic::placeholder(&request.epic_id), found)
    }

    /// The store operation of a search, given what the calendar says of the
    /// two date bounds; or the failure that rejects the request.
    pub fn plan_search_epics_from(
        params: &SearchEpicsParams,
        earliest: Option<String>,
        latest: Option<String>,
    ) -> (planned: Result<EpicCall, EpicSearchFailure>)
        ensures
            is_search_plan(planned, *params, text(earliest), text(latest)),
    {
        if params.min_start_date.is_some() && earliest.is_none() {
            return Err(
                reject_search::<Epic, SearchEpicsParams>(
                    params.duplicate(),
                    &params.epics_ids,
                    "min_start_date is out of range",
                ),
            );
        }
        if params.max_due_date.is_some() && latest.is_none() {
            return Err(
                reject_search::<Epic, SearchEpicsParams>(
                    params.duplicate(),
                    &params.epics_ids,
                    "max_due_date is out of range",
                ),
            );
        }
        let filter = EpicFilter {
            column_id: copy_text(&params.column_id),
            min_start_date: match &params.min_start_date {
                Some(stamp) => stamp.exact(),
                None => None,
            },
            max_due_date: match &params.max_due_date {
                Some(stamp) => stamp.exact(),
                None => None,
            },
        };
        let planned = plan::<Epic, EpicFilter, SearchEpicsParams>(
            params.duplicate(),
            &params.epics_ids,
            filter,
            params.limit,
            params.offset,
        );
        match planned {
            Ok(query) => Ok(StoreCall::Search(query)),
            Err(failure) => Err(failure),
        }
    }

    /// The store operation of a search, or the failure that rejects a request
    /// with a date bound that no instant stands for, or with a limit or an
    /// offset that the store cannot take.
    pub fn plan_search_epics(
        params: &SearchEpicsParams,
    ) -> (planned: Result<EpicCall, EpicSearchFailure>)
        ensures
            is_search_plan(
                planned,
                *params,
                exact_reading(params.min_start_date),
                exact_reading(params.max_due_date),
            ),
    {
        Self::plan_search_epics_from(
            params,
            read_exact(&params.min_start_date),
            read_exact(&params.max_due_date),
        )
    }

    /// What a search ends in once the store has answered with `found`: the
    /// emitter of the stream, or the failure.
    pub fn search_epics(
        params: &SearchEpicsParams,
        found: Result<Vec<Epic>, StoreError>,
    ) -> (reply: Result<EpicStream, EpicSearchFailure>)
        ensures
            search_view(reply) == searched_reply::<Epic, SearchEpicsParamsView>(
                params@,
                texts(params.epics_ids@),
                rows_view(found),
            ),
    {
        searched(params.duplicate(), &params.epics_ids, found)
    }

    /// What a create request tells of the epic, given what the calendar says
    /// of its two dates.
    pub fn create_payload(
        request: &CreateEpicRequest,
        start: Option<String>,
        due: Option<String>,
    ) -> (known: PartialEpic)
        ensures
            known@ == create_known(*request, text(start), text(due)),
    {
        PartialEpic {
            id: None,
            column_id: copy_text(&request.column_id),
            assignee_id: copy_text(&request.assignee_id),
            reporter_id: Some(request.reporter_id.clone()),
            name: Some(request.name.clone()),
            description: copy_text(&request.description),
            start_date: start,
            due_date: due,
        }
    }

    /// The store operation of a create under the id `id`, given what the
    /// calendar says of the two dates of the request; or the reply that
    /// rejects a request with a flaw before any store call.
    pub fn plan_create_epic_from(
        request: &CreateEpicRequest,
        id: String,
        start: Option<String>,
        due: Option<String>,
    ) -> (planned: Result<EpicCall, EpicReply>)
        ensures
            is_create_plan(planned, *request, id@, text(start), text(due)),
    {
        let column_id = match &request.column_id {
            Some(column_id) => column_id.clone(),
            None => {
                let known = Self::create_payload(request, start, due);
                return Err(rejected(known, "column_id is missing"));
            },
        };
        let start_date = match &request.start_date {
            Some(stamp) => stamp.to_the_second(),
            None => {
                let known = Self::create_payload(request, start, due);
                return Err(rejected(known, "start_date is missing"));
            },
        };
        if start.is_none() {
            let known = Self::create_payload(request, start, due);
            return Err(rejected(known, "start_date is out of range"));
        }
        let due_date = match &request.due_date {
            Some(stamp) => stamp.to_the_second(),
            None => {
                let known = Self::create_payload(request, start, due);
                return Err(rejected(known, "due_date is missing"));
            },
        };
        if due.is_none() {
            let known = Self::create_payload(request, start, due);
            return Err(rejected(known, "due_date is out of range"));
        }
        Ok(
            StoreCall::Insert(
                NewEpic {
                    id,
                    column_id,
                    assignee_id: copy_text(&request.assignee_id),
                    reporter_id: request.reporter_id.clone(),
                    name: request.name.clone(),
                    description: copy_text(&request.description),
                    start_date,
                    due_date,
                },
            ),
        )
    }

    /// The store operation of a create under the id `id`, or the reply that
    /// rejects a request with a flaw.
    pub fn plan_create_epic_with(
        request: &CreateEpicRequest,
        id: String,
    ) -> (planned: Result<EpicCall, EpicReply>)
        ensures
            is_create_plan(
                planned,
                *request,
                id@,
                reading_to_the_second(request.start_date),
                reading_to_the_second(request.due_date),
            ),
    {
        Self::plan_create_epic_from(
            request,
            id,
            read_to_the_second(&request.start_date),
            read_to_the_second(&request.due_date),
        )
    }

    /// The store operation of a create, under an id that is minted for the
    /// epic before the store is called; or the reply that rejects a request
    /// with a flaw.
    pub fn plan_create_epic(
        request: &CreateEpicRequest,
    ) -> (planned: Result<EpicCall, EpicReply>)
        ensures
            match planned {
                Ok(call) => call matches StoreCall::Insert(draft) && {
                    &&& is_uuid_text(draft.id@)
                    &&& is_create_call(
                        call,
                        *request,
                        draft.id@,
                        reading_to_the_second(request.start_date),
                        reading_to_the_second(request.due_date),
                    )
                },
                Err(reply) => is_create_rejection(
                    reply,
                    *request,
                    reading_to_the_second(request.start_date),
                    reading_to_the_second(request.due_date),
                ),
            },
    {
        Self::plan_create_epic_with(request, mint_id())
    }

    /// The reply to a create request, for which the insert statement returned
    /// `inserted`. The event of a failure holds the fields of the request: the
    /// id was no part of it.
    pub fn create_epic(
        request: &CreateEpicRequest,
        inserted: Result<Vec<Epic>, StoreError>,
    ) -> (reply: EpicReply)
        ensures
            reply@ == created_reply::<Epic>(
                create_known(
                    *request,
                    reading_to_the_second(request.start_date),
                    reading_to_the_second(request.due_date),
                ),
                first_row(rows_view(inserted)),
            ),
    {
        let known = Self::create_payload(
            request,
            read_to_the_second(&request.start_date),
            read_to_the_second(&request.due_date),
        );
        created(known, Epic::create(inserted))
    }

    /// What an update request tells of the epic, given what the calendar
    /// says of the dates that it names.
    pub fn update_payload(
        request: &UpdateEpicRequest,
        start: Option<String>,
        due: Option<String>,
    ) -> (known: PartialEpic)
        ensures
            known@ == update_known(*request, text(start), text(due)),
    {
        PartialEpic {
            id: Some(request.epic_id.clone()),
            column_id: copy_text(&request.column_id),
            assignee_id: request.assignee_id.value(),
            reporter_id: copy_text(&request.reporter_id),
            name: copy_text(&request.name),
            description: request.description.value(),
            start_date: start,
            due_date: due,
        }
    }

    /// The store operation of an update, given what the calendar says of the
    /// dates that the request names. The changeset holds the fields that the
    /// request names; a request that names no field changes nothing, so it
    /// becomes a look-up of the row; a request that names a date for which
    /// the calendar has none is rejected before any store call.
    pub fn plan_update_epic_from(
        request: &UpdateEpicRequest,
        start: Option<String>,
        due: Option<String>,
    ) -> (planned: Result<EpicCall, EpicReply>)
        ensures
            is_update_plan(planned, *request, text(start), text(due)),
    {
        if request.start_date.is_some() && start.is_none() {
            let known = Self::update_payload(request, start, due);
            return Err(rejected(known, "start_date is out of range"));
        }
        if request.due_date.is_some() && due.is_none() {
            let known = Self::update_payload(request, start, due);
            return Err(rejected(known, "due_date is out of range"));
        }
        let changes = EpicChangeSet {
            column_id: copy_text(&request.column_id),
            assignee_id: request.assignee_id.duplicate(),
            name: copy_text(&request.name),
            reporter_id: copy_text(&request.reporter_id),
            description: request.description.duplicate(),
            start_date: match &request.start_date {
                Some(stamp) => Some(stamp.to_the_second()),
                None => None,
            },
            due_date: match &request.due_date {
                Some(stamp) => Some(stamp.to_the_second()),
                None => None,
            },
        };
        if changes.names_nothing() {
            Ok(StoreCall::Fetch { id: request.epic_id.clone() })
        } else {
            Ok(StoreCall::Update { id: request.epic_id.clone(), changes })
        }
    }

    /// The store operation of an update, or the reply that rejects a request
    /// that names a date for which the calendar has none.
    pub fn plan_update_epic(
        request: &UpdateEpicRequest,
    ) -> (planned: Result<EpicCall, EpicReply>)
        ensures
            is_update_plan(
                planned,
                *request,
                reading_to_the_second(request.start_date),
                reading_to_the_second(request.due_date),
            ),
    {
        Self::plan_update_epic_from(
            request,
            read_to_the_second(&request.start_date),
            read_to_the_second(&request.due_date),
        )
    }

    /// The reply to an update request, for which the store returned `updated`.
    /// The event of a failure holds the id and the fields that the request
    /// named.
    pub fn update_epic(
        request: &UpdateEpicRequest,
        updated: Result<Vec<Epic>, StoreError>,
    ) -> (reply: EpicReply)
        ensures
            reply@ == changed_reply::<Epic>(
                update_known(
                    *request,
                    reading_to_the_second(request.start_date),
                    reading_to_the_second(request.due_date),
                ),
                first_row(rows_view(updated)),
            ),
    {
        let known = Self::update_payload(
            request,
            read_to_the_second(&request.start_date),
            read_to_the_second(&request.due_date),
        );
        changed(known, Epic::update(updated))
    }

    /// The store operation of a delete.
    pub fn plan_delete_epic(request: &EpicId) -> (call: EpicCall)
        ensures
            call matches StoreCall::Delete { id } && id@ == request.epic_id@,
    {
        StoreCall::Delete { id: request.epic_id.clone() }
    }

    /// The reply to a delete request, for which the delete statement returned
    /// `deleted`: the epic as it was before it was removed.
    pub fn delete_epic(
        request: &EpicId,
        deleted: Result<Vec<Epic>, StoreError>,
    ) -> (reply: EpicReply)
        ensures
            reply@ == changed_reply::<Epic>(
                Epic::bare(request.epic_id@),
                first_row(rows_view(deleted)),
            ),
    {
        changed(Epic::placeholder(&request.epic_id), Epic::delete(deleted))
    }
}

} // verus!
