//! Issues: an issue stands in a column and belongs to an epic.

use vstd::prelude::*;
use crate::event::{
    changed, changed_reply, created, created_reply, fetched, fetched_reply, first_row, row_view,
    rows_view, take_first, Reply,
};
use crate::ident::{is_uuid_text, mint_id};
use crate::record::{
    agrees, copy_text, copy_texts, meets, text, texts, Changes, Criteria, Draft, Entity,
};
use crate::search::{
    admissible, is_query_of, out_of_range, plan, search_view, searched, searched_reply, Query,
    SearchFailure,
};
use crate::store::{StoreCall, StoreError};
use crate::stream::Emitter;

verus! {

/// A stored issue.
#[derive(Debug, PartialEq, Eq)]
pub struct Issue {
    pub id: String,
    pub column_id: String,
    pub epic_id: String,
    pub title: String,
    pub description: String,
}

/// The model of an [`Issue`].
pub struct IssueView {
    pub id: Seq<char>,
    pub column_id: Seq<char>,
    pub epic_id: Seq<char>,
    pub title: Seq<char>,
    pub description: Seq<char>,
}

impl View for Issue {
    type V = IssueView;

    open spec fn view(&self) -> IssueView {
        IssueView {
            id: self.id@,
            column_id: self.column_id@,
            epic_id: self.epic_id@,
            title: self.title@,
            description: self.description@,
        }
    }
}

/// An issue in an outcome event: every field is optional, so that an event
/// can tell what little was known of an issue when a call failed.
#[derive(Debug, PartialEq, Eq)]
pub struct PartialIssue {
    pub id: Option<String>,
    pub column_id: Option<String>,
    pub epic_id: Option<String>,
    pub title: Option<String>,
    pub description: Option<String>,
}

/// The model of a [`PartialIssue`].
pub struct PartialIssueView {
    pub id: Option<Seq<char>>,
    pub column_id: Option<Seq<char>>,
    pub epic_id: Option<Seq<char>>,
    pub title: Option<Seq<char>>,
    pub description: Option<Seq<char>>,
}

impl View for PartialIssue {
    type V = PartialIssueView;

    open spec fn view(&self) -> PartialIssueView {
        PartialIssueView {
            id: text(self.id),
            column_id: text(self.column_id),
            epic_id: text(self.epic_id),
            title: text(self.title),
            description: text(self.description),
        }
    }
}

impl Entity for Issue {
    type Partial = PartialIssue;

    open spec fn key(row: IssueView) -> Seq<char> {
        row.id
    }

    open spec fn whole(row: IssueView) -> PartialIssueView {
        PartialIssueView {
            id: Some(row.id),
            column_id: Some(row.column_id),
            epic_id: Some(row.epic_id),
            title: Some(row.title),
            description: Some(row.description),
        }
    }

    open spec fn bare(id: Seq<char>) -> PartialIssueView {
        PartialIssueView {
            id: Some(id),
            column_id: None,
            epic_id: None,
            title: None,
            description: None,
        }
    }

    open spec fn missing_text() -> Seq<char> {
        "Issue not found"@
    }

    fn id(&self) -> (id: &String) {
        &self.id
    }

    fn duplicate(&self) -> (copy: Issue) {
        Issue {
            id: self.id.clone(),
            column_id: self.column_id.clone(),
            epic_id: self.epic_id.clone(),
            title: self.title.clone(),
            description: self.description.clone(),
        }
    }

    fn snapshot(&self) -> (partial: PartialIssue) {
        PartialIssue {
            id: Some(self.id.clone()),
            column_id: Some(self.column_id.clone()),
            epic_id: Some(self.epic_id.clone()),
            title: Some(self.title.clone()),
            description: Some(self.description.clone()),
        }
    }

    fn placeholder(id: &String) -> (partial: PartialIssue) {
        PartialIssue {
            id: Some(id.clone()),
            column_id: None,
            epic_id: None,
            title: None,
            description: None,
        }
    }

    fn missing() -> (message: String) {
        "Issue not found".to_owned()
    }
}

/// An issue to insert.
#[derive(Debug, PartialEq, Eq)]
pub struct NewIssue {
    pub id: String,
    pub column_id: String,
    pub epic_id: String,
    pub title: String,
    pub description: String,
}

impl Draft<Issue> for NewIssue {
    open spec fn row(self) -> IssueView {
        IssueView {
            id: self.id@,
            column_id: self.column_id@,
            epic_id: self.epic_id@,
            title: self.title@,
            description: self.description@,
        }
    }

    fn into_row(self) -> (row: Issue) {
        Issue {
            id: self.id,
            column_id: self.column_id,
            epic_id: self.epic_id,
            title: self.title,
            description: self.description,
        }
    }
}

/// The fields of an issue that an update may change. A field that is `None`
/// stays as it is.
#[derive(Debug, PartialEq, Eq)]
pub struct IssueChangeSet {
    pub column_id: Option<String>,
    pub epic_id: Option<String>,
    pub title: Option<String>,
    pub description: Option<String>,
}

impl Changes<Issue> for IssueChangeSet {
    open spec fn applied(self, row: IssueView) -> IssueView {
        IssueView {
            id: row.id,
            column_id: match self.column_id {
                Some(s) => s@,
                None => row.column_id,
            },
            epic_id: match self.epic_id {
                Some(s) => s@,
                None => row.epic_id,
            },
            title: match self.title {
                Some(s) => s@,
                None => row.title,
            },
            description: match self.description {
                Some(s) => s@,
                None => row.description,
            },
        }
    }

    open spec fn is_empty(self) -> bool {
        &&& self.column_id is None
        &&& self.epic_id is None
        &&& self.title is None
        &&& self.description is None
    }

    fn apply(&self, row: &Issue) -> (changed: Issue) {
        Issue {
            id: row.id.clone(),
            column_id: match &self.column_id {
                Some(s) => s.clone(),
                None => row.column_id.clone(),
            },
            epic_id: match &self.epic_id {
                Some(s) => s.clone(),
                None => row.epic_id.clone(),
            },
            title: match &self.title {
                Some(s) => s.clone(),
                None => row.title.clone(),
            },
            description: match &self.description {
                Some(s) => s.clone(),
                None => row.description.clone(),
            },
        }
    }

    fn names_nothing(&self) -> (empty: bool) {
        self.column_id.is_none()
            && self.epic_id.is_none()
            && self.title.is_none()
            && self.description.is_none()
    }

    proof fn keeps_key(self, row: IssueView) {
    }

    proof fn empty_keeps_row(self, row: IssueView) {
    }
}

/// The predicates of an issue search beside the id filter: each one that is
/// present asks a field to equal a value.
#[derive(Debug, PartialEq, Eq)]
pub struct IssueFilter {
    pub column_id: Option<String>,
    pub epic_id: Option<String>,
}

impl Criteria<Issue> for IssueFilter {
    open spec fn admits(self, row: IssueView) -> bool {
        &&& agrees(text(self.column_id), row.column_id)
        &&& agrees(text(self.epic_id), row.epic_id)
    }

    open spec fn is_open(self) -> bool {
        &&& self.column_id is None
        &&& self.epic_id is None
    }

    fn test(&self, row: &Issue) -> (admitted: bool) {
        meets(&self.column_id, &row.column_id)
            && meets(&self.epic_id, &row.epic_id)
    }

    proof fn open_admits_all(self, row: IssueView) {
    }
}

/// Inserting an issue: the row that the insert statement returned is the
/// stored issue.
pub trait CreateIssue {
    fn create(
        inserted: Result<Vec<Issue>, StoreError>,
    ) -> (stored: Result<Issue, StoreError>)
        ensures
            row_view(stored) == first_row(rows_view(inserted)),
    ;
}

impl CreateIssue for Issue {
    fn create(
        inserted: Result<Vec<Issue>, StoreError>,
    ) -> (stored: Result<Issue, StoreError>) {
        take_first(inserted)
    }
}

/// Updating an issue: the row that the update statement returned, or
/// not-found where it met no row.
pub trait UpdateIssue {
    fn update(
        updated: Result<Vec<Issue>, StoreError>,
    ) -> (stored: Result<Issue, StoreError>)
        ensures
            row_view(stored) == first_row(rows_view(updated)),
    ;
}

impl UpdateIssue for Issue {
    fn update(
        updated: Result<Vec<Issue>, StoreError>,
    ) -> (stored: Result<Issue, StoreError>) {
        take_first(updated)
    }
}

/// Deleting an issue: the row that the delete statement returned, which is
/// the issue as it was before, or not-found where it met no row.
pub trait DeleteIssue {
    fn delete(
        deleted: Result<Vec<Issue>, StoreError>,
    ) -> (removed: Result<Issue, StoreError>)
        ensures
            row_view(removed) == first_row(rows_view(deleted)),
    ;
}

impl DeleteIssue for Issue {
    fn delete(
        deleted: Result<Vec<Issue>, StoreError>,
    ) -> (removed: Result<Issue, StoreError>) {
        take_first(deleted)
    }
}

/// The request for one issue by its id.
#[derive(Debug, PartialEq, Eq)]
pub struct IssueId {
    pub issue_id: String,
}

/// The request to create an issue.
#[derive(Debug, PartialEq, Eq)]
pub struct CreateIssueRequest {
    pub column_id: String,
    pub epic_id: String,
    pub title: String,
    pub description: String,
}

/// The request to update an issue: a field that is `None` stays as it is.
#[derive(Debug, PartialEq, Eq)]
pub struct UpdateIssueRequest {
    pub issue_id: String,
    pub column_id: Option<String>,
    pub epic_id: Option<String>,
    pub title: Option<String>,
    pub description: Option<String>,
}

/// The parameters of an issue search. An empty list of ids is no id filter.
#[derive(Debug, PartialEq, Eq)]
pub struct SearchIssuesParams {
    pub issues_ids: Vec<String>,
    pub column_id: Option<String>,
    pub epic_id: Option<String>,
    pub limit: Option<u64>,
    pub offset: Option<u64>,
}

/// The model of [`SearchIssuesParams`].
pub struct SearchIssuesParamsView {
    pub issues_ids: Seq<Seq<char>>,
    pub column_id: Option<Seq<char>>,
    pub epic_id: Option<Seq<char>>,
    pub limit: Option<u64>,
    pub offset: Option<u64>,
}

impl View for SearchIssuesParams {
    type V = SearchIssuesParamsView;

    open spec fn view(&self) -> SearchIssuesParamsView {
        SearchIssuesParamsView {
            issues_ids: texts(self.issues_ids@),
            column_id: text(self.column_id),
            epic_id: text(self.epic_id),
            limit: self.limit,
            offset: self.offset,
        }
    }
}

impl SearchIssuesParams {
    /// A copy of the parameters.
    pub fn duplicate(&self) -> (copy: Self)
        ensures
            copy@ == self@,
    {
        SearchIssuesParams {
            issues_ids: copy_texts(&self.issues_ids),
            column_id: copy_text(&self.column_id),
            epic_id: copy_text(&self.epic_id),
            limit: self.limit,
            offset: self.offset,
        }
    }
}

/// The one operation that an issue call hands to the store.
pub type IssueCall = StoreCall<NewIssue, IssueChangeSet, IssueFilter>;

/// What a unary issue call ends with.
pub type IssueReply = Reply<Issue, PartialIssue>;

/// The producer side of a streamed issue search.
pub type IssueStream = Emitter<Issue, SearchIssuesParams>;

/// An issue search that ended before any record was streamed.
pub type IssueSearchFailure = SearchFailure<PartialIssue, SearchIssuesParams>;

/// The issue service. Each operation has two halves: `plan_` turns the request
/// into the one operation that is handed to the store, and the function named
/// after the operation turns what the store returned into the reply.
pub struct IssuesController;

impl IssuesController {
    /// The store operation of a look-up by id.
    pub fn plan_get_issue_by_id(request: &IssueId) -> (call: IssueCall)
        ensures
            call matches StoreCall::Fetch { id } && id@ == request.issue_id@,
    {
        StoreCall::Fetch { id: request.issue_id.clone() }
    }

    /// The reply to a look-up by id, which the store answered with `found`.
    pub fn get_issue_by_id(
        request: &IssueId,
        found: Result<Vec<Issue>, StoreError>,
    ) -> (reply: IssueReply)
        ensures
            reply@ == fetched_reply::<Issue>(
                Issue::bare(request.issue_id@),
                rows_view(found),
            ),
    {
        fetched(Issue::placeholder(&request.issue_id), found)
    }

    /// The store operation of a search, or the failure that rejects a request
    /// whose limit or offset the store cannot take.
    pub fn plan_search_issues(
        params: &SearchIssuesParams,
    ) -> (planned: Result<IssueCall, IssueSearchFailure>)
        ensures
            match planned {
                Ok(call) => {
                    &&& admissible(params.limit, params.offset)
                    &&& call matches StoreCall::Search(query)
                    &&& is_query_of(
                        query,
                        texts(params.issues_ids@),
                        params.limit,
                        params.offset,
                    )
                    &&& text(query.filter.column_id) == text(params.column_id)
                    &&& text(query.filter.epic_id) == text(params.epic_id)
                },
                Err(failure) => {
                    &&& !admissible(params.limit, params.offset)
                    &&& failure@ == out_of_range::<Issue, SearchIssuesParamsView>(
                        params@,
                        texts(params.issues_ids@),
                        params.limit,
                    )
                },
            },
    {
        let filter = IssueFilter {
            column_id: copy_text(&params.column_id),
            epic_id: copy_text(&params.epic_id),
        };
        let planned = plan::<Issue, IssueFilter, SearchIssuesParams>(
            params.duplicate(),
            &params.issues_ids,
            filter,
            params.limit,
            params.offset,
        );
        match planned {
            Ok(query) => Ok(StoreCall::Search(query)),
            Err(failure) => Err(failure),
        }
    }

    /// What a search ends in once the store has answered with `found`: the
    /// emitter of the stream, or the failure.
    pub fn search_issues(
        params: &SearchIssuesParams,
        found: Result<Vec<Issue>, StoreError>,
    ) -> (reply: Result<IssueStream, IssueSearchFailure>)
        ensures
            search_view(reply) == searched_reply::<Issue, SearchIssuesParamsView>(
                params@,
                texts(params.issues_ids@),
                rows_view(found),
            ),
    {
        searched(params.duplicate(), &params.issues_ids, found)
    }

    /// The store operation of a create: the insert of the issue that the
    /// request describes, under the id `id`.
    pub fn plan_create_issue_with(
        request: &CreateIssueRequest,
        id: String,
    ) -> (call: IssueCall)
        ensures
            call matches StoreCall::Insert(draft) && draft.row() == (IssueView {
                id: id@,
                column_id: request.column_id@,
                epic_id: request.epic_id@,
                title: request.title@,
                description: request.description@,
            }),
    {
        StoreCall::Insert(NewIssue {
            id,
            column_id: request.column_id.clone(),
            epic_id: request.epic_id.clone(),
            title: request.title.clone(),
            description: request.description.clone(),
        })
    }

    /// The store operation of a create, under an id that is minted for the
    /// issue before the store is called.
    pub fn plan_create_issue(request: &CreateIssueRequest) -> (call: IssueCall)
        ensures
            call matches StoreCall::Insert(draft) && {
                &&& is_uuid_text(draft.id@)
                &&& draft.row() == (IssueView {
                    id: draft.id@,
                    column_id: request.column_id@,
                    epic_id: request.epic_id@,
                    title: request.title@,
                    description: request.description@,
                })
            },
    {
        Self::plan_create_issue_with(request, mint_id())
    }

    /// The reply to a create request, for which the insert statement returned
    /// `inserted`. The event of a failure holds the fields of the request: the
    /// id was no part of it.
    pub fn create_issue(
        request: &CreateIssueRequest,
        inserted: Result<Vec<Issue>, StoreError>,
    ) -> (reply: IssueReply)
        ensures
            reply@ == created_reply::<Issue>(
                PartialIssueView {
                    id: None,
                    column_id: Some(request.column_id@),
                    epic_id: Some(request.epic_id@),
                    title: Some(request.title@),
                    description: Some(request.description@),
                },
                first_row(rows_view(inserted)),
            ),
    {
        let known = PartialIssue {
            id: None,
            column_id: Some(request.column_id.clone()),
            epic_id: Some(request.epic_id.clone()),
            title: Some(request.title.clone()),
            description: Some(request.description.clone()),
        };
        created(known, Issue::create(inserted))
    }

    /// The store operation of an update: the changeset holds the fields that
    /// the request names. A request that names no field changes nothing, so
    /// it becomes a look-up of the row.
    pub fn plan_update_issue(request: &UpdateIssueRequest) -> (call: IssueCall)
        ensures
            match call {
                StoreCall::Update { id, changes } => {
                    &&& id@ == request.issue_id@
                    &&& !changes.is_empty()
                    &&& text(changes.column_id) == text(request.column_id)
                    &&& text(changes.epic_id) == text(request.epic_id)
                    &&& text(changes.title) == text(request.title)
                    &&& text(changes.description) == text(request.description)
                },
                StoreCall::Fetch { id } => {
                    &&& id@ == request.issue_id@
                    &&& request.column_id is None
                    &&& request.epic_id is None
                    &&& request.title is None
                    &&& request.description is None
                },
                _ => false,
            },
    {
        let changes = IssueChangeSet {
            column_id: copy_text(&request.column_id),
            epic_id: copy_text(&request.epic_id),
            title: copy_text(&request.title),
            description: copy_text(&request.description),
        };
        if changes.names_nothing() {
            StoreCall::Fetch { id: request.issue_id.clone() }
        } else {
            StoreCall::Update { id: request.issue_id.clone(), changes }
        }
    }

    /// The reply to an update request, for which the store returned `updated`.
    /// The event of a failure holds the id and the fields that the request
    /// named.
    pub fn update_issue(
        request: &UpdateIssueRequest,
        updated: Result<Vec<Issue>, StoreError>,
    ) -> (reply: IssueReply)
        ensures
            reply@ == changed_reply::<Issue>(
                PartialIssueView {
                    id: Some(request.issue_id@),
                    column_id: text(request.column_id),
                    epic_id: text(request.epic_id),
                    title: text(request.title),
                    description: text(request.description),
                },
                first_row(rows_view(updated)),
            ),
    {
        let known = PartialIssue {
            id: Some(request.issue_id.clone()),
            column_id: copy_text(&request.column_id),
            epic_id: copy_text(&request.epic_id),
            title: copy_text(&request.title),
            description: copy_text(&request.description),
        };
        changed(known, Issue::update(updated))
    }

    /// The store operation of a delete.
    pub fn plan_delete_issue(request: &IssueId) -> (call: IssueCall)
        ensures
            call matches StoreCall::Delete { id } && id@ == request.issue_id@,
    {
        StoreCall::Delete { id: request.issue_id.clone() }
    }

    /// The reply to a delete request, for which the delete statement returned
    /// `deleted`: the issue as it was before it was removed.
    pub fn delete_issue(
        request: &IssueId,
        deleted: Result<Vec<Issue>, StoreError>,
    ) -> (reply: IssueReply)
        ensures
            reply@ == changed_reply::<Issue>(
                Issue::bare(request.issue_id@),
                first_row(rows_view(deleted)),
            ),
    {
        changed(Issue::placeholder(&request.issue_id), Issue::delete(deleted))
    }
}

} // verus!
