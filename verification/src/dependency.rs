//! Dependencies: one epic blocks another.

use vstd::prelude::*;
use crate::event::{
    changed, changed_reply, created, created_reply, fetched, fetched_reply, first_row, row_view,
    rows_view, take_first, Reply,
};
use crate::ident::{is_uuid_text, mint_id};
use crate::record::{
    agrees, copy_text, copy_texts, meets, text, texts, Changes, Criteria, Draft, Entity,
};
use crate::search::{
    admissible, is_query_of, out_of_range, plan, search_view, searched, searched_reply, Query,
    SearchFailure,
};
use crate::store::{StoreCall, StoreError};
use crate::stream::Emitter;

verus! {

/// A stored dependency.
#[derive(Debug, PartialEq, Eq)]
pub struct Dependency {
    pub id: String,
    pub blocking_epic_id: String,
    pub blocked_epic_id: String,
}

/// The model of a [`Dependency`].
pub struct DependencyView {
    pub id: Seq<char>,
    pub blocking_epic_id: Seq<char>,
    pub blocked_epic_id: Seq<char>,
}

impl View for Dependency {
    type V = DependencyView;

    open spec fn view(&self) -> DependencyView {
        DependencyView {
            id: self.id@,
            blocking_epic_id: self.blocking_epic_id@,
            blocked_epic_id: self.blocked_epic_id@,
        }
    }
}

/// A dependency in an outcome event: every field is optional, so that an event
/// can tell what little was known of a dependency when a call failed.
#[derive(Debug, PartialEq, Eq)]
pub struct PartialDependency {
    pub id: Option<String>,
    pub blocking_epic_id: Option<String>,
    pub blocked_epic_id: Option<String>,
}

/// The model of a [`PartialDependency`].
pub struct PartialDependencyView {
    pub id: Option<Seq<char>>,
    pub blocking_epic_id: Option<Seq<char>>,
    pub blocked_epic_id: Option<Seq<char>>,
}

impl View for PartialDependency {
    type V = PartialDependencyView;

    open spec fn view(&self) -> PartialDependencyView {
        PartialDependencyView {
            id: text(self.id),
            blocking_epic_id: text(self.blocking_epic_id),
            blocked_epic_id: text(self.blocked_epic_id),
        }
    }
}

impl Entity for Dependency {
    type Partial = PartialDependency;

    open spec fn key(row: DependencyView) -> Seq<char> {
        row.id
    }

    open spec fn whole(row: DependencyView) -> PartialDependencyView {
        PartialDependencyView {
            id: Some(row.id),
            blocking_epic_id: Some(row.blocking_epic_id),
            blocked_epic_id: Some(row.blocked_epic_id),
        }
    }

    open spec fn bare(id: Seq<char>) -> PartialDependencyView {
        PartialDependencyView {
            id: Some(id),
            blocking_epic_id: None,
            blocked_epic_id: None,
        }
    }

    open spec fn missing_text() -> Seq<char> {
        "Dependency not found"@
    }

    fn id(&self) -> (id: &String) {
        &self.id
    }

    fn duplicate(&self) -> (copy: Dependency) {
        Dependency {
            id: self.id.clone(),
            blocking_epic_id: self.blocking_epic_id.clone(),
            blocked_epic_id: self.blocked_epic_id.clone(),
        }
    }

    fn snapshot(&self) -> (partial: PartialDependency) {
        PartialDependency {
            id: Some(self.id.clone()),
            blocking_epic_id: Some(self.blocking_epic_id.clone()),
            blocked_epic_id: Some(self.blocked_epic_id.clone()),
        }
    }

    fn placeholder(id: &String) -> (partial: PartialDependency) {
        PartialDependency {
            id: Some(id.clone()),
            blocking_epic_id: None,
            blocked_epic_id: None,
        }
    }

    fn missing() -> (message: String) {
        "Dependency not found".to_owned()
    }
}

/// A dependency to insert.
#[derive(Debug, PartialEq, Eq)]
pub struct NewDependency {
    pub id: String,
    pub blocking_epic_id: String,
    pub blocked_epic_id: String,
}

impl Draft<Dependency> for NewDependency {
    open spec fn row(self) -> DependencyView {
        DependencyView {
            id: self.id@,
            blocking_epic_id: self.blocking_epic_id@,
            blocked_epic_id: self.blocked_epic_id@,
        }
    }

    fn into_row(self) -> (row: Dependency) {
        Dependency {
            id: self.id,
            blocking_epic_id: self.blocking_epic_id,
            blocked_epic_id: self.blocked_epic_id,
        }
    }
}

/// The fields of a dependency that an update may change. A field that is `None`
/// stays as it is.
#[derive(Debug, PartialEq, Eq)]
pub struct DependencyChangeSet {
    pub blocking_epic_id: Option<String>,
    pub blocked_epic_id: Option<String>,
}

impl Changes<Dependency> for DependencyChangeSet {
    open spec fn applied(self, row: DependencyView) -> DependencyView {
        DependencyView {
            id: row.id,
            blocking_epic_id: match self.blocking_epic_id {
                Some(s) => s@,
                None => row.blocking_epic_id,
            },
            blocked_epic_id: match self.blocked_epic_id {
                Some(s) => s@,
                None => row.blocked_epic_id,
            },
        }
    }

    open spec fn is_empty(self) -> bool {
        &&& self.blocking_epic_id is None
        &&& self.blocked_epic_id is None
    }

    fn apply(&self, row: &Dependency) -> (changed: Dependency) {
        Dependency {
            id: row.id.clone(),
            blocking_epic_id: match &self.blocking_epic_id {
                Some(s) => s.clone(),
                None => row.blocking_epic_id.clone(),
            },
            blocked_epic_id: match &self.blocked_epic_id {
                Some(s) => s.clone(),
                None => row.blocked_epic_id.clone(),
            },
        }
    }

    fn names_nothing(&self) -> (empty: bool) {
        self.blocking_epic_id.is_none() && self.blocked_epic_id.is_none()
    }

    proof fn keeps_key(self, row: DependencyView) {
    }

    proof fn empty_keeps_row(self, row: DependencyView) {
    }
}

/// The predicates of a dependency search beside the id filter: each one that is
/// present asks a field to equal a value.
#[derive(Debug, PartialEq, Eq)]
pub struct DependencyFilter {
    pub blocking_epic_id: Option<String>,
    pub blocked_epic_id: Option<String>,
}

impl Criteria<Dependency> for DependencyFilter {
    open spec fn admits(self, row: DependencyView) -> bool {
        &&& agrees(text(self.blocking_epic_id), row.blocking_epic_id)
        &&& agrees(text(self.blocked_epic_id), row.blocked_epic_id)
    }

    open spec fn is_open(self) -> bool {
        &&& self.blocking_epic_id is None
        &&& self.blocked_epic_id is None
    }

    fn test(&self, row: &Dependency) -> (admitted: bool) {
        meets(&self.blocking_epic_id, &row.blocking_epic_id)
            && meets(&self.blocked_epic_id, &row.blocked_epic_id)
    }

    proof fn open_admits_all(self, row: DependencyView) {
    }
}

/// Inserting a dependency: the row that the insert statement returned is the
/// stored dependency.
pub trait CreateDependency {
    fn create(
        inserted: Result<Vec<Dependency>, StoreError>,
    ) -> (stored: Result<Dependency, StoreError>)
        ensures
            row_view(stored) == first_row(rows_view(inserted)),
    ;
}

impl CreateDependency for Dependency {
    fn create(
        inserted: Result<Vec<Dependency>, StoreError>,
    ) -> (stored: Result<Dependency, StoreError>) {
        take_first(inserted)
    }
}

/// Updating a dependency: the row that the update statement returned, or
/// not-found where it met no row.
pub trait UpdateDependency {
    fn update(
        updated: Result<Vec<Dependency>, StoreError>,
    ) -> (stored: Result<Dependency, StoreError>)
        ensures
            row_view(stored) == first_row(rows_view(updated)),
    ;
}

impl UpdateDependency for Dependency {
    fn update(
        updated: Result<Vec<Dependency>, StoreError>,
    ) -> (stored: Result<Dependency, StoreError>) {
        take_first(updated)
    }
}

/// Deleting a dependency: the row that the delete statement returned, which is
/// the dependency as it was before, or not-found where it met no row.
pub trait DeleteDependency {
    fn delete(
        deleted: Result<Vec<Dependency>, StoreError>,
    ) -> (removed: Result<Dependency, StoreError>)
        ensures
            row_view(removed) == first_row(rows_view(deleted)),
    ;
}

impl DeleteDependency for Dependency {
    fn delete(
        deleted: Result<Vec<Dependency>, StoreError>,
    ) -> (removed: Result<Dependency, StoreError>) {
        take_first(deleted)
    }
}

/// The request for one dependency by its id.
#[derive(Debug, PartialEq, Eq)]
pub struct DependencyId {
    pub dependency_id: String,
}

/// The request to create a dependency.
#[derive(Debug, PartialEq, Eq)]
pub struct CreateDependencyRequest {
    pub blocking_epic_id: String,
    pub blocked_epic_id: String,
}

/// The request to update a dependency: a field that is `None` stays as
/// it is.
#[derive(Debug, PartialEq, Eq)]
pub struct UpdateDependencyRequest {
    pub dependency_id: String,
    pub blocking_epic_id: Option<String>,
    pub blocked_epic_id: Option<String>,
}

/// The parameters of a dependency search. An empty list of ids is no id filter.
#[derive(Debug, PartialEq, Eq)]
pub struct SearchDependenciesParams {
    pub dependencies_ids: Vec<String>,
    pub blocking_epic_id: Option<String>,
    pub blocked_epic_id: Option<String>,
    pub limit: Option<u64>,
    pub offset: Option<u64>,
}

/// The model of [`SearchDependenciesParams`].
pub struct SearchDependenciesParamsView {
    pub dependencies_ids: Seq<Seq<char>>,
    pub blocking_epic_id: Option<Seq<char>>,
    pub blocked_epic_id: Option<Seq<char>>,
    pub limit: Option<u64>,
    pub offset: Option<u64>,
}

impl View for SearchDependenciesParams {
    type V = SearchDependenciesParamsView;

    open spec fn view(&self) -> SearchDependenciesParamsView {
        SearchDependenciesParamsView {
            dependencies_ids: texts(self.dependencies_ids@),
            blocking_epic_id: text(self.blocking_epic_id),
            blocked_epic_id: text(self.blocked_epic_id),
            limit: self.limit,
            offset: self.offset,
        }
    }
}

impl SearchDependenciesParams {
    /// A copy of the parameters.
    pub fn duplicate(&self) -> (copy: Self)
        ensures
            copy@ == self@,
    {
        SearchDependenciesParams {
            dependencies_ids: copy_texts(&self.dependencies_ids),
            blocking_epic_id: copy_text(&self.blocking_epic_id),
            blocked_epic_id: copy_text(&self.blocked_epic_id),
            limit: self.limit,
            offset: self.offset,
        }
    }
}

/// The one operation that a dependency call hands to the store.
pub type DependencyCall = StoreCall<NewDependency, DependencyChangeSet, DependencyFilter>;

/// What a unary dependency call ends with.
pub type DependencyReply = Reply<Dependency, PartialDependency>;

/// The producer side of a streamed dependency search.
pub type DependencyStream = Emitter<Dependency, SearchDependenciesParams>;

/// A dependency search that ended before any record was streamed.
pub type DependencySearchFailure = SearchFailure<PartialDependency, SearchDependenciesParams>;

/// The dependency service. Each operation has two halves: `plan_` turns the request
/// into the one operation that is handed to the store, and the function named
/// after the operation turns what the store returned into the reply.
pub struct DependenciesController;

impl DependenciesController {
    /// The store operation of a look-up by id.
    pub fn plan_get_dependency_by_id(request: &DependencyId) -> (call: DependencyCall)
        ensures
            call matches StoreCall::Fetch { id } && id@ == request.dependency_id@,
    {
        StoreCall::Fetch { id: request.dependency_id.clone() }
    }

    /// The reply to a look-up by id, which the store answered with `found`.
    pub fn get_dependency_by_id(
        request: &DependencyId,
        found: Result<Vec<Dependency>, StoreError>,
    ) -> (reply: DependencyReply)
        ensures
            reply@ == fetched_reply::<Dependency>(
                Dependency::bare(request.dependency_id@),
                rows_view(found),
            ),
    {
        fetched(Dependency::placeholder(&request.dependency_id), found)
    }

    /// The store operation of a search, or the failure that rejects a request
    /// whose limit or offset the store cannot take.
    pub fn plan_search_dependencies(
        params: &SearchDependenciesParams,
    ) -> (planned: Result<DependencyCall, DependencySearchFailure>)
        ensures
            match planned {
                Ok(call) => {
                    &&& admissible(params.limit, params.offset)
                    &&& call matches StoreCall::Search(query)
                    &&& is_query_of(
                        query,
                        texts(params.dependencies_ids@),
                        params.limit,
                        params.offset,
                    )
                    &&& text(query.filter.blocking_epic_id) == text(params.blocking_epic_id)
                    &&& text(query.filter.blocked_epic_id) == text(params.blocked_epic_id)
                },
                Err(failure) => {
                    &&& !admissible(params.limit, params.offset)
                    &&& failure@ == out_of_range::<Dependency, SearchDependenciesParamsView>(
                        params@,
                        texts(params.dependencies_ids@),
                        params.limit,
                    )
                },
            },
    {
        let filter = DependencyFilter {
            blocking_epic_id: copy_text(&params.blocking_epic_id),
            blocked_epic_id: copy_text(&params.blocked_epic_id),
        };
        let planned = plan::<Dependency, DependencyFilter, SearchDependenciesParams>(
            params.duplicate(),
            &params.dependencies_ids,
            filter,
            params.limit,
            params.offset,
        );
        match planned {
            Ok(query) => Ok(StoreCall::Search(query)),
            Err(failure) => Err(failure),
        }
    }

    /// What a search ends in once the store has answered with `found`: the
    /// emitter of the stream, or the failure.
    pub fn search_dependencies(
        params: &SearchDependenciesParams,
        found: Result<Vec<Dependency>, StoreError>,
    ) -> (reply: Result<DependencyStream, DependencySearchFailure>)
        ensures
            search_view(reply) == searched_reply::<Dependency, SearchDependenciesParamsView>(
                params@,
                texts(params.dependencies_ids@),
                rows_view(found),
            ),
    {
        searched(params.duplicate(), &params.dependencies_ids, found)
    }

    /// The store operation of a create: the insert of the dependency that the
    /// request describes, under the id `id`.
    pub fn plan_create_dependency_with(
        request: &CreateDependencyRequest,
        id: String,
    ) -> (call: DependencyCall)
        ensures
            call matches StoreCall::Insert(draft) && draft.row() == (DependencyView {
                id: id@,
                blocking_epic_id: request.blocking_epic_id@,
                blocked_epic_id: request.blocked_epic_id@,
            }),
    {
        StoreCall::Insert(NewDependency {
            id,
            blocking_epic_id: request.blocking_epic_id.clone(),
            blocked_epic_id: request.blocked_epic_id.clone(),
        })
    }

    /// The store operation of a create, under an id that is minted for the
    /// dependency before the store is called.
    pub fn plan_create_dependency(request: &CreateDependencyRequest) -> (call: DependencyCall)
        ensures
            call matches StoreCall::Insert(draft) && {
                &&& is_uuid_text(draft.id@)
                &&& draft.row() == (DependencyView {
                    id: draft.id@,
                    blocking_epic_id: request.blocking_epic_id@,
                    blocked_epic_id: request.blocked_epic_id@,
                })
            },
    {
        Self::plan_create_dependency_with(request, mint_id())
    }

    /// The reply to a create request, for which the insert statement returned
    /// `inserted`. The event of a failure holds the fields of the request: the
    /// id was no part of it.
    pub fn create_dependency(
        request: &CreateDependencyRequest,
        inserted: Result<Vec<Dependency>, StoreError>,
    ) -> (reply: DependencyReply)
        ensures
            reply@ == created_reply::<Dependency>(
                PartialDependencyView {
                    id: None,
                    blocking_epic_id: Some(request.blocking_epic_id@),
                    blocked_epic_id: Some(request.blocked_epic_id@),
                },
                first_row(rows_view(inserted)),
            ),
    {
        let known = PartialDependency {
            id: None,
            blocking_epic_id: Some(request.blocking_epic_id.clone()),
            blocked_epic_id: Some(request.blocked_epic_id.clone()),
        };
        created(known, Dependency::create(inserted))
    }

    /// The store operation of an update: the changeset holds the fields that
    /// the request names. A request that names no field changes nothing, so
    /// it becomes a look-up of the row.
    pub fn plan_update_dependency(request: &UpdateDependencyRequest) -> (call: DependencyCall)
        ensures
            match call {
                StoreCall::Update { id, changes } => {
                    &&& id@ == request.dependency_id@
                    &&& !changes.is_empty()
                    &&& text(changes.blocking_epic_id) == text(request.blocking_epic_id)
                    &&& text(changes.blocked_epic_id) == text(request.blocked_epic_id)
                },
                StoreCall::Fetch { id } => {
                    &&& id@ == request.dependency_id@
                    &&& request.blocking_epic_id is None
                    &&& request.blocked_epic_id is None
                },
                _ => false,
            },
    {
        let changes = DependencyChangeSet {
            blocking_epic_id: copy_text(&request.blocking_epic_id),
            blocked_epic_id: copy_text(&request.blocked_epic_id),
        };
        if changes.names_nothing() {
            StoreCall::Fetch { id: request.dependency_id.clone() }
        } else {
            StoreCall::Update { id: request.dependency_id.clone(), changes }
        }
    }

    /// The reply to an update request, for which the store returned `updated`.
    /// The event of a failure holds the id and the fields that the request
    /// named.
    pub fn update_dependency(
        request: &UpdateDependencyRequest,
        updated: Result<Vec<Dependency>, StoreError>,
    ) -> (reply: DependencyReply)
        ensures
            reply@ == changed_reply::<Dependency>(
                PartialDependencyView {
                    id: Some(request.dependency_id@),
                    blocking_epic_id: text(request.blocking_epic_id),
                    blocked_epic_id: text(request.blocked_epic_id),
                },
                first_row(rows_view(updated)),
            ),
    {
        let known = PartialDependency {
            id: Some(request.dependency_id.clone()),
            blocking_epic_id: copy_text(&request.blocking_epic_id),
            blocked_epic_id: copy_text(&request.blocked_epic_id),
        };
        changed(known, Dependency::update(updated))
    }

    /// The store operation of a delete.
    pub fn plan_delete_dependency(request: &DependencyId) -> (call: DependencyCall)
        ensures
            call matches StoreCall::Delete { id } && id@ == request.dependency_id@,
    {
        StoreCall::Delete { id: request.dependency_id.clone() }
    }

    /// The reply to a delete request, for which the delete statement returned
    /// `deleted`: the dependency as it was before it was removed.
    pub fn delete_dependency(
        request: &DependencyId,
        deleted: Result<Vec<Dependency>, StoreError>,
    ) -> (reply: DependencyReply)
        ensures
            reply@ == changed_reply::<Dependency>(
                Dependency::bare(request.dependency_id@),
                first_row(rows_view(deleted)),
            ),
    {
        changed(Dependency::placeholder(&request.dependency_id), Dependency::delete(deleted))
    }
}

} // verus!
