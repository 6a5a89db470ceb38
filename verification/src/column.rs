//! Columns: a column belongs to a board and has a name.

use vstd::prelude::*;
use crate::event::{
    changed, changed_reply, created, created_reply, fetched, fetched_reply, first_row, row_view,
    rows_view, take_first, Reply,
};
use crate::ident::{is_uuid_text, mint_id};
use crate::record::{
    agrees, copy_text, copy_texts, meets, text, texts, Changes, Criteria, Draft, Entity,
};
use crate::search::{
    admissible, is_query_of, out_of_range, plan, search_view, searched, searched_reply, Query,
    SearchFailure,
};
use crate::store::{StoreCall, StoreError};
use crate::stream::Emitter;

verus! {

/// A stored column.
#[derive(Debug, PartialEq, Eq)]
pub struct Column {
    pub id: String,
    pub board_id: String,
    pub name: String,
}

/// The model of a [`Column`].
pub struct ColumnView {
    pub id: Seq<char>,
    pub board_id: Seq<char>,
    pub name: Seq<char>,
}

impl View for Column {
    type V = ColumnView;

    open spec fn view(&self) -> ColumnView {
        ColumnView {
            id: self.id@,
            board_id: self.board_id@,
            name: self.name@,
        }
    }
}

/// A column in an outcome event: every field is optional, so that an event
/// can tell what little was known of a column when a call failed.
#[derive(Debug, PartialEq, Eq)]
pub struct PartialColumn {
    pub id: Option<String>,
    pub board_id: Option<String>,
    pub name: Option<String>,
}

/// The model of a [`PartialColumn`].
pub struct PartialColumnView {
    pub id: Option<Seq<char>>,
    pub board_id: Option<Seq<char>>,
    pub name: Option<Seq<char>>,
}

impl View for PartialColumn {
    type V = PartialColumnView;

    open spec fn view(&self) -> PartialColumnView {
        PartialColumnView {
            id: text(self.id),
            board_id: text(self.board_id),
            name: text(self.name),
        }
    }
}

impl Entity for Column {
    type Partial = PartialColumn;

    open spec fn key(row: ColumnView) -> Seq<char> {
        row.id
    }

    open spec fn whole(row: ColumnView) -> PartialColumnView {
        PartialColumnView {
            id: Some(row.id),
            board_id: Some(row.board_id),
            name: Some(row.name),
        }
    }

    open spec fn bare(id: Seq<char>) -> PartialColumnView {
        PartialColumnView {
            id: Some(id),
            board_id: None,
            name: None,
        }
    }

    open spec fn missing_text() -> Seq<char> {
        "Column not found"@
    }

    fn id(&self) -> (id: &String) {
        &self.id
    }

    fn duplicate(&self) -> (copy: Column) {
        Column {
            id: self.id.clone(),
            board_id: self.board_id.clone(),
            name: self.name.clone(),
        }
    }

    fn snapshot(&self) -> (partial: PartialColumn) {
        PartialColumn {
            id: Some(self.id.clone()),
            board_id: Some(self.board_id.clone()),
            name: Some(self.name.clone()),
        }
    }

    fn placeholder(id: &String) -> (partial: PartialColumn) {
        PartialColumn {
            id: Some(id.clone()),
            board_id: None,
            name: None,
        }
    }

    fn missing() -> (message: String) {
        "Column not found".to_owned()
    }
}

/// A column to insert.
#[derive(Debug, PartialEq, Eq)]
pub struct NewColumn {
    pub id: String,
    pub board_id: String,
    pub name: String,
}

impl Draft<Column> for NewColumn {
    open spec fn row(self) -> ColumnView {
        ColumnView {
            id: self.id@,
            board_id: self.board_id@,
            name: self.name@,
        }
    }

    fn into_row(self) -> (row: Column) {
        Column {
            id: self.id,
            board_id: self.board_id,
            name: self.name,
        }
    }
}

/// The fields of a column that an update may change. A field that is `None`
/// stays as it is.
#[derive(Debug, PartialEq, Eq)]
pub struct ColumnChangeSet {
    pub name: Option<String>,
}

impl Changes<Column> for ColumnChangeSet {
    open spec fn applied(self, row: ColumnView) -> ColumnView {
        ColumnView {
            id: row.id,
            board_id: row.board_id,
            name: match self.name {
                Some(s) => s@,
                None => row.name,
            },
        }
    }

    open spec fn is_empty(self) -> bool {
        self.name is None
    }

    fn apply(&self, row: &Column) -> (changed: Column) {
        Column {
            id: row.id.clone(),
            board_id: row.board_id.clone(),
            name: match &self.name {
                Some(s) => s.clone(),
                None => row.name.clone(),
            },
        }
    }

    fn names_nothing(&self) -> (empty: bool) {
        self.name.is_none()
    }

    proof fn keeps_key(self, row: ColumnView) {
    }

    proof fn empty_keeps_row(self, row: ColumnView) {
    }
}

/// The predicates of a column search beside the id filter: each one that is
/// present asks a field to equal a value.
#[derive(Debug, PartialEq, Eq)]
pub struct ColumnFilter {
    pub board_id: Option<String>,
}

impl Criteria<Column> for ColumnFilter {
    open spec fn admits(self, row: ColumnView) -> bool {
        agrees(text(self.board_id), row.board_id)
    }

    open spec fn is_open(self) -> bool {
        self.board_id is None
    }

    fn test(&self, row: &Column) -> (admitted: bool) {
        meets(&self.board_id, &row.board_id)
    }

    proof fn open_admits_all(self, row: ColumnView) {
    }
}

/// Inserting a column: the row that the insert statement returned is the
/// stored column.
pub trait CreateColumn {
    fn create(
        inserted: Result<Vec<Column>, StoreError>,
    ) -> (stored: Result<Column, StoreError>)
        ensures
            row_view(stored) == first_row(rows_view(inserted)),
    ;
}

impl CreateColumn for Column {
    fn create(
        inserted: Result<Vec<Column>, StoreError>,
    ) -> (stored: Result<Column, StoreError>) {
        take_first(inserted)
    }
}

/// Updating a column: the row that the update statement returned, or
/// not-found where it met no row.
pub trait UpdateColumn {
    fn update(
        updated: Result<Vec<Column>, StoreError>,
    ) -> (stored: Result<Column, StoreError>)
        ensures
            row_view(stored) == first_row(rows_view(updated)),
    ;
}

impl UpdateColumn for Column {
    fn update(
        updated: Result<Vec<Column>, StoreError>,
    ) -> (stored: Result<Column, StoreError>) {
        take_first(updated)
    }
}

/// Deleting a column: the row that the delete statement returned, which is
/// the column as it was before, or not-found where it met no row.
pub trait DeleteColumn {
    fn delete(
        deleted: Result<Vec<Column>, StoreError>,
    ) -> (removed: Result<Column, StoreError>)
        ensures
            row_view(removed) == first_row(rows_view(deleted)),
    ;
}

impl DeleteColumn for Column {
    fn delete(
        deleted: Result<Vec<Column>, StoreError>,
    ) -> (removed: Result<Column, StoreError>) {
        take_first(deleted)
    }
}

/// The request for one column by its id.
#[derive(Debug, PartialEq, Eq)]
pub struct ColumnId {
    pub column_id: String,
}

/// The request to create a column on a board.
#[derive(Debug, PartialEq, Eq)]
pub struct BoardIdAndColumnName {
    pub board_id: String,
    pub column_name: String,
}

/// The request to rename a column.
#[derive(Debug, PartialEq, Eq)]
pub struct ColumnIdAndName {
    pub column_id: String,
    pub column_name: String,
}

/// The parameters of a column search. An empty list of ids is no id filter.
#[derive(Debug, PartialEq, Eq)]
pub struct SearchColumnsParams {
    pub columns_ids: Vec<String>,
    pub board_id: Option<String>,
    pub limit: Option<u64>,
    pub offset: Option<u64>,
}

/// The model of [`SearchColumnsParams`].
pub struct SearchColumnsParamsView {
    pub columns_ids: Seq<Seq<char>>,
    pub board_id: Option<Seq<char>>,
    pub limit: Option<u64>,
    pub offset: Option<u64>,
}

impl View for SearchColumnsParams {
    type V = SearchColumnsParamsView;

    open spec fn view(&self) -> SearchColumnsParamsView {
        SearchColumnsParamsView {
            columns_ids: texts(self.columns_ids@),
            board_id: text(self.board_id),
            limit: self.limit,
            offset: self.offset,
        }
    }
}

impl SearchColumnsParams {
    /// A copy of the parameters.
    pub fn duplicate(&self) -> (copy: Self)
        ensures
            copy@ == self@,
    {
        SearchColumnsParams {
            columns_ids: copy_texts(&self.columns_ids),
            board_id: copy_text(&self.board_id),
            limit: self.limit,
            offset: self.offset,
        }
    }
}

/// The one operation that a column call hands to the store.
pub type ColumnCall = StoreCall<NewColumn, ColumnChangeSet, ColumnFilter>;

/// What a unary column call ends with.
pub type ColumnReply = Reply<Column, PartialColumn>;

/// The producer side of a streamed column search.
pub type ColumnStream = Emitter<Column, SearchColumnsParams>;

/// A column search that ended before any record was streamed.
pub type ColumnSearchFailure = SearchFailure<PartialColumn, SearchColumnsParams>;

/// The column service. Each operation has two halves: `plan_` turns the request
/// into the one operation that is handed to the store, and the function named
/// after the operation turns what the store returned into the reply.
pub struct ColumnsController;

impl ColumnsController {
    /// The store operation of a look-up by id.
    pub fn plan_get_column_by_id(request: &ColumnId) -> (call: ColumnCall)
        ensures
            call matches StoreCall::Fetch { id } && id@ == request.column_id@,
    {
        StoreCall::Fetch { id: request.column_id.clone() }
    }

    /// The reply to a look-up by id, which the store answered with `found`.
    pub fn get_column_by_id(
        request: &ColumnId,
        found: Result<Vec<Column>, StoreError>,
    ) -> (reply: ColumnReply)
        ensures
            reply@ == fetched_reply::<Column>(
                Column::bare(request.column_id@),
                rows_view(found),
            ),
    {
        fetched(Column::placeholder(&request.column_id), found)
    }

    /// The store operation of a search, or the failure that rejects a request
    /// whose limit or offset the store cannot take.
    pub fn plan_search_columns(
        params: &SearchColumnsParams,
    ) -> (planned: Result<ColumnCall, ColumnSearchFailure>)
        ensures
            match planned {
                Ok(call) => {
                    &&& admissible(params.limit, params.offset)
                    &&& call matches StoreCall::Search(query)
                    &&& is_query_of(
                        query,
                        texts(params.columns_ids@),
                        params.limit,
                        params.offset,
                    )
                    &&& text(query.filter.board_id) == text(params.board_id)
                },
                Err(failure) => {
                    &&& !admissible(params.limit, params.offset)
                    &&& failure@ == out_of_range::<Column, SearchColumnsParamsView>(
                        params@,
                        texts(params.columns_ids@),
                        params.limit,
                    )
                },
            },
    {
        let filter = ColumnFilter { board_id: copy_text(&params.board_id) };
        let planned = plan::<Column, ColumnFilter, SearchColumnsParams>(
            params.duplicate(),
            &params.columns_ids,
            filter,
            params.limit,
            params.offset,
        );
        match planned {
            Ok(query) => Ok(StoreCall::Search(query)),
            Err(failure) => Err(failure),
        }
    }

    /// What a search ends in once the store has answered with `found`: the
    /// emitter of the stream, or the failure.
    pub fn search_columns(
        params: &SearchColumnsParams,
        found: Result<Vec<Column>, StoreError>,
    ) -> (reply: Result<ColumnStream, ColumnSearchFailure>)
        ensures
            search_view(reply) == searched_reply::<Column, SearchColumnsParamsView>(
                params@,
                texts(params.columns_ids@),
                rows_view(found),
            ),
    {
        searched(params.duplicate(), &params.columns_ids, found)
    }

    /// The store operation of a create: the insert of the column that the
    /// request describes, under the id `id`.
    pub fn plan_create_column_with(
        request: &BoardIdAndColumnName,
        id: String,
    ) -> (call: ColumnCall)
        ensures
            call matches StoreCall::Insert(draft) && draft.row() == (ColumnView {
                id: id@,
                board_id: request.board_id@,
                name: request.column_name@,
            }),
    {
        StoreCall::Insert(NewColumn {
            id,
            board_id: request.board_id.clone(),
            name: request.column_name.clone(),
        })
    }

    /// The store operation of a create, under an id that is minted for the
    /// column before the store is called.
    pub fn plan_create_column(request: &BoardIdAndColumnName) -> (call: ColumnCall)
        ensures
            call matches StoreCall::Insert(draft) && {
                &&& is_uuid_text(draft.id@)
                &&& draft.row() == (ColumnView {
                    id: draft.id@,
                    board_id: request.board_id@,
                    name: request.column_name@,
                })
            },
    {
        Self::plan_create_column_with(request, mint_id())
    }

    /// The reply to a create request, for which the insert statement returned
    /// `inserted`. The event of a failure holds the fields of the request: the
    /// id was no part of it.
    pub fn create_column(
        request: &BoardIdAndColumnName,
        inserted: Result<Vec<Column>, StoreError>,
    ) -> (reply: ColumnReply)
        ensures
            reply@ == created_reply::<Column>(
                PartialColumnView {
                    id: None,
                    board_id: Some(request.board_id@),
                    name: Some(request.column_name@),
                },
                first_row(rows_view(inserted)),
            ),
    {
        let known = PartialColumn {
            id: None,
            board_id: Some(request.board_id.clone()),
            name: Some(request.column_name.clone()),
        };
        created(known, Column::create(inserted))
    }

    /// The store operation of an update: the changeset holds the fields that
    /// the request names.
    pub fn plan_update_column(request: &ColumnIdAndName) -> (call: ColumnCall)
        ensures
            call matches StoreCall::Update { id, changes } && {
                &&& id@ == request.column_id@
                &&& text(changes.name) == Some(request.column_name@)
            },
    {
        let changes = ColumnChangeSet {
            name: Some(request.column_name.clone()),
        };
        StoreCall::Update { id: request.column_id.clone(), changes }
    }

    /// The reply to an update request, for which the store returned `updated`.
    /// The event of a failure holds the id and the fields that the request
    /// named.
    pub fn update_column(
        request: &ColumnIdAndName,
        updated: Result<Vec<Column>, StoreError>,
    ) -> (reply: ColumnReply)
        ensures
            reply@ == changed_reply::<Column>(
                PartialColumnView {
                    id: Some(request.column_id@),
                    board_id: None,
                    name: Some(request.column_name@),
                },
                first_row(rows_view(updated)),
            ),
    {
        let known = PartialColumn {
            id: Some(request.column_id.clone()),
            board_id: None,
            name: Some(request.column_name.clone()),
        };
        changed(known, Column::update(updated))
    }

    /// The store operation of a delete.
    pub fn plan_delete_column(request: &ColumnId) -> (call: ColumnCall)
        ensures
            call matches StoreCall::Delete { id } && id@ == request.column_id@,
    {
        StoreCall::Delete { id: request.column_id.clone() }
    }

    /// The reply to a delete request, for which the delete statement returned
    /// `deleted`: the column as it was before it was removed.
    pub fn delete_column(
        request: &ColumnId,
        deleted: Result<Vec<Column>, StoreError>,
    ) -> (reply: ColumnReply)
        ensures
            reply@ == changed_reply::<Column>(
                Column::bare(request.column_id@),
                first_row(rows_view(deleted)),
            ),
    {
        changed(Column::placeholder(&request.column_id), Column::delete(deleted))
    }
}

} // verus!
