//! Boards: a board belongs to a project.

use vstd::prelude::*;
use crate::event::{
    changed, changed_reply, created, created_reply, fetched, fetched_reply, first_row, row_view,
    rows_view, take_first, Reply,
};
use crate::ident::{is_uuid_text, mint_id};
use crate::record::{
    agrees, copy_text, copy_texts, meets, text, texts, Changes, Criteria, Draft, Entity,
};
use crate::search::{
    admissible, is_query_of, out_of_range, plan, search_view, searched, searched_reply, Query,
    SearchFailure,
};
use crate::store::{StoreCall, StoreError};
use crate::stream::Emitter;

verus! {

/// A stored board.
#[derive(Debug, PartialEq, Eq)]
pub struct Board {
    pub id: String,
    pub project_id: String,
}

/// The model of a [`Board`].
pub struct BoardView {
    pub id: Seq<char>,
    pub project_id: Seq<char>,
}

impl View for Board {
    type V = BoardView;

    open spec fn view(&self) -> BoardView {
        BoardView {
            id: self.id@,
            project_id: self.project_id@,
        }
    }
}

/// A board in an outcome event: every field is optional, so that an event
/// can tell what little was known of a board when a call failed.
#[derive(Debug, PartialEq, Eq)]
pub struct PartialBoard {
    pub id: Option<String>,
    pub project_id: Option<String>,
}

/// The model of a [`PartialBoard`].
pub struct PartialBoardView {
    pub id: Option<Seq<char>>,
    pub project_id: Option<Seq<char>>,
}

impl View for PartialBoard {
    type V = PartialBoardView;

    open spec fn view(&self) -> PartialBoardView {
        PartialBoardView {
            id: text(self.id),
            project_id: text(self.project_id),
        }
    }
}

impl Entity for Board {
    type Partial = PartialBoard;

    open spec fn key(row: BoardView) -> Seq<char> {
        row.id
    }

    open spec fn whole(row: BoardView) -> PartialBoardView {
        PartialBoardView {
            id: Some(row.id),
            project_id: Some(row.project_id),
        }
    }

    open spec fn bare(id: Seq<char>) -> PartialBoardView {
        PartialBoardView {
            id: Some(id),
            project_id: None,
        }
    }

    open spec fn missing_text() -> Seq<char> {
        "Board not found"@
    }

    fn id(&self) -> (id: &String) {
        &self.id
    }

    fn duplicate(&self) -> (copy: Board) {
        Board {
            id: self.id.clone(),
            project_id: self.project_id.clone(),
        }
    }

    fn snapshot(&self) -> (partial: PartialBoard) {
        PartialBoard {
            id: Some(self.id.clone()),
            project_id: Some(self.project_id.clone()),
        }
    }

    fn placeholder(id: &String) -> (partial: PartialBoard) {
        PartialBoard {
            id: Some(id.clone()),
            project_id: None,
        }
    }

    fn missing() -> (message: String) {
        "Board not found".to_owned()
    }
}

/// A board to insert.
#[derive(Debug, PartialEq, Eq)]
pub struct NewBoard {
    pub id: String,
    pub project_id: String,
}

impl Draft<Board> for NewBoard {
    open spec fn row(self) -> BoardView {
        BoardView {
            id: self.id@,
            project_id: self.project_id@,
        }
    }

    fn into_row(self) -> (row: Board) {
        Board {
            id: self.id,
            project_id: self.project_id,
        }
    }
}

/// The fields of a board that an update may change. A field that is `None`
/// stays as it is.
#[derive(Debug, PartialEq, Eq)]
pub struct BoardChangeSet {
    pub project_id: Option<String>,
}

impl Changes<Board> for BoardChangeSet {
    open spec fn applied(self, row: BoardView) -> BoardView {
        BoardView {
            id: row.id,
            project_id: match self.project_id {
                Some(s) => s@,
                None => row.project_id,
            },
        }
    }

    open spec fn is_empty(self) -> bool {
        self.project_id is None
    }

    fn apply(&self, row: &Board) -> (changed: Board) {
        Board {
            id: row.id.clone(),
            project_id: match &self.project_id {
                Some(s) => s.clone(),
                None => row.project_id.clone(),
            },
        }
    }

    fn names_nothing(&self) -> (empty: bool) {
        self.project_id.is_none()
    }

    proof fn keeps_key(self, row: BoardView) {
    }

    proof fn empty_keeps_row(self, row: BoardView) {
    }
}

/// The predicates of a board search beside the id filter: each one that is
/// present asks a field to equal a value.
#[derive(Debug, PartialEq, Eq)]
pub struct BoardFilter {
    pub project_id: Option<String>,
}

impl Criteria<Board> for BoardFilter {
    open spec fn admits(self, row: BoardView) -> bool {
        agrees(text(self.project_id), row.project_id)
    }

    open spec fn is_open(self) -> bool {
        self.project_id is None
    }

    fn test(&self, row: &Board) -> (admitted: bool) {
        meets(&self.project_id, &row.project_id)
    }

    proof fn open_admits_all(self, row: BoardView) {
    }
}

/// Inserting a board: the row that the insert statement returned is the
/// stored board.
pub trait CreateBoard {
    fn create(
        inserted: Result<Vec<Board>, StoreError>,
    ) -> (stored: Result<Board, StoreError>)
        ensures
            row_view(stored) == first_row(rows_view(inserted)),
    ;
}

impl CreateBoard for Board {
    fn create(
        inserted: Result<Vec<Board>, StoreError>,
    ) -> (stored: Result<Board, StoreError>) {
        take_first(inserted)
    }
}

/// Updating a board: the row that the update statement returned, or
/// not-found where it met no row.
pub trait UpdateBoard {
    fn update(
        updated: Result<Vec<Board>, StoreError>,
    ) -> (stored: Result<Board, StoreError>)
        ensures
            row_view(stored) == first_row(rows_view(updated)),
    ;
}

impl UpdateBoard for Board {
    fn update(
        updated: Result<Vec<Board>, StoreError>,
    ) -> (stored: Result<Board, StoreError>) {
        take_first(updated)
    }
}

/// Deleting a board: the row that the delete statement returned, which is
/// the board as it was before, or not-found where it met no row.
pub trait DeleteBoard {
    fn delete(
        deleted: Result<Vec<Board>, StoreError>,
    ) -> (removed: Result<Board, StoreError>)
        ensures
            row_view(removed) == first_row(rows_view(deleted)),
    ;
}

impl DeleteBoard for Board {
    fn delete(
        deleted: Result<Vec<Board>, StoreError>,
    ) -> (removed: Result<Board, StoreError>) {
        take_first(deleted)
    }
}

/// The request for one board by its id.
#[derive(Debug, PartialEq, Eq)]
pub struct BoardId {
    pub board_id: String,
}

/// The request that names a project: for the board of the project, or for
/// a new board in it.
#[derive(Debug, PartialEq, Eq)]
pub struct ProjectId {
    pub project_id: String,
}

/// The request to update a board.
#[derive(Debug, PartialEq, Eq)]
pub struct UpdateBoardRequest {
    pub board_id: String,
    pub project_id: Option<String>,
}

/// The parameters of a board search. An empty list of ids is no id filter.
#[derive(Debug, PartialEq, Eq)]
pub struct SearchBoardsParams {
    pub boards_ids: Vec<String>,
    pub project_id: Option<String>,
    pub limit: Option<u64>,
    pub offset: Option<u64>,
}

/// The model of [`SearchBoardsParams`].
pub struct SearchBoardsParamsView {
    pub boards_ids: Seq<Seq<char>>,
    pub project_id: Option<Seq<char>>,
    pub limit: Option<u64>,
    pub offset: Option<u64>,
}

impl View for SearchBoardsParams {
    type V = SearchBoardsParamsView;

    open spec fn view(&self) -> SearchBoardsParamsView {
        SearchBoardsParamsView {
            boards_ids: texts(self.boards_ids@),
            project_id: text(self.project_id),
            limit: self.limit,
            offset: self.offset,
        }
    }
}

impl SearchBoardsParams {
    /// A copy of the parameters.
    pub fn duplicate(&self) -> (copy: Self)
        ensures
            copy@ == self@,
    {
        SearchBoardsParams {
            boards_ids: copy_texts(&self.boards_ids),
            project_id: copy_text(&self.project_id),
            limit: self.limit,
            offset: self.offset,
        }
    }
}

/// The one operation that a board call hands to the store.
pub type BoardCall = StoreCall<NewBoard, BoardChangeSet, BoardFilter>;

/// What a unary board call ends with.
pub type BoardReply = Reply<Board, PartialBoard>;

/// The producer side of a streamed board search.
pub type BoardStream = Emitter<Board, SearchBoardsParams>;

/// A board search that ended before any record was streamed.
pub type BoardSearchFailure = SearchFailure<PartialBoard, SearchBoardsParams>;

/// The board service. Each operation has two halves: `plan_` turns the request
/// into the one operation that is handed to the store, and the function named
/// after the operation turns what the store returned into the reply.
pub struct BoardsController;

impl BoardsController {
    /// The store operation of a look-up by id.
    pub fn plan_get_board_by_id(request: &BoardId) -> (call: BoardCall)
        ensures
            call matches StoreCall::Fetch { id } && id@ == request.board_id@,
    {
        StoreCall::Fetch { id: request.board_id.clone() }
    }

    /// The reply to a look-up by id, which the store answered with `found`.
    pub fn get_board_by_id(
        request: &BoardId,
        found: Result<Vec<Board>, StoreError>,
    ) -> (reply: BoardReply)
        ensures
            reply@ == fetched_reply::<Board>(
                Board::bare(request.board_id@),
                rows_view(found),
            ),
    {
        fetched(Board::placeholder(&request.board_id), found)
    }

    /// The store operation of a look-up of the board of a project: a search
    /// by project for at most one row.
    pub fn plan_get_board_by_project_id(request: &ProjectId) -> (call: BoardCall)
        ensures
            call matches StoreCall::Search(query) && {
                &&& query.ids is None
                &&& text(query.filter.project_id) == Some(request.project_id@)
                &&& query.limit == Some(1i64)
                &&& query.offset is None
            },
    {
        StoreCall::Search(
            Query {
                ids: None,
                filter: BoardFilter { project_id: Some(request.project_id.clone()) },
                limit: Some(1),
                offset: None,
            },
        )
    }

    /// The reply to a look-up of the board of a project, which the store
    /// answered with `found`.
    pub fn get_board_by_project_id(
        request: &ProjectId,
        found: Result<Vec<Board>, StoreError>,
    ) -> (reply: BoardReply)
        ensures
            reply@ == fetched_reply::<Board>(
                PartialBoardView { id: None, project_id: Some(request.project_id@) },
                rows_view(found),
            ),
    {
        let known = PartialBoard { id: None, project_id: Some(request.project_id.clone()) };
        fetched(known, found)
    }

    /// The store operation of a search, or the failure that rejects a request
    /// whose limit or offset the store cannot take.
    pub fn plan_search_boards(
        params: &SearchBoardsParams,
    ) -> (planned: Result<BoardCall, BoardSearchFailure>)
        ensures
            match planned {
                Ok(call) => {
                    &&& admissible(params.limit, params.offset)
                    &&& call matches StoreCall::Search(query)
                    &&& is_query_of(
                        query,
                        texts(params.boards_ids@),
                        params.limit,
                        params.offset,
                    )
                    &&& text(query.filter.project_id) == text(params.project_id)
                },
                Err(failure) => {
                    &&& !admissible(params.limit, params.offset)
                    &&& failure@ == out_of_range::<Board, SearchBoardsParamsView>(
                        params@,
                        texts(params.boards_ids@),
                        params.limit,
                    )
                },
            },
    {
        let filter = BoardFilter { project_id: copy_text(&params.project_id) };
        let planned = plan::<Board, BoardFilter, SearchBoardsParams>(
            params.duplicate(),
            &params.boards_ids,
            filter,
            params.limit,
            params.offset,
        );
        match planned {
            Ok(query) => Ok(StoreCall::Search(query)),
            Err(failure) => Err(failure),
        }
    }

    /// What a search ends in once the store has answered with `found`: the
    /// emitter of the stream, or the failure.
    pub fn search_boards(
        params: &SearchBoardsParams,
        found: Result<Vec<Board>, StoreError>,
    ) -> (reply: Result<BoardStream, BoardSearchFailure>)
        ensures
            search_view(reply) == searched_reply::<Board, SearchBoardsParamsView>(
                params@,
                texts(params.boards_ids@),
                rows_view(found),
            ),
    {
        searched(params.duplicate(), &params.boards_ids, found)
    }

    /// The store operation of a create: the insert of the board that the
    /// request describes, under the id `id`.
    pub fn plan_create_board_with(
        request: &ProjectId,
        id: String,
    ) -> (call: BoardCall)
        ensures
            call matches StoreCall::Insert(draft) && draft.row() == (BoardView {
                id: id@,
                project_id: request.project_id@,
            }),
    {
        StoreCall::Insert(NewBoard {
            id,
            project_id: request.project_id.clone(),
        })
    }

    /// The store operation of a create, under an id that is minted for the
    /// board before the store is called.
    pub fn plan_create_board(request: &ProjectId) -> (call: BoardCall)
        ensures
            call matches StoreCall::Insert(draft) && {
                &&& is_uuid_text(draft.id@)
                &&& draft.row() == (BoardView {
                    id: draft.id@,
                    project_id: request.project_id@,
                })
            },
    {
        Self::plan_create_board_with(request, mint_id())
    }

    /// The reply to a create request, for which the insert statement returned
    /// `inserted`. The event of a failure holds the fields of the request: the
    /// id was no part of it.
    pub fn create_board(
        request: &ProjectId,
        inserted: Result<Vec<Board>, StoreError>,
    ) -> (reply: BoardReply)
        ensures
            reply@ == created_reply::<Board>(
                PartialBoardView {
                    id: None,
                    project_id: Some(request.project_id@),
                },
                first_row(rows_view(inserted)),
            ),
    {
        let known = PartialBoard {
            id: None,
            project_id: Some(request.project_id.clone()),
        };
        created(known, Board::create(inserted))
    }

    /// The store operation of an update: the changeset holds the fields that
    /// the request names. A request that names no field changes nothing, so
    /// it becomes a look-up of the row.
    pub fn plan_update_board(request: &UpdateBoardRequest) -> (call: BoardCall)
        ensures
            match call {
                StoreCall::Update { id, changes } => {
                    &&& id@ == request.board_id@
                    &&& !changes.is_empty()
                    &&& text(changes.project_id) == text(request.project_id)
                },
                StoreCall::Fetch { id } => {
                    &&& id@ == request.board_id@
                    &&& request.project_id is None
                },
                _ => false,
            },
    {
        let changes = BoardChangeSet {
            project_id: copy_text(&request.project_id),
        };
        if changes.names_nothing() {
            StoreCall::Fetch { id: request.board_id.clone() }
        } else {
            StoreCall::Update { id: request.board_id.clone(), changes }
        }
    }

    /// The reply to an update request, for which the store returned `updated`.
    /// The event of a failure holds the id and the fields that the request
    /// named.
    pub fn update_board(
        request: &UpdateBoardRequest,
        updated: Result<Vec<Board>, StoreError>,
    ) -> (reply: BoardReply)
        ensures
            reply@ == changed_reply::<Board>(
                PartialBoardView {
                    id: Some(request.board_id@),
                    project_id: text(request.project_id),
                },
                first_row(rows_view(updated)),
            ),
    {
        let known = PartialBoard {
            id: Some(request.board_id.clone()),
            project_id: copy_text(&request.project_id),
        };
        changed(known, Board::update(updated))
    }

    /// The store operation of a delete.
    pub fn plan_delete_board(request: &BoardId) -> (call: BoardCall)
        ensures
            call matches StoreCall::Delete { id } && id@ == request.board_id@,
    {
        StoreCall::Delete { id: request.board_id.clone() }
    }

    /// The reply to a delete request, for which the delete statement returned
    /// `deleted`: the board as it was before it was removed.
    pub fn delete_board(
        request: &BoardId,
        deleted: Result<Vec<Board>, StoreError>,
    ) -> (reply: BoardReply)
        ensures
            reply@ == changed_reply::<Board>(
                Board::bare(request.board_id@),
                first_row(rows_view(deleted)),
            ),
    {
        changed(Board::placeholder(&request.board_id), Board::delete(deleted))
    }
}

} // verus!
