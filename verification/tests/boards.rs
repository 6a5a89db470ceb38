use issues_service::board::{
    Board, BoardCall, BoardChangeSet, BoardFilter, BoardId, BoardsController, CreateBoard,
    DeleteBoard, NewBoard, PartialBoard, ProjectId, SearchBoardsParams, UpdateBoard,
    UpdateBoardRequest,
};
use issues_service::event::{Event, Reply};
use issues_service::search::{Query, SearchEvent};
use issues_service::status::{Code, ErrorDescriptor, Status};
use issues_service::store::{StoreCall, StoreError, StoreFault};
use issues_service::stream::Step;
use issues_service::table::Table;

fn a_board(id: &str, project_id: &str) -> Board {
    Board { id: id.to_string(), project_id: project_id.to_string() }
}

fn whole_board(id: &str, project_id: &str) -> PartialBoard {
    PartialBoard { id: Some(id.to_string()), project_id: Some(project_id.to_string()) }
}

fn board_not_found() -> Status {
    Status { code: Code::NotFound, message: "Board not found".to_string() }
}

fn database_down() -> Status {
    Status { code: Code::Unavailable, message: "Database is unavailable".to_string() }
}

fn boards_in_project(project_id: &str) -> SearchBoardsParams {
    SearchBoardsParams {
        boards_ids: vec![],
        project_id: Some(project_id.to_string()),
        limit: None,
        offset: None,
    }
}

#[test]
fn board_is_created_found_by_search_deleted_and_gone() {
    let mut table: Table<Board> = Table::new();

    let create = ProjectId { project_id: "P1".to_string() };
    let call = BoardsController::plan_create_board_with(&create, "b1".to_string());
    assert_eq!(
        call,
        StoreCall::Insert(NewBoard { id: "b1".to_string(), project_id: "P1".to_string() })
    );
    let reply = BoardsController::create_board(&create, table.execute(call));
    assert_eq!(
        reply,
        Reply {
            response: Ok(a_board("b1", "P1")),
            event: Event { entity: whole_board("b1", "P1"), error: None },
        }
    );

    let params = boards_in_project("P1");
    let call = match BoardsController::plan_search_boards(&params) {
        Ok(call) => call,
        Err(failure) => panic!("rejected: {:?}", failure),
    };
    let mut emitter = match BoardsController::search_boards(&params, table.execute(call)) {
        Ok(emitter) => emitter,
        Err(failure) => panic!("failed: {:?}", failure),
    };
    assert_eq!(emitter.advance(true), Step::Offer(a_board("b1", "P1")));
    assert_eq!(
        emitter.advance(true),
        Step::Publish(SearchEvent {
            entities: vec![whole_board("b1", "P1")],
            error: None,
            search_params: boards_in_project("P1"),
        })
    );
    assert_eq!(emitter.advance(true), Step::Done);

    let by_id = BoardId { board_id: "b1".to_string() };
    let call = BoardsController::plan_delete_board(&by_id);
    assert_eq!(call, StoreCall::Delete { id: "b1".to_string() });
    let reply = BoardsController::delete_board(&by_id, table.execute(call));
    assert_eq!(reply.response, Ok(a_board("b1", "P1")));
    assert_eq!(reply.event, Event { entity: whole_board("b1", "P1"), error: None });

    let call = BoardsController::plan_get_board_by_id(&by_id);
    assert_eq!(call, StoreCall::Fetch { id: "b1".to_string() });
    let reply = BoardsController::get_board_by_id(&by_id, table.execute(call));
    assert_eq!(
        reply,
        Reply {
            response: Err(board_not_found()),
            event: Event {
                entity: PartialBoard { id: Some("b1".to_string()), project_id: None },
                error: Some(ErrorDescriptor { code: 5, message: "Board not found".to_string() }),
            },
        }
    );
}

#[test]
fn board_that_was_never_created_is_not_found() {
    let mut table: Table<Board> = Table::new();
    let by_id = BoardId { board_id: "ghost".to_string() };

    let call = BoardsController::plan_get_board_by_id(&by_id);
    let reply = BoardsController::get_board_by_id(&by_id, table.execute(call));
    assert_eq!(reply.response, Err(board_not_found()));

    let call = BoardsController::plan_delete_board(&by_id);
    let reply = BoardsController::delete_board(&by_id, table.execute(call));
    assert_eq!(reply.response, Err(board_not_found()));
    assert_eq!(
        reply.event,
        Event {
            entity: PartialBoard { id: Some("ghost".to_string()), project_id: None },
            error: Some(ErrorDescriptor { code: 5, message: "NotFound".to_string() }),
        }
    );
}

#[test]
fn board_with_empty_id_is_not_found_rather_than_invalid() {
    let mut table: Table<Board> = Table::new();
    let by_id = BoardId { board_id: String::new() };
    let call = BoardsController::plan_get_board_by_id(&by_id);
    let reply = BoardsController::get_board_by_id(&by_id, table.execute(call));
    assert_eq!(reply.response, Err(board_not_found()));
}

#[test]
fn created_board_is_read_back_as_it_was_created() {
    let mut table: Table<Board> = Table::new();
    let create = ProjectId { project_id: "P7".to_string() };
    let call = BoardsController::plan_create_board_with(&create, "b7".to_string());
    let created = BoardsController::create_board(&create, table.execute(call));

    let by_id = BoardId { board_id: "b7".to_string() };
    let call = BoardsController::plan_get_board_by_id(&by_id);
    let fetched = BoardsController::get_board_by_id(&by_id, table.execute(call));
    assert_eq!(fetched.response, created.response);
    assert_eq!(fetched.response, Ok(a_board("b7", "P7")));
    assert_eq!(fetched.event, created.event);
}

#[test]
fn deleting_a_board_twice_succeeds_then_is_not_found() {
    let mut table: Table<Board> = Table::new();
    let create = ProjectId { project_id: "P1".to_string() };
    let call = BoardsController::plan_create_board_with(&create, "b1".to_string());
    BoardsController::create_board(&create, table.execute(call));

    let by_id = BoardId { board_id: "b1".to_string() };
    let call = BoardsController::plan_delete_board(&by_id);
    let first = BoardsController::delete_board(&by_id, table.execute(call));
    let call = BoardsController::plan_delete_board(&by_id);
    let second = BoardsController::delete_board(&by_id, table.execute(call));
    assert_eq!(first.response, Ok(a_board("b1", "P1")));
    assert_eq!(second.response, Err(board_not_found()));
    assert_eq!(table.len(), 0);
}

#[test]
fn board_of_a_project_is_the_first_match() {
    let mut table: Table<Board> = Table::new();
    for (id, project) in [("b1", "P1"), ("b2", "P2"), ("b3", "P2")] {
        let create = ProjectId { project_id: project.to_string() };
        let call = BoardsController::plan_create_board_with(&create, id.to_string());
        BoardsController::create_board(&create, table.execute(call));
    }
    let request = ProjectId { project_id: "P2".to_string() };
    let call = BoardsController::plan_get_board_by_project_id(&request);
    assert_eq!(
        call,
        StoreCall::Search(Query {
            ids: None,
            filter: BoardFilter { project_id: Some("P2".to_string()) },
            limit: Some(1),
            offset: None,
        })
    );
    let reply = BoardsController::get_board_by_project_id(&request, table.execute(call));
    assert_eq!(reply.response, Ok(a_board("b2", "P2")));
    assert_eq!(reply.event, Event { entity: whole_board("b2", "P2"), error: None });
}

#[test]
fn board_of_an_unknown_project_is_not_found() {
    let mut table: Table<Board> = Table::new();
    let request = ProjectId { project_id: "P9".to_string() };
    let call = BoardsController::plan_get_board_by_project_id(&request);
    let reply = BoardsController::get_board_by_project_id(&request, table.execute(call));
    assert_eq!(
        reply,
        Reply {
            response: Err(board_not_found()),
            event: Event {
                entity: PartialBoard { id: None, project_id: Some("P9".to_string()) },
                error: Some(ErrorDescriptor { code: 5, message: "Board not found".to_string() }),
            },
        }
    );
}

#[test]
fn board_update_moves_the_board_to_another_project() {
    let mut table: Table<Board> = Table::new();
    let create = ProjectId { project_id: "P1".to_string() };
    let call = BoardsController::plan_create_board_with(&create, "b1".to_string());
    BoardsController::create_board(&create, table.execute(call));

    let request =
        UpdateBoardRequest { board_id: "b1".to_string(), project_id: Some("P2".to_string()) };
    let call = BoardsController::plan_update_board(&request);
    assert_eq!(
        call,
        StoreCall::Update {
            id: "b1".to_string(),
            changes: BoardChangeSet { project_id: Some("P2".to_string()) },
        }
    );
    let reply = BoardsController::update_board(&request, table.execute(call));
    assert_eq!(reply.response, Ok(a_board("b1", "P2")));

    let by_id = BoardId { board_id: "b1".to_string() };
    let call = BoardsController::plan_get_board_by_id(&by_id);
    let reply = BoardsController::get_board_by_id(&by_id, table.execute(call));
    assert_eq!(reply.response, Ok(a_board("b1", "P2")));
}

#[test]
fn board_update_that_names_nothing_is_a_look_up() {
    let mut table: Table<Board> = Table::new();
    let create = ProjectId { project_id: "P1".to_string() };
    let call = BoardsController::plan_create_board_with(&create, "b1".to_string());
    BoardsController::create_board(&create, table.execute(call));

    let request = UpdateBoardRequest { board_id: "b1".to_string(), project_id: None };
    let call: BoardCall = BoardsController::plan_update_board(&request);
    assert_eq!(call, StoreCall::Fetch { id: "b1".to_string() });
    let reply = BoardsController::update_board(&request, table.execute(call));
    assert_eq!(reply.response, Ok(a_board("b1", "P1")));

    let missing = UpdateBoardRequest { board_id: "b2".to_string(), project_id: None };
    let call = BoardsController::plan_update_board(&missing);
    let reply = BoardsController::update_board(&missing, table.execute(call));
    assert_eq!(reply.response, Err(board_not_found()));
}

#[test]
fn board_update_of_a_missing_board_tells_what_was_asked() {
    let mut table: Table<Board> = Table::new();
    let request =
        UpdateBoardRequest { board_id: "b9".to_string(), project_id: Some("P2".to_string()) };
    let call = BoardsController::plan_update_board(&request);
    let reply = BoardsController::update_board(&request, table.execute(call));
    assert_eq!(
        reply,
        Reply {
            response: Err(board_not_found()),
            event: Event {
                entity: whole_board("b9", "P2"),
                error: Some(ErrorDescriptor { code: 5, message: "NotFound".to_string() }),
            },
        }
    );
}

#[test]
fn board_calls_answer_unavailable_when_the_store_fails() {
    let down = || Err(StoreError { fault: StoreFault::Other, message: "no route".to_string() });
    let described = Some(ErrorDescriptor { code: 14, message: "no route".to_string() });
    let by_id = BoardId { board_id: "b1".to_string() };
    let project = ProjectId { project_id: "P1".to_string() };

    let reply = BoardsController::get_board_by_id(&by_id, down());
    assert_eq!(reply.response, Err(database_down()));
    assert_eq!(
        reply.event,
        Event {
            entity: PartialBoard { id: Some("b1".to_string()), project_id: None },
            error: Some(ErrorDescriptor { code: 14, message: "no route".to_string() }),
        }
    );

    let reply = BoardsController::get_board_by_project_id(&project, down());
    assert_eq!(reply.response, Err(database_down()));
    assert_eq!(reply.event.error, described);

    let reply = BoardsController::create_board(&project, down());
    assert_eq!(reply.response, Err(database_down()));
    assert_eq!(
        reply.event,
        Event {
            entity: PartialBoard { id: None, project_id: Some("P1".to_string()) },
            error: Some(ErrorDescriptor { code: 14, message: "no route".to_string() }),
        }
    );

    let update =
        UpdateBoardRequest { board_id: "b1".to_string(), project_id: Some("P2".to_string()) };
    let reply = BoardsController::update_board(&update, down());
    assert_eq!(reply.response, Err(database_down()));
    assert_eq!(reply.event.entity, whole_board("b1", "P2"));
    assert_eq!(reply.event.error, described);

    let reply = BoardsController::delete_board(&by_id, down());
    assert_eq!(reply.response, Err(database_down()));
    assert_eq!(reply.event.error, described);

    let params = SearchBoardsParams {
        boards_ids: vec!["b1".to_string(), "b2".to_string()],
        project_id: None,
        limit: Some(3),
        offset: None,
    };
    match BoardsController::search_boards(&params, down()) {
        Ok(_) => panic!("a failed search has no stream"),
        Err(failure) => {
            assert_eq!(failure.status, database_down());
            assert_eq!(
                failure.event,
                SearchEvent {
                    entities: vec![
                        PartialBoard { id: Some("b1".to_string()), project_id: None },
                        PartialBoard { id: Some("b2".to_string()), project_id: None },
                    ],
                    error: Some(ErrorDescriptor { code: 14, message: "no route".to_string() }),
                    search_params: SearchBoardsParams {
                        boards_ids: vec!["b1".to_string(), "b2".to_string()],
                        project_id: None,
                        limit: Some(3),
                        offset: None,
                    },
                }
            );
        }
    }
}

#[test]
fn board_get_answers_not_found_when_the_store_reports_a_missing_row() {
    let by_id = BoardId { board_id: "b1".to_string() };
    let missing = StoreError { fault: StoreFault::NotFound, message: "NotFound".to_string() };
    let reply = BoardsController::get_board_by_id(&by_id, Err(missing));
    assert_eq!(reply.response, Err(board_not_found()));
    assert_eq!(
        reply.event.error,
        Some(ErrorDescriptor { code: 5, message: "NotFound".to_string() })
    );
}

#[test]
fn board_create_that_stores_nothing_is_unavailable() {
    let project = ProjectId { project_id: "P1".to_string() };
    let reply = BoardsController::create_board(&project, Ok(vec![]));
    assert_eq!(reply.response, Err(database_down()));
    assert_eq!(
        reply.event.error,
        Some(ErrorDescriptor { code: 14, message: "NotFound".to_string() })
    );
}

#[test]
fn board_create_fails_as_unavailable_when_the_id_is_taken() {
    let mut table: Table<Board> = Table::new();
    let create = ProjectId { project_id: "P1".to_string() };
    let call = BoardsController::plan_create_board_with(&create, "b1".to_string());
    BoardsController::create_board(&create, table.execute(call));

    let again = ProjectId { project_id: "P2".to_string() };
    let call = BoardsController::plan_create_board_with(&again, "b1".to_string());
    let reply = BoardsController::create_board(&again, table.execute(call));
    assert_eq!(reply.response, Err(database_down()));
    assert_eq!(
        reply.event,
        Event {
            entity: PartialBoard { id: None, project_id: Some("P2".to_string()) },
            error: Some(ErrorDescriptor {
                code: 14,
                message: "duplicate key value violates unique constraint".to_string(),
            }),
        }
    );
    assert_eq!(table.len(), 1);
}

#[test]
fn board_repository_takes_the_first_row() {
    let rows = || Ok(vec![a_board("b1", "P1"), a_board("b2", "P1")]);
    assert_eq!(Board::create(rows()), Ok(a_board("b1", "P1")));
    assert_eq!(Board::update(rows()), Ok(a_board("b1", "P1")));
    assert_eq!(Board::delete(rows()), Ok(a_board("b1", "P1")));

    let missing = StoreError { fault: StoreFault::NotFound, message: "NotFound".to_string() };
    assert_eq!(Board::create(Ok(vec![])), Err(StoreError { ..clone_error(&missing) }));
    assert_eq!(Board::update(Ok(vec![])), Err(clone_error(&missing)));
    assert_eq!(Board::delete(Ok(vec![])), Err(clone_error(&missing)));

    let broken = StoreError { fault: StoreFault::Other, message: "deadlock".to_string() };
    assert_eq!(Board::delete(Err(clone_error(&broken))), Err(broken));
}

fn clone_error(error: &StoreError) -> StoreError {
    StoreError { fault: error.fault, message: error.message.clone() }
}

#[test]
fn new_board_gets_a_minted_id() {
    let request = ProjectId { project_id: "P1".to_string() };
    let first = match BoardsController::plan_create_board(&request) {
        StoreCall::Insert(draft) => draft,
        other => panic!("not an insert: {:?}", other),
    };
    let second = match BoardsController::plan_create_board(&request) {
        StoreCall::Insert(draft) => draft,
        other => panic!("not an insert: {:?}", other),
    };
    assert_eq!(first.id.chars().count(), 36);
    for at in [8usize, 13, 18, 23] {
        assert_eq!(first.id.as_bytes()[at], b'-');
    }
    assert!(first.id.chars().all(|c| c == '-' || c.is_ascii_hexdigit()));
    assert_eq!(first.project_id, "P1");
    assert_ne!(first.id, second.id);
}
