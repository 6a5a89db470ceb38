use issues_service::board::{Board, BoardCall, BoardChangeSet, BoardFilter, NewBoard};
use issues_service::search::Query;
use issues_service::store::{StoreCall, StoreError, StoreFault};
use issues_service::table::Table;

fn stored_board(id: &str, project_id: &str) -> Board {
    Board { id: id.to_string(), project_id: project_id.to_string() }
}

fn board_table() -> Table<Board> {
    let mut table: Table<Board> = Table::new();
    for (id, project) in [("b1", "P1"), ("b2", "P2"), ("b3", "P1"), ("b4", "P1"), ("b5", "P2")] {
        let inserted =
            table.insert(NewBoard { id: id.to_string(), project_id: project.to_string() });
        assert_eq!(inserted, Ok(vec![stored_board(id, project)]));
    }
    table
}

fn board_query(
    ids: Option<Vec<&str>>,
    project_id: Option<&str>,
    limit: Option<i64>,
    offset: Option<i64>,
) -> Query<BoardFilter> {
    Query {
        ids: ids.map(|ids| ids.into_iter().map(|id| id.to_string()).collect()),
        filter: BoardFilter { project_id: project_id.map(|p| p.to_string()) },
        limit,
        offset,
    }
}

#[test]
fn table_starts_empty() {
    let table: Table<Board> = Table::new();
    assert_eq!(table.len(), 0);
    assert_eq!(table.fetch(&"b1".to_string()), Ok(vec![]));
    assert_eq!(table.load(&board_query(None, None, None, None)), Ok(vec![]));
}

#[test]
fn table_fetch_returns_the_row_with_the_key() {
    let table = board_table();
    assert_eq!(table.fetch(&"b3".to_string()), Ok(vec![stored_board("b3", "P1")]));
    assert_eq!(table.fetch(&"b9".to_string()), Ok(vec![]));
}

#[test]
fn table_insert_refuses_a_key_that_is_taken() {
    let mut table = board_table();
    let again = table.insert(NewBoard { id: "b2".to_string(), project_id: "P9".to_string() });
    assert_eq!(
        again,
        Err(StoreError {
            fault: StoreFault::Other,
            message: "duplicate key value violates unique constraint".to_string(),
        })
    );
    assert_eq!(table.len(), 5);
    assert_eq!(table.fetch(&"b2".to_string()), Ok(vec![stored_board("b2", "P2")]));
}

#[test]
fn table_update_changes_the_row_in_its_place() {
    let mut table = board_table();
    let changes = BoardChangeSet { project_id: Some("P3".to_string()) };
    assert_eq!(table.update(&"b3".to_string(), &changes), Ok(vec![stored_board("b3", "P3")]));
    assert_eq!(
        table.load(&board_query(None, None, None, None)),
        Ok(vec![
            stored_board("b1", "P1"),
            stored_board("b2", "P2"),
            stored_board("b3", "P3"),
            stored_board("b4", "P1"),
            stored_board("b5", "P2"),
        ])
    );
    assert_eq!(table.update(&"b9".to_string(), &changes), Ok(vec![]));
}

#[test]
fn table_update_with_no_change_keeps_the_row() {
    let mut table = board_table();
    let nothing = BoardChangeSet { project_id: None };
    assert_eq!(table.update(&"b4".to_string(), &nothing), Ok(vec![stored_board("b4", "P1")]));
    assert_eq!(table.fetch(&"b4".to_string()), Ok(vec![stored_board("b4", "P1")]));
}

#[test]
fn table_delete_returns_the_row_and_keeps_the_order_of_the_rest() {
    let mut table = board_table();
    assert_eq!(table.delete(&"b2".to_string()), Ok(vec![stored_board("b2", "P2")]));
    assert_eq!(table.delete(&"b2".to_string()), Ok(vec![]));
    assert_eq!(
        table.load(&board_query(None, None, None, None)),
        Ok(vec![
            stored_board("b1", "P1"),
            stored_board("b3", "P1"),
            stored_board("b4", "P1"),
            stored_board("b5", "P2"),
        ])
    );
}

#[test]
fn table_load_combines_the_predicates() {
    let table = board_table();
    assert_eq!(
        table.load(&board_query(None, Some("P1"), None, None)),
        Ok(vec![stored_board("b1", "P1"), stored_board("b3", "P1"), stored_board("b4", "P1")])
    );
    assert_eq!(
        table.load(&board_query(Some(vec!["b5", "b4", "b1"]), Some("P1"), None, None)),
        Ok(vec![stored_board("b1", "P1"), stored_board("b4", "P1")])
    );
    assert_eq!(table.load(&board_query(Some(vec!["b9"]), None, None, None)), Ok(vec![]));
    assert_eq!(table.load(&board_query(None, Some("P9"), None, None)), Ok(vec![]));
}

#[test]
fn table_load_cuts_the_window_of_offset_and_limit() {
    let table = board_table();
    let in_project = |limit, offset| table.load(&board_query(None, Some("P1"), limit, offset));
    assert_eq!(
        in_project(Some(2), None),
        Ok(vec![stored_board("b1", "P1"), stored_board("b3", "P1")])
    );
    assert_eq!(
        in_project(None, Some(1)),
        Ok(vec![stored_board("b3", "P1"), stored_board("b4", "P1")])
    );
    assert_eq!(in_project(Some(1), Some(1)), Ok(vec![stored_board("b3", "P1")]));
    assert_eq!(in_project(Some(0), None), Ok(vec![]));
    assert_eq!(in_project(Some(9), Some(2)), Ok(vec![stored_board("b4", "P1")]));
    assert_eq!(in_project(None, Some(3)), Ok(vec![]));
    assert_eq!(in_project(Some(i64::MAX), Some(i64::MAX)), Ok(vec![]));
}

#[test]
fn table_load_refuses_negative_counts() {
    let table = board_table();
    assert_eq!(
        table.load(&board_query(None, None, Some(-1), Some(-1))),
        Err(StoreError {
            fault: StoreFault::Other,
            message: "LIMIT must not be negative".to_string(),
        })
    );
    assert_eq!(
        table.load(&board_query(None, None, Some(1), Some(-1))),
        Err(StoreError {
            fault: StoreFault::Other,
            message: "OFFSET must not be negative".to_string(),
        })
    );
}

#[test]
fn table_executes_one_operation_per_call() {
    let mut table = board_table();
    let fetch: BoardCall = StoreCall::Fetch { id: "b1".to_string() };
    assert_eq!(table.execute(fetch), Ok(vec![stored_board("b1", "P1")]));
    let search: BoardCall = StoreCall::Search(board_query(None, Some("P2"), None, None));
    assert_eq!(
        table.execute(search),
        Ok(vec![stored_board("b2", "P2"), stored_board("b5", "P2")])
    );
    let insert: BoardCall =
        StoreCall::Insert(NewBoard { id: "b6".to_string(), project_id: "P3".to_string() });
    assert_eq!(table.execute(insert), Ok(vec![stored_board("b6", "P3")]));
    let update: BoardCall = StoreCall::Update {
        id: "b6".to_string(),
        changes: BoardChangeSet { project_id: Some("P4".to_string()) },
    };
    assert_eq!(table.execute(update), Ok(vec![stored_board("b6", "P4")]));
    let delete: BoardCall = StoreCall::Delete { id: "b6".to_string() };
    assert_eq!(table.execute(delete), Ok(vec![stored_board("b6", "P4")]));
    assert_eq!(table.len(), 5);
}
