use issues_service::event::{Event, Reply};
use issues_service::issue::{
    CreateIssue, CreateIssueRequest, DeleteIssue, Issue, IssueChangeSet, IssueFilter, IssueId,
    IssuesController, NewIssue, PartialIssue, SearchIssuesParams, UpdateIssue, UpdateIssueRequest,
};
use issues_service::search::Query;
use issues_service::status::{Code, ErrorDescriptor, Status};
use issues_service::store::{StoreCall, StoreError, StoreFault};
use issues_service::stream::Step;
use issues_service::table::Table;

fn an_issue(id: &str, column_id: &str, epic_id: &str, title: &str, description: &str) -> Issue {
    Issue {
        id: id.to_string(),
        column_id: column_id.to_string(),
        epic_id: epic_id.to_string(),
        title: title.to_string(),
        description: description.to_string(),
    }
}

fn whole_issue(issue: &Issue) -> PartialIssue {
    PartialIssue {
        id: Some(issue.id.clone()),
        column_id: Some(issue.column_id.clone()),
        epic_id: Some(issue.epic_id.clone()),
        title: Some(issue.title.clone()),
        description: Some(issue.description.clone()),
    }
}

fn issue_not_found() -> Status {
    Status { code: Code::NotFound, message: "Issue not found".to_string() }
}

fn issues_table() -> Table<Issue> {
    let mut table: Table<Issue> = Table::new();
    for (id, column, epic, title) in [
        ("i1", "c1", "e1", "login"),
        ("i2", "c1", "e2", "logout"),
        ("i3", "c2", "e1", "signup"),
        ("i4", "c2", "e2", "reset"),
    ] {
        let request = CreateIssueRequest {
            column_id: column.to_string(),
            epic_id: epic.to_string(),
            title: title.to_string(),
            description: String::new(),
        };
        let call = IssuesController::plan_create_issue_with(&request, id.to_string());
        let reply = IssuesController::create_issue(&request, table.execute(call));
        assert_eq!(reply.response, Ok(an_issue(id, column, epic, title, "")));
    }
    table
}

fn no_issue_changes(issue_id: &str) -> UpdateIssueRequest {
    UpdateIssueRequest {
        issue_id: issue_id.to_string(),
        column_id: None,
        epic_id: None,
        title: None,
        description: None,
    }
}

#[test]
fn issue_create_plans_an_insert_of_the_request_fields() {
    let request = CreateIssueRequest {
        column_id: "c1".to_string(),
        epic_id: "e1".to_string(),
        title: "login".to_string(),
        description: "as a user".to_string(),
    };
    assert_eq!(
        IssuesController::plan_create_issue_with(&request, "i1".to_string()),
        StoreCall::Insert(NewIssue {
            id: "i1".to_string(),
            column_id: "c1".to_string(),
            epic_id: "e1".to_string(),
            title: "login".to_string(),
            description: "as a user".to_string(),
        })
    );
}

#[test]
fn issue_update_changes_the_named_fields_only() {
    let mut table = issues_table();
    let request = UpdateIssueRequest {
        title: Some("sign in".to_string()),
        column_id: Some("c3".to_string()),
        ..no_issue_changes("i1")
    };
    let call = IssuesController::plan_update_issue(&request);
    assert_eq!(
        call,
        StoreCall::Update {
            id: "i1".to_string(),
            changes: IssueChangeSet {
                column_id: Some("c3".to_string()),
                epic_id: None,
                title: Some("sign in".to_string()),
                description: None,
            },
        }
    );
    let reply = IssuesController::update_issue(&request, table.execute(call));
    let expected = an_issue("i1", "c3", "e1", "sign in", "");
    assert_eq!(reply.event, Event { entity: whole_issue(&expected), error: None });
    assert_eq!(reply.response, Ok(expected));
}

#[test]
fn issue_update_with_an_empty_changeset_leaves_every_field() {
    let mut table = issues_table();
    let request = no_issue_changes("i2");
    let call = IssuesController::plan_update_issue(&request);
    assert_eq!(call, StoreCall::Fetch { id: "i2".to_string() });
    let reply = IssuesController::update_issue(&request, table.execute(call));
    assert_eq!(reply.response, Ok(an_issue("i2", "c1", "e2", "logout", "")));

    let by_id = IssueId { issue_id: "i2".to_string() };
    let call = IssuesController::plan_get_issue_by_id(&by_id);
    let reply = IssuesController::get_issue_by_id(&by_id, table.execute(call));
    assert_eq!(reply.response, Ok(an_issue("i2", "c1", "e2", "logout", "")));
}

#[test]
fn issue_table_update_with_an_empty_changeset_leaves_every_row() {
    let mut table = issues_table();
    let nothing = IssueChangeSet { column_id: None, epic_id: None, title: None, description: None };
    let call: StoreCall<NewIssue, IssueChangeSet, IssueFilter> =
        StoreCall::Update { id: "i2".to_string(), changes: nothing };
    assert_eq!(table.execute(call), Ok(vec![an_issue("i2", "c1", "e2", "logout", "")]));
    let all: StoreCall<NewIssue, IssueChangeSet, IssueFilter> = StoreCall::Search(Query {
        ids: None,
        filter: IssueFilter { column_id: None, epic_id: None },
        limit: None,
        offset: None,
    });
    assert_eq!(
        table.execute(all),
        Ok(vec![
            an_issue("i1", "c1", "e1", "login", ""),
            an_issue("i2", "c1", "e2", "logout", ""),
            an_issue("i3", "c2", "e1", "signup", ""),
            an_issue("i4", "c2", "e2", "reset", ""),
        ])
    );
}

#[test]
fn issue_update_failure_tells_the_named_fields() {
    let request = UpdateIssueRequest {
        description: Some("steps".to_string()),
        ..no_issue_changes("i9")
    };
    let reply = IssuesController::update_issue(&request, Ok(vec![]));
    assert_eq!(
        reply,
        Reply {
            response: Err(issue_not_found()),
            event: Event {
                entity: PartialIssue {
                    id: Some("i9".to_string()),
                    column_id: None,
                    epic_id: None,
                    title: None,
                    description: Some("steps".to_string()),
                },
                error: Some(ErrorDescriptor { code: 5, message: "NotFound".to_string() }),
            },
        }
    );
}

#[test]
fn issue_search_filters_by_column_and_epic() {
    let mut table = issues_table();
    let params = SearchIssuesParams {
        issues_ids: vec![],
        column_id: Some("c2".to_string()),
        epic_id: Some("e1".to_string()),
        limit: None,
        offset: None,
    };
    let call = IssuesController::plan_search_issues(&params).unwrap();
    let mut emitter = match IssuesController::search_issues(&params, table.execute(call)) {
        Ok(emitter) => emitter,
        Err(failure) => panic!("failed: {:?}", failure),
    };
    assert_eq!(emitter.advance(true), Step::Offer(an_issue("i3", "c2", "e1", "signup", "")));
    match emitter.advance(true) {
        Step::Publish(event) => {
            assert_eq!(event.entities, vec![whole_issue(&an_issue("i3", "c2", "e1", "signup", ""))])
        }
        other => panic!("not the event: {:?}", other),
    }
}

#[test]
fn issue_search_by_epic_looks_at_the_epic() {
    let mut table = issues_table();
    let params = SearchIssuesParams {
        issues_ids: vec![],
        column_id: None,
        epic_id: Some("e2".to_string()),
        limit: None,
        offset: None,
    };
    let call = IssuesController::plan_search_issues(&params).unwrap();
    assert_eq!(
        table.execute(call),
        Ok(vec![an_issue("i2", "c1", "e2", "logout", ""), an_issue("i4", "c2", "e2", "reset", "")])
    );
}

#[test]
fn issue_search_with_an_empty_id_filter_does_not_constrain_ids() {
    let mut table = issues_table();
    let params = SearchIssuesParams {
        issues_ids: vec![],
        column_id: None,
        epic_id: None,
        limit: None,
        offset: None,
    };
    let call = IssuesController::plan_search_issues(&params).unwrap();
    match &call {
        StoreCall::Search(query) => assert_eq!(query.ids, None),
        other => panic!("not a search: {:?}", other),
    }
    assert_eq!(table.execute(call).map(|rows| rows.len()), Ok(4));
}

#[test]
fn issue_search_with_ids_returns_exactly_those() {
    let mut table = issues_table();
    let params = SearchIssuesParams {
        issues_ids: vec!["i4".to_string(), "i1".to_string(), "i7".to_string()],
        column_id: None,
        epic_id: None,
        limit: None,
        offset: None,
    };
    let call = IssuesController::plan_search_issues(&params).unwrap();
    assert_eq!(
        table.execute(call),
        Ok(vec![an_issue("i1", "c1", "e1", "login", ""), an_issue("i4", "c2", "e2", "reset", "")])
    );
}

#[test]
fn issue_delete_of_an_unknown_id_is_not_found() {
    let mut table = issues_table();
    let request = IssueId { issue_id: "i9".to_string() };
    let call = IssuesController::plan_delete_issue(&request);
    let reply = IssuesController::delete_issue(&request, table.execute(call));
    assert_eq!(reply.response, Err(issue_not_found()));
    assert_eq!(table.len(), 4);
}

#[test]
fn issue_repository_takes_the_first_row() {
    let row = || an_issue("i1", "c1", "e1", "login", "");
    assert_eq!(Issue::create(Ok(vec![row()])), Ok(row()));
    assert_eq!(Issue::update(Ok(vec![row()])), Ok(row()));
    assert_eq!(Issue::delete(Ok(vec![row()])), Ok(row()));
    assert_eq!(
        Issue::delete(Ok(vec![])),
        Err(StoreError { fault: StoreFault::NotFound, message: "NotFound".to_string() })
    );
}
