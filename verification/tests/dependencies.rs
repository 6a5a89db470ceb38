use issues_service::dependency::{
    CreateDependency, CreateDependencyRequest, DeleteDependency, DependenciesController,
    Dependency, DependencyChangeSet, DependencyId, NewDependency, PartialDependency,
    SearchDependenciesParams, UpdateDependency, UpdateDependencyRequest,
};
use issues_service::event::{Event, Reply};
use issues_service::status::{Code, ErrorDescriptor, Status};
use issues_service::store::{StoreCall, StoreError, StoreFault};
use issues_service::stream::Step;
use issues_service::table::Table;

fn a_dependency(id: &str, blocking: &str, blocked: &str) -> Dependency {
    Dependency {
        id: id.to_string(),
        blocking_epic_id: blocking.to_string(),
        blocked_epic_id: blocked.to_string(),
    }
}

fn whole_dependency(id: &str, blocking: &str, blocked: &str) -> PartialDependency {
    PartialDependency {
        id: Some(id.to_string()),
        blocking_epic_id: Some(blocking.to_string()),
        blocked_epic_id: Some(blocked.to_string()),
    }
}

fn dependencies_table() -> Table<Dependency> {
    let mut table: Table<Dependency> = Table::new();
    for (id, blocking, blocked) in [("d1", "e1", "e2"), ("d2", "e1", "e3"), ("d3", "e2", "e3")] {
        let request = CreateDependencyRequest {
            blocking_epic_id: blocking.to_string(),
            blocked_epic_id: blocked.to_string(),
        };
        let call = DependenciesController::plan_create_dependency_with(&request, id.to_string());
        DependenciesController::create_dependency(&request, table.execute(call));
    }
    table
}

#[test]
fn dependency_create_returns_the_stored_record() {
    let mut table: Table<Dependency> = Table::new();
    let request = CreateDependencyRequest {
        blocking_epic_id: "e1".to_string(),
        blocked_epic_id: "e2".to_string(),
    };
    let call = DependenciesController::plan_create_dependency_with(&request, "d1".to_string());
    assert_eq!(
        call,
        StoreCall::Insert(NewDependency {
            id: "d1".to_string(),
            blocking_epic_id: "e1".to_string(),
            blocked_epic_id: "e2".to_string(),
        })
    );
    let reply = DependenciesController::create_dependency(&request, table.execute(call));
    assert_eq!(
        reply,
        Reply {
            response: Ok(a_dependency("d1", "e1", "e2")),
            event: Event { entity: whole_dependency("d1", "e1", "e2"), error: None },
        }
    );
}

#[test]
fn dependency_get_of_an_unknown_id_is_not_found() {
    let mut table = dependencies_table();
    let request = DependencyId { dependency_id: "d9".to_string() };
    let call = DependenciesController::plan_get_dependency_by_id(&request);
    let reply = DependenciesController::get_dependency_by_id(&request, table.execute(call));
    assert_eq!(
        reply,
        Reply {
            response: Err(Status {
                code: Code::NotFound,
                message: "Dependency not found".to_string(),
            }),
            event: Event {
                entity: PartialDependency {
                    id: Some("d9".to_string()),
                    blocking_epic_id: None,
                    blocked_epic_id: None,
                },
                error: Some(ErrorDescriptor {
                    code: 5,
                    message: "Dependency not found".to_string(),
                }),
            },
        }
    );
}

#[test]
fn dependency_update_changes_one_side() {
    let mut table = dependencies_table();
    let request = UpdateDependencyRequest {
        dependency_id: "d2".to_string(),
        blocking_epic_id: None,
        blocked_epic_id: Some("e4".to_string()),
    };
    let call = DependenciesController::plan_update_dependency(&request);
    assert_eq!(
        call,
        StoreCall::Update {
            id: "d2".to_string(),
            changes: DependencyChangeSet {
                blocking_epic_id: None,
                blocked_epic_id: Some("e4".to_string()),
            },
        }
    );
    let reply = DependenciesController::update_dependency(&request, table.execute(call));
    assert_eq!(reply.response, Ok(a_dependency("d2", "e1", "e4")));
}

#[test]
fn dependency_search_by_both_sides() {
    let mut table = dependencies_table();
    let params = SearchDependenciesParams {
        dependencies_ids: vec![],
        blocking_epic_id: Some("e1".to_string()),
        blocked_epic_id: Some("e3".to_string()),
        limit: None,
        offset: None,
    };
    let call = DependenciesController::plan_search_dependencies(&params).unwrap();
    let mut emitter =
        match DependenciesController::search_dependencies(&params, table.execute(call)) {
            Ok(emitter) => emitter,
            Err(failure) => panic!("failed: {:?}", failure),
        };
    assert_eq!(emitter.advance(true), Step::Offer(a_dependency("d2", "e1", "e3")));
    match emitter.advance(true) {
        Step::Publish(event) => {
            assert_eq!(event.entities, vec![whole_dependency("d2", "e1", "e3")]);
            assert_eq!(event.search_params, params);
        }
        other => panic!("not the event: {:?}", other),
    }
}

#[test]
fn dependency_search_limit_bounds_the_rows() {
    let mut table = dependencies_table();
    let params = SearchDependenciesParams {
        dependencies_ids: vec![],
        blocking_epic_id: None,
        blocked_epic_id: Some("e3".to_string()),
        limit: Some(1),
        offset: None,
    };
    let call = DependenciesController::plan_search_dependencies(&params).unwrap();
    assert_eq!(table.execute(call), Ok(vec![a_dependency("d2", "e1", "e3")]));
}

#[test]
fn dependency_delete_returns_the_record_as_it_was() {
    let mut table = dependencies_table();
    let request = DependencyId { dependency_id: "d1".to_string() };
    let call = DependenciesController::plan_delete_dependency(&request);
    let reply = DependenciesController::delete_dependency(&request, table.execute(call));
    assert_eq!(reply.response, Ok(a_dependency("d1", "e1", "e2")));
    assert_eq!(reply.event, Event { entity: whole_dependency("d1", "e1", "e2"), error: None });
}

#[test]
fn dependency_repository_takes_the_first_row() {
    let row = || a_dependency("d1", "e1", "e2");
    assert_eq!(Dependency::create(Ok(vec![row()])), Ok(row()));
    assert_eq!(Dependency::update(Ok(vec![row()])), Ok(row()));
    assert_eq!(Dependency::delete(Ok(vec![row()])), Ok(row()));
    assert_eq!(
        Dependency::update(Ok(vec![])),
        Err(StoreError { fault: StoreFault::NotFound, message: "NotFound".to_string() })
    );
}
