use task_store::dispatch::{
    respond, Completion, Endpoint, Event, Lifecycle, Method, Response, WorkerReport,
};
use task_store::models::Task;
use task_store::store::{Payload, StoreError};

fn task() -> Task {
    Task { id: 4, title: String::from("water plants"), description: None, completed: true }
}

fn endpoints() -> Vec<Endpoint> {
    vec![Endpoint::List, Endpoint::Create, Endpoint::Get, Endpoint::Update, Endpoint::Delete]
}

#[test]
fn routes_are_those_of_the_service() {
    assert_eq!((Endpoint::List.method(), Endpoint::List.path()), (Method::Get, "/tasks"));
    assert_eq!((Endpoint::Create.method(), Endpoint::Create.path()), (Method::Post, "/task_create"));
    assert_eq!((Endpoint::Get.method(), Endpoint::Get.path()), (Method::Get, "/task/{id}"));
    assert_eq!((Endpoint::Update.method(), Endpoint::Update.path()), (Method::Patch, "/task/{id}"));
    assert_eq!((Endpoint::Delete.method(), Endpoint::Delete.path()), (Method::Delete, "/task/{id}"));
}

#[test]
fn success_is_200_with_the_value_as_body() {
    for endpoint in [Endpoint::Get, Endpoint::Update, Endpoint::Delete] {
        let report = WorkerReport::Returned(Ok(Some(Payload::Task(task()))));
        assert_eq!(
            respond(endpoint, report),
            Response { status: 200, body: Some(Payload::Task(task())) }
        );
    }
}

#[test]
fn listing_is_200_with_the_collection_as_body() {
    let report = WorkerReport::Returned(Ok(Some(Payload::Tasks(vec![task(), task()]))));
    assert_eq!(
        respond(Endpoint::List, report),
        Response { status: 200, body: Some(Payload::Tasks(vec![task(), task()])) }
    );
}

#[test]
fn empty_listing_is_still_a_success() {
    let report = WorkerReport::Returned(Ok(Some(Payload::Tasks(vec![]))));
    assert_eq!(
        respond(Endpoint::List, report),
        Response { status: 200, body: Some(Payload::Tasks(vec![])) }
    );
}

#[test]
fn creation_is_201_with_the_task_as_body() {
    let report = WorkerReport::Returned(Ok(Some(Payload::Task(task()))));
    assert_eq!(
        respond(Endpoint::Create, report),
        Response { status: 201, body: Some(Payload::Task(task())) }
    );
}

#[test]
fn absence_is_404_without_a_body() {
    for endpoint in endpoints() {
        assert_eq!(
            respond(endpoint, WorkerReport::Returned(Ok(None))),
            Response { status: 404, body: None }
        );
    }
}

#[test]
fn store_error_is_500_without_a_body() {
    for endpoint in endpoints() {
        assert_eq!(
            respond(endpoint, WorkerReport::Returned(Err(StoreError::Backend))),
            Response { status: 500, body: None }
        );
    }
}

#[test]
fn pool_failure_is_500_without_a_body() {
    for endpoint in endpoints() {
        assert_eq!(
            respond(endpoint, WorkerReport::NoConnection),
            Response { status: 500, body: None }
        );
    }
}

#[test]
fn lost_worker_is_500_without_a_body() {
    for endpoint in endpoints() {
        assert_eq!(respond(endpoint, WorkerReport::Lost), Response { status: 500, body: None });
    }
}

#[test]
fn reports_are_classified() {
    assert_eq!(
        Completion::of(&WorkerReport::Returned(Ok(Some(Payload::Task(task()))))),
        Completion::Success
    );
    assert_eq!(Completion::of(&WorkerReport::Returned(Ok(None))), Completion::NotFound);
    assert_eq!(
        Completion::of(&WorkerReport::Returned(Err(StoreError::Backend))),
        Completion::Error
    );
    assert_eq!(Completion::of(&WorkerReport::NoConnection), Completion::Error);
    assert_eq!(Completion::of(&WorkerReport::Lost), Completion::Error);
}

#[test]
fn status_codes_follow_the_table() {
    for endpoint in endpoints() {
        let success = if endpoint == Endpoint::Create { 201 } else { 200 };
        assert_eq!(Completion::Success.status(endpoint), success);
        assert_eq!(Completion::NotFound.status(endpoint), 404);
        assert_eq!(Completion::Error.status(endpoint), 500);
    }
}

#[test]
fn request_goes_from_received_to_dispatched_to_completed() {
    let state = Lifecycle::Received;
    assert!(!state.is_terminal());
    let state = state.advance(Event::Handed);
    assert_eq!(state, Lifecycle::Dispatched);
    assert!(!state.is_terminal());
    let state = state.advance(Event::Reported(Completion::NotFound));
    assert_eq!(state, Lifecycle::Completed(Completion::NotFound));
    assert!(state.is_terminal());
}

#[test]
fn completed_request_takes_no_further_event() {
    for completion in [Completion::Success, Completion::NotFound, Completion::Error] {
        let state = Lifecycle::Completed(completion);
        assert_eq!(state.advance(Event::Handed), state);
        for other in [Completion::Success, Completion::NotFound, Completion::Error] {
            assert_eq!(state.advance(Event::Reported(other)), state);
        }
    }
}

#[test]
fn events_out_of_turn_change_nothing() {
    assert_eq!(
        Lifecycle::Received.advance(Event::Reported(Completion::Success)),
        Lifecycle::Received
    );
    assert_eq!(Lifecycle::Dispatched.advance(Event::Handed), Lifecycle::Dispatched);
}

#[test]
fn terminal_states_are_the_three_completions() {
    assert!(Lifecycle::Completed(Completion::Success).is_terminal());
    assert!(Lifecycle::Completed(Completion::NotFound).is_terminal());
    assert!(Lifecycle::Completed(Completion::Error).is_terminal());
    assert!(!Lifecycle::Received.is_terminal());
    assert!(!Lifecycle::Dispatched.is_terminal());
}
