//! The request dispatcher's decisions: where each request stands, and what
//! response the report of its worker turns into.
//!
//! A request is handed to a worker, which acquires a connection and runs one
//! store operation. The dispatcher itself never blocks and never retries: it
//! hands the request out once and answers with what came back.

use vstd::prelude::*;
use crate::store::{result_view, Payload, PayloadView, StoreResult, StoreResultView};

verus! {

/// The request methods that the service answers.
#[derive(Debug, Clone, Copy, PartialEq, Eq, Structural)]
pub enum Method {
    Get,
    Post,
    Patch,
    Delete,
}

/// The five operations that the service exposes.
#[derive(Debug, Clone, Copy, PartialEq, Eq, Structural)]
pub enum Endpoint {
    /// All tasks.
    List,
    /// A new task.
    Create,
    /// One task, by id.
    Get,
    /// A partial update of one task, by id.
    Update,
    /// The removal of one task, by id.
    Delete,
}

/// How a request ended.
#[derive(Debug, Clone, Copy, PartialEq, Eq, Structural)]
pub enum Completion {
    /// The operation returned a value.
    Success,
    /// The operation found no such task.
    NotFound,
    /// The operation could not be executed.
    Error,
}

/// Where a request stands.
#[derive(Debug, Clone, Copy, PartialEq, Eq, Structural)]
pub enum Lifecycle {
    /// Accepted, not yet handed to a worker.
    Received,
    /// Handed to a worker, whose report is awaited.
    Dispatched,
    /// Answered. Nothing follows.
    Completed(Completion),
}

/// What happens to a request.
#[derive(Debug, Clone, Copy, PartialEq, Eq, Structural)]
pub enum Event {
    /// The request was handed to a worker.
    Handed,
    /// The worker's report arrived and was classified.
    Reported(Completion),
}

/// What a worker brings back.
#[derive(Debug, PartialEq, Eq)]
pub enum WorkerReport {
    /// The worker was lost before it could run the operation to its end.
    Lost,
    /// The pool gave the worker no connection.
    NoConnection,
    /// The store operation ran and returned.
    Returned(StoreResult),
}

/// A worker's report as contracts see it.
pub enum WorkerReportView {
    Lost,
    NoConnection,
    Returned(StoreResultView),
}

impl View for WorkerReport {
    type V = WorkerReportView;

    open spec fn view(&self) -> WorkerReportView {
        match *self {
            WorkerReport::Lost => WorkerReportView::Lost,
            WorkerReport::NoConnection => WorkerReportView::NoConnection,
            WorkerReport::Returned(result) => WorkerReportView::Returned(result_view(result)),
        }
    }
}

/// The answer to a request: a status code and, on success only, a body.
#[derive(Debug, PartialEq, Eq)]
pub struct Response {
    pub status: u16,
    pub body: Option<Payload>,
}

/// A response as contracts see it.
pub struct ResponseView {
    pub status: int,
    pub body: Option<PayloadView>,
}

impl View for Response {
    type V = ResponseView;

    open spec fn view(&self) -> ResponseView {
        ResponseView {
            status: self.status as int,
            body: match self.body {
                Some(payload) => Some(payload@),
                None => None,
            },
        }
    }
}

/// The method of each endpoint.
pub open spec fn method_spec(endpoint: Endpoint) -> Method {
    match endpoint {
        Endpoint::List => Method::Get,
        Endpoint::Create => Method::Post,
        Endpoint::Get => Method::Get,
        Endpoint::Update => Method::Patch,
        Endpoint::Delete => Method::Delete,
    }
}

/// The path pattern of each endpoint; `{id}` stands for the task's id.
pub open spec fn path_spec(endpoint: Endpoint) -> Seq<char> {
    match endpoint {
        Endpoint::List => "/tasks"@,
        Endpoint::Create => "/task_create"@,
        _ => "/task/{id}"@,
    }
}

/// How a worker's report counts: a value is a success, nothing is "not
/// found", and everything else is an error, whether the store failed, the
/// pool gave no connection or the worker was lost.
pub open spec fn completion_spec(report: WorkerReportView) -> Completion {
    match report {
        WorkerReportView::Returned(Ok(Some(_))) => Completion::Success,
        WorkerReportView::Returned(Ok(None)) => Completion::NotFound,
        _ => Completion::Error,
    }
}

/// The status code of each ending: a creation succeeds with 201, everything
/// else with 200; "not found" is 404 and an error 500, whatever the endpoint.
pub open spec fn status_spec(endpoint: Endpoint, completion: Completion) -> int {
    match completion {
        Completion::Success => if endpoint == Endpoint::Create {
            201
        } else {
            200
        },
        Completion::NotFound => 404,
        Completion::Error => 500,
    }
}

/// The response to a report: the status of its ending, and the value as the
/// body where there is one. Neither "not found" nor an error carries a body,
/// so nothing of a failure reaches the client.
pub open spec fn respond_spec(endpoint: Endpoint, report: WorkerReportView) -> ResponseView {
    ResponseView {
        status: status_spec(endpoint, completion_spec(report)),
        body: match report {
            WorkerReportView::Returned(Ok(Some(payload))) => Some(payload),
            _ => None,
        },
    }
}

/// The transition function of a request: a received request is handed out, a
/// dispatched one completes with its report, and an event out of turn
/// changes nothing.
pub open spec fn advance_spec(state: Lifecycle, event: Event) -> Lifecycle {
    match (state, event) {
        (Lifecycle::Received, Event::Handed) => Lifecycle::Dispatched,
        (Lifecycle::Dispatched, Event::Reported(completion)) => Lifecycle::Completed(completion),
        _ => state,
    }
}

impl Endpoint {
    /// The method under which the endpoint is served.
    pub fn method(self) -> (method: Method)
        ensures
            method == method_spec(self),
    {
        match self {
            Endpoint::List => Method::Get,
            Endpoint::Create => Method::Post,
            Endpoint::Get => Method::Get,
            Endpoint::Update => Method::Patch,
            Endpoint::Delete => Method::Delete,
        }
    }

    /// The path pattern under which the endpoint is served.
    pub fn path(self) -> (path: &'static str)
        ensures
            path@ == path_spec(self),
    {
        match self {
            Endpoint::List => "/tasks",
            Endpoint::Create => "/task_create",
            Endpoint::Get => "/task/{id}",
            Endpoint::Update => "/task/{id}",
            Endpoint::Delete => "/task/{id}",
        }
    }
}

impl Completion {
    /// Classifies a worker's report.
    pub fn of(report: &WorkerReport) -> (completion: Completion)
        ensures
            completion == completion_spec(report@),
    {
        match report {
            WorkerReport::Returned(Ok(Some(_))) => Completion::Success,
            WorkerReport::Returned(Ok(None)) => Completion::NotFound,
            _ => Completion::Error,
        }
    }

    /// The status code with which a request to `endpoint` ends this way.
    pub fn status(self, endpoint: Endpoint) -> (status: u16)
        ensures
            status == status_spec(endpoint, self),
    {
        match self {
            Completion::Success => match endpoint {
                Endpoint::Create => 201,
                _ => 200,
            },
            Completion::NotFound => 404,
            Completion::Error => 500,
        }
    }
}

impl Lifecycle {
    /// Whether the request is over.
    pub fn is_terminal(self) -> (terminal: bool)
        ensures
            terminal == (self is Completed),
    {
        match self {
            Lifecycle::Completed(_) => true,
            _ => false,
        }
    }

    /// Takes an event.
    pub fn advance(self, event: Event) -> (next: Lifecycle)
        ensures
            next == advance_spec(self, event),
    {
        match self {
            Lifecycle::Received => match event {
                Event::Handed => Lifecycle::Dispatched,
                _ => self,
            },
            Lifecycle::Dispatched => match event {
                Event::Reported(completion) => Lifecycle::Completed(completion),
                _ => self,
            },
            _ => self,
        }
    }
}

/// Turns a worker's report into the response to send.
pub fn respond(endpoint: Endpoint, report: WorkerReport) -> (response: Response)
    ensures
        response@ == respond_spec(endpoint, report@),
{
    let status = Completion::of(&report).status(endpoint);
    let body = match report {
        WorkerReport::Returned(Ok(Some(payload))) => Some(payload),
        _ => None,
    };
    Response { status, body }
}

/// A completed request stays as it is, whatever happens: there are no
/// retries.
pub proof fn completed_is_final(completion: Completion, event: Event)
    ensures
        advance_spec(Lifecycle::Completed(completion), event) == Lifecycle::Completed(completion),
{
}

/// A request completes in one way only: it is handed out, and then its
/// worker reports.
pub proof fn completion_follows_dispatch(state: Lifecycle, event: Event)
    requires
        !(state is Completed),
        advance_spec(state, event) is Completed,
    ensures
        state == Lifecycle::Dispatched,
        event matches Event::Reported(completion) && advance_spec(state, event)
            == Lifecycle::Completed(completion),
{
}

/// Every ending has its own status: the code tells success, absence and
/// failure apart.
pub proof fn status_tells_the_ending(endpoint: Endpoint, a: Completion, b: Completion)
    requires
        status_spec(endpoint, a) == status_spec(endpoint, b),
    ensures
        a == b,
{
}

/// A response has a body exactly when the request succeeded, and its status
/// is one of 200, 201, 404 and 500.
pub proof fn responses_are_well_formed(endpoint: Endpoint, report: WorkerReportView)
    ensures
        respond_spec(endpoint, report).body is Some <==> completion_spec(report)
            == Completion::Success,
        respond_spec(endpoint, report).status == 200 || respond_spec(endpoint, report).status == 201
            || respond_spec(endpoint, report).status == 404 || respond_spec(
            endpoint,
            report,
        ).status == 500,
        respond_spec(endpoint, report).status == 201 <==> endpoint == Endpoint::Create
            && completion_spec(report) == Completion::Success,
{
}

} // verus!
