//! The task store: the five operations on the task table, each as a state
//! machine over queries and replies.
//!
//! An [`Operation`] names the query to run next ([`Operation::query`]). The
//! caller runs it on a connection it holds, and hands the backend's reply to
//! [`Operation::resume`], which either finishes or moves on to the second
//! query of a read-then-write operation. Absence of a row is a result
//! (`Ok(None)`), never an error: at the fetch, and at the write of an update
//! whose row another caller has deleted in between.

use vstd::prelude::*;
use crate::merge::{merge, merge_spec};
use crate::models::{
    own_text, str_view, NewTask, NewTaskView, Task, TaskView, UpdateTask, UpdateTaskView,
};

verus! {

/// Why an operation could not be carried out.
#[derive(Debug, Clone, Copy, PartialEq, Eq, Structural)]
pub enum StoreError {
    /// The backend failed, or answered what the query cannot be answered with.
    Backend,
}

/// One statement against the task table.
#[derive(Debug, PartialEq, Eq)]
pub enum Query<'a> {
    /// Insert a row and hand it back as stored.
    Insert(&'a NewTask),
    /// Fetch the row with this id.
    SelectById(i32),
    /// Fetch every row.
    SelectAll,
    /// Overwrite the row with this id and hand it back as stored.
    UpdateById(i32, &'a Task),
    /// Delete the row with this id.
    DeleteById(i32),
}

/// A statement as contracts see it.
pub enum QueryView {
    Insert(NewTaskView),
    SelectById(int),
    SelectAll,
    UpdateById(int, TaskView),
    DeleteById(int),
}

impl<'a> View for Query<'a> {
    type V = QueryView;

    open spec fn view(&self) -> QueryView {
        match *self {
            Query::Insert(new_task) => QueryView::Insert(new_task@),
            Query::SelectById(id) => QueryView::SelectById(id as int),
            Query::SelectAll => QueryView::SelectAll,
            Query::UpdateById(id, task) => QueryView::UpdateById(id as int, task@),
            Query::DeleteById(id) => QueryView::DeleteById(id as int),
        }
    }
}

/// What the backend answered to a statement.
#[derive(Debug, PartialEq, Eq)]
pub enum Reply {
    /// The one row that the statement returned.
    Row(Task),
    /// All the rows that the statement returned.
    Rows(Vec<Task>),
    /// The number of rows that the statement changed.
    Affected(usize),
    /// The statement was to return a row and returned none.
    NotFound,
    /// The statement could not be executed.
    Failed,
}

/// A reply as contracts see it.
pub enum ReplyView {
    Row(TaskView),
    Rows(Seq<TaskView>),
    Affected(nat),
    NotFound,
    Failed,
}

/// The rows of a list, each by its view.
pub open spec fn rows_view(rows: Seq<Task>) -> Seq<TaskView> {
    rows.map_values(|task: Task| task@)
}

impl View for Reply {
    type V = ReplyView;

    open spec fn view(&self) -> ReplyView {
        match *self {
            Reply::Row(task) => ReplyView::Row(task@),
            Reply::Rows(tasks) => ReplyView::Rows(rows_view(tasks@)),
            Reply::Affected(count) => ReplyView::Affected(count as nat),
            Reply::NotFound => ReplyView::NotFound,
            Reply::Failed => ReplyView::Failed,
        }
    }
}

/// What a finished operation hands to its caller.
#[derive(Debug, PartialEq, Eq)]
pub enum Payload {
    /// A single task.
    Task(Task),
    /// The whole collection.
    Tasks(Vec<Task>),
}

/// A payload as contracts see it.
pub enum PayloadView {
    Task(TaskView),
    Tasks(Seq<TaskView>),
}

impl View for Payload {
    type V = PayloadView;

    open spec fn view(&self) -> PayloadView {
        match *self {
            Payload::Task(task) => PayloadView::Task(task@),
            Payload::Tasks(tasks) => PayloadView::Tasks(rows_view(tasks@)),
        }
    }
}

/// The result of an operation: a value, nothing, or an error.
pub type StoreResult = Result<Option<Payload>, StoreError>;

/// The result of an operation as contracts see it.
pub type StoreResultView = Result<Option<PayloadView>, StoreError>;

/// The view of a result.
pub open spec fn result_view(result: StoreResult) -> StoreResultView {
    match result {
        Ok(Some(payload)) => Ok(Some(payload@)),
        Ok(None) => Ok(None),
        Err(error) => Err(error),
    }
}

/// The result that holds one task.
pub open spec fn found(task: TaskView) -> StoreResultView {
    Ok(Some(PayloadView::Task(task)))
}

/// The result that holds the whole collection.
pub open spec fn found_all(tasks: Seq<TaskView>) -> StoreResultView {
    Ok(Some(PayloadView::Tasks(tasks)))
}

/// The result that holds nothing: there is no such task.
pub open spec fn absent() -> StoreResultView {
    Ok(None)
}

/// The result of an operation that could not be carried out.
pub open spec fn failed() -> StoreResultView {
    Err(StoreError::Backend)
}

/// An operation in progress. Each variant is a state in which exactly one
/// query is outstanding.
#[derive(Debug, PartialEq, Eq)]
pub enum Operation {
    /// Insert the task; finish with the row as stored.
    Create(NewTask),
    /// Fetch the row; finish with it, or with nothing.
    Find(i32),
    /// Fetch all rows; finish with them.
    List,
    /// First half of an update: fetch the current row.
    Update { id: i32, patch: UpdateTask },
    /// Second half of an update: write the merged row back; finish with the
    /// row as stored, or with nothing if it has gone.
    Write { id: i32, merged: Task },
    /// First half of a deletion: fetch the current row.
    Delete { id: i32 },
    /// Second half of a deletion: delete, and keep the row as it was.
    Remove { id: i32, snapshot: Task },
}

/// An operation in progress as contracts see it.
pub enum OperationView {
    Create(NewTaskView),
    Find(int),
    List,
    Update { id: int, patch: UpdateTaskView },
    Write { id: int, merged: TaskView },
    Delete { id: int },
    Remove { id: int, snapshot: TaskView },
}

impl View for Operation {
    type V = OperationView;

    open spec fn view(&self) -> OperationView {
        match *self {
            Operation::Create(new_task) => OperationView::Create(new_task@),
            Operation::Find(id) => OperationView::Find(id as int),
            Operation::List => OperationView::List,
            Operation::Update { id, patch } => OperationView::Update { id: id as int, patch: patch@ },
            Operation::Write { id, merged } => OperationView::Write { id: id as int, merged: merged@ },
            Operation::Delete { id } => OperationView::Delete { id: id as int },
            Operation::Remove { id, snapshot } => OperationView::Remove {
                id: id as int,
                snapshot: snapshot@,
            },
        }
    }
}

/// What an operation does with a reply.
#[derive(Debug, PartialEq, Eq)]
pub enum Step {
    /// Another query is due: that of the operation held here.
    Continue(Operation),
    /// The operation is over.
    Finished(StoreResult),
}

/// A step as contracts see it.
pub enum StepView {
    Continue(OperationView),
    Finished(StoreResultView),
}

impl View for Step {
    type V = StepView;

    open spec fn view(&self) -> StepView {
        match *self {
            Step::Continue(operation) => StepView::Continue(operation@),
            Step::Finished(result) => StepView::Finished(result_view(result)),
        }
    }
}

/// The query that is outstanding in a state.
pub open spec fn query_spec(operation: OperationView) -> QueryView {
    match operation {
        OperationView::Create(new_task) => QueryView::Insert(new_task),
        OperationView::Find(id) => QueryView::SelectById(id),
        OperationView::List => QueryView::SelectAll,
        OperationView::Update { id, patch } => QueryView::SelectById(id),
        OperationView::Write { id, merged } => QueryView::UpdateById(id, merged),
        OperationView::Delete { id } => QueryView::SelectById(id),
        OperationView::Remove { id, snapshot } => QueryView::DeleteById(id),
    }
}

/// The number of queries that a state may still issue, the outstanding one
/// included.
pub open spec fn queries_left(operation: OperationView) -> nat {
    match operation {
        OperationView::Update { id, patch } => 2,
        OperationView::Delete { id } => 2,
        _ => 1,
    }
}

/// The transition function of the store.
///
/// - A row answers an insert, a fetch or a write: the insert, the plain
///   fetch and the write finish with it; the fetch of an update leads to the
///   write of the merged row, the fetch of a deletion to the delete, with
///   the row kept as the snapshot.
/// - "Not found" answers a fetch of any of the three kinds, or a write
///   whose row has gone since the fetch: the operation finishes with
///   nothing, and issues no further query.
/// - A count answers a delete, whatever the count: the deletion finishes
///   with its snapshot.
/// - Rows answer the fetch of all: the listing finishes with them.
/// - Every other pairing is a failure, or a reply that the statement cannot
///   have, and finishes with [`StoreError::Backend`].
pub open spec fn resume_spec(operation: OperationView, reply: ReplyView) -> StepView {
    match (operation, reply) {
        (OperationView::Create(new_task), ReplyView::Row(row)) => StepView::Finished(found(row)),
        (OperationView::Find(id), ReplyView::Row(row)) => StepView::Finished(found(row)),
        (OperationView::Find(id), ReplyView::NotFound) => StepView::Finished(absent()),
        (OperationView::List, ReplyView::Rows(rows)) => StepView::Finished(found_all(rows)),
        (OperationView::Update { id, patch }, ReplyView::Row(row)) => StepView::Continue(
            OperationView::Write { id: id, merged: merge_spec(row, patch) },
        ),
        (OperationView::Update { id, patch }, ReplyView::NotFound) => StepView::Finished(absent()),
        (OperationView::Write { id, merged }, ReplyView::Row(row)) => StepView::Finished(found(row)),
        (OperationView::Write { id, merged }, ReplyView::NotFound) => StepView::Finished(absent()),
        (OperationView::Delete { id }, ReplyView::Row(row)) => StepView::Continue(
            OperationView::Remove { id: id, snapshot: row },
        ),
        (OperationView::Delete { id }, ReplyView::NotFound) => StepView::Finished(absent()),
        (OperationView::Remove { id, snapshot }, ReplyView::Affected(count)) => StepView::Finished(
            found(snapshot),
        ),
        _ => StepView::Finished(failed()),
    }
}

impl Operation {
    /// The query to run now.
    pub fn query(&self) -> (query: Query<'_>)
        ensures
            query@ == query_spec(self@),
    {
        match self {
            Operation::Create(new_task) => Query::Insert(new_task),
            Operation::Find(id) => Query::SelectById(*id),
            Operation::List => Query::SelectAll,
            Operation::Update { id, patch: _ } => Query::SelectById(*id),
            Operation::Write { id, merged } => Query::UpdateById(*id, merged),
            Operation::Delete { id } => Query::SelectById(*id),
            Operation::Remove { id, snapshot: _ } => Query::DeleteById(*id),
        }
    }

    /// Takes the backend's reply to [`Operation::query`] and decides what
    /// follows. A step that continues has strictly fewer queries left, so a
    /// caller that loops on `resume` stops after at most two queries.
    pub fn resume(self, reply: Reply) -> (step: Step)
        ensures
            step@ == resume_spec(self@, reply@),
            step@ matches StepView::Continue(next) ==> queries_left(next) < queries_left(self@),
    {
        match self {
            Operation::Create(_) => match reply {
                Reply::Row(row) => Step::Finished(Ok(Some(Payload::Task(row)))),
                _ => Step::Finished(Err(StoreError::Backend)),
            },
            Operation::Find(_) => match reply {
                Reply::Row(row) => Step::Finished(Ok(Some(Payload::Task(row)))),
                Reply::NotFound => Step::Finished(Ok(None)),
                _ => Step::Finished(Err(StoreError::Backend)),
            },
            Operation::List => match reply {
                Reply::Rows(rows) => Step::Finished(Ok(Some(Payload::Tasks(rows)))),
                _ => Step::Finished(Err(StoreError::Backend)),
            },
            Operation::Update { id, patch } => match reply {
                Reply::Row(row) => Step::Continue(Operation::Write { id, merged: merge(row, patch) }),
                Reply::NotFound => Step::Finished(Ok(None)),
                _ => Step::Finished(Err(StoreError::Backend)),
            },
            Operation::Write { id: _, merged: _ } => match reply {
                Reply::Row(row) => Step::Finished(Ok(Some(Payload::Task(row)))),
                Reply::NotFound => Step::Finished(Ok(None)),
                _ => Step::Finished(Err(StoreError::Backend)),
            },
            Operation::Delete { id } => match reply {
                Reply::Row(row) => Step::Continue(Operation::Remove { id, snapshot: row }),
                Reply::NotFound => Step::Finished(Ok(None)),
                _ => Step::Finished(Err(StoreError::Backend)),
            },
            Operation::Remove { id: _, snapshot } => match reply {
                Reply::Affected(_) => Step::Finished(Ok(Some(Payload::Task(snapshot)))),
                _ => Step::Finished(Err(StoreError::Backend)),
            },
        }
    }
}

/// Starts the creation of a task. An absent `desc` or `comp` is left absent:
/// the storage resolves it to its own default.
pub fn create_task(title: &str, desc: Option<&str>, comp: Option<bool>) -> (operation: Operation)
    ensures
        operation@ == OperationView::Create(
            NewTaskView { title: title@, description: str_view(desc), completed: comp },
        ),
{
    Operation::Create(
        NewTask { title: title.to_owned(), description: own_text(desc), completed: comp },
    )
}

/// Starts the lookup of a task by its id.
pub fn find_task_by_id(task_id: i32) -> (operation: Operation)
    ensures
        operation@ == OperationView::Find(task_id as int),
{
    Operation::Find(task_id)
}

/// Starts the listing of all tasks.
pub fn find_all_tasks() -> (operation: Operation)
    ensures
        operation@ == OperationView::List,
{
    Operation::List
}

/// Starts a partial update: a fetch of the current row, then a write of that
/// row merged with the fields given here.
pub fn update_task(
    task_id: i32,
    title: Option<&str>,
    desc: Option<&str>,
    comp: Option<bool>,
) -> (operation: Operation)
    ensures
        operation@ == (OperationView::Update {
            id: task_id as int,
            patch: UpdateTaskView {
                title: str_view(title),
                description: str_view(desc),
                completed: comp,
            },
        }),
{
    Operation::Update {
        id: task_id,
        patch: UpdateTask { title: own_text(title), description: own_text(desc), completed: comp },
    }
}

/// Starts a deletion: a fetch of the current row, then the delete.
pub fn delete_task(task_id: i32) -> (operation: Operation)
    ensures
        operation@ == (OperationView::Delete { id: task_id as int }),
{
    Operation::Delete { id: task_id }
}

} // verus!
