//! The task table as the store expects it to behave.
//!
//! The store never sees the table: it sees replies. What it may rely on is
//! written down here as a relation between the table before a statement, the
//! statement, the reply and the table after it. Everything in this module is
//! ghost code: the laws of the store are stated for a backend whose
//! replies satisfy [`answers`], run by one caller at a time.

use vstd::prelude::*;
use crate::models::{NewTaskView, TaskView};
use crate::store::{
    found, query_spec, resume_spec, OperationView, QueryView, ReplyView, StepView,
    StoreResultView,
};

verus! {

/// The rows of the table, by id.
pub type Table = Map<int, TaskView>;

/// What the storage fills in where a creation intent leaves a field absent.
pub struct Defaults {
    pub description: Option<Seq<char>>,
    pub completed: bool,
}

/// Every stored task is filed under its own id, and there are finitely many.
pub open spec fn well_formed(table: Table) -> bool {
    &&& table.dom().finite()
    &&& forall|id: int| table.dom().contains(id) ==> (#[trigger] table[id]).id == id
}

/// The row that an insert stores under `id`: the intent's fields where it
/// names them, the storage's defaults where it does not.
pub open spec fn stored(new_task: NewTaskView, defaults: Defaults, id: int) -> TaskView {
    TaskView {
        id: id,
        title: new_task.title,
        description: match new_task.description {
            Some(description) => Some(description),
            None => defaults.description,
        },
        completed: match new_task.completed {
            Some(completed) => completed,
            None => defaults.completed,
        },
    }
}

/// The ids of some rows, in their order.
pub open spec fn ids_of(rows: Seq<TaskView>) -> Seq<int> {
    rows.map_values(|row: TaskView| row.id)
}

/// `rows` enumerates the table: every stored row once, in any order.
pub open spec fn lists(table: Table, rows: Seq<TaskView>) -> bool {
    &&& ids_of(rows).no_duplicates()
    &&& ids_of(rows).to_set() == table.dom()
    &&& forall|i: int| 0 <= i < rows.len() ==> table[(#[trigger] rows[i]).id] == rows[i]
}

/// The backend's side of the contract: in table `pre` the statement `query`
/// is answered by `reply` and leaves `post`.
///
/// - An insert picks an id that no stored row has, stores the resolved row
///   under it and returns that row.
/// - A fetch by id returns the row, or "not found"; a fetch of all returns an
///   enumeration. Neither changes the table.
/// - An update overwrites every field but the id and returns the row as it
///   now stands, or answers "not found" and changes nothing.
/// - A delete removes the row if there is one and counts what it removed.
pub open spec fn answers(
    defaults: Defaults,
    pre: Table,
    query: QueryView,
    reply: ReplyView,
    post: Table,
) -> bool {
    match query {
        QueryView::Insert(new_task) => {
            &&& reply matches ReplyView::Row(row)
            &&& !pre.dom().contains(row.id)
            &&& row == stored(new_task, defaults, row.id)
            &&& post == pre.insert(row.id, row)
        },
        QueryView::SelectById(id) => {
            &&& post == pre
            &&& reply == if pre.dom().contains(id) {
                ReplyView::Row(pre[id])
            } else {
                ReplyView::NotFound
            }
        },
        QueryView::SelectAll => {
            &&& post == pre
            &&& reply matches ReplyView::Rows(rows)
            &&& lists(pre, rows)
        },
        QueryView::UpdateById(id, task) => {
            if pre.dom().contains(id) {
                &&& reply == ReplyView::Row(TaskView { id: id, ..task })
                &&& post == pre.insert(id, TaskView { id: id, ..task })
            } else {
                &&& reply == ReplyView::NotFound
                &&& post == pre
            }
        },
        QueryView::DeleteById(id) => {
            &&& post == pre.remove(id)
            &&& reply == ReplyView::Affected(
                if pre.dom().contains(id) {
                    1nat
                } else {
                    0nat
                },
            )
        },
    }
}

/// `operation`, started in table `pre` and run to its end with nothing else
/// touching the table, finishes with `result` and leaves `post`.
///
/// An operation issues one query or two, so a run is one exchange that
/// finishes, or one that continues and a second that finishes.
pub open spec fn runs(
    defaults: Defaults,
    pre: Table,
    operation: OperationView,
    result: StoreResultView,
    post: Table,
) -> bool {
    exists|first: ReplyView, mid: Table| #[trigger]
        answers(defaults, pre, query_spec(operation), first, mid) && match resume_spec(
            operation,
            first,
        ) {
            StepView::Finished(outcome) => outcome == result && mid == post,
            StepView::Continue(next) => exists|second: ReplyView| #[trigger]
                answers(defaults, mid, query_spec(next), second, post) && resume_spec(next, second)
                    == StepView::Finished(result),
        }
}

/// The `k`-th of some creations in a row: `new_tasks[k]` is created in
/// `tables[k]`, is stored as `rows[k]`, and leaves `tables[k + 1]`.
pub open spec fn creates_at(
    defaults: Defaults,
    tables: Seq<Table>,
    new_tasks: Seq<NewTaskView>,
    rows: Seq<TaskView>,
    k: int,
) -> bool {
    runs(
        defaults,
        tables[k],
        OperationView::Create(new_tasks[k]),
        found(rows[k]),
        tables[k + 1],
    )
}

/// One creation after another, each in the table that the one before left.
pub open spec fn creates(
    defaults: Defaults,
    tables: Seq<Table>,
    new_tasks: Seq<NewTaskView>,
    rows: Seq<TaskView>,
) -> bool {
    &&& tables.len() == new_tasks.len() + 1
    &&& rows.len() == new_tasks.len()
    &&& forall|k: int|
        0 <= k < new_tasks.len() ==> #[trigger] creates_at(defaults, tables, new_tasks, rows, k)
}

} // verus!
