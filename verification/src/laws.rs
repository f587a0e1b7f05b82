//! What holds of the store when its queries are answered by the table.
//!
//! Most laws speak of complete runs ([`runs`]): an operation started in one
//! table, answered as [`answers`](crate::table::answers) allows, with no
//! other caller in between. The store does not serialize two operations that
//! interleave their queries: the last laws say what then happens to an
//! update whose row is deleted, or written by another update, between its
//! fetch and its write.

use vstd::prelude::*;
use crate::merge::merge_spec;
use crate::models::{NewTaskView, TaskView, UpdateTaskView};
use crate::store::{
    absent, failed, found, queries_left, resume_spec, OperationView, PayloadView, ReplyView,
    StepView, StoreResultView,
};
use crate::table::{creates, creates_at, ids_of, lists, runs, stored, well_formed, Defaults, Table};

verus! {

/// A failure ends any operation at once, as a backend error: nothing is
/// retried and nothing further is asked of the backend.
pub proof fn failure_ends_the_operation(operation: OperationView)
    ensures
        resume_spec(operation, ReplyView::Failed) == StepView::Finished(failed()),
{
}

/// An operation that continues has fewer queries left than before, and none
/// has more than two: whoever loops on `resume` terminates.
pub proof fn operations_terminate(operation: OperationView, reply: ReplyView)
    ensures
        1 <= queries_left(operation) <= 2,
        resume_spec(operation, reply) matches StepView::Continue(next) ==> queries_left(next)
            < queries_left(operation),
{
}

/// Only a fetch or a write that finds no row finishes with nothing: a
/// creation, a listing and a delete end with a value or with an error, so
/// "not found" is the answer of a lookup, an update or a deletion alone.
pub proof fn nothing_comes_only_of_a_missing_row(operation: OperationView, reply: ReplyView)
    requires
        resume_spec(operation, reply) == StepView::Finished(absent()),
    ensures
        reply == ReplyView::NotFound,
        operation is Find || operation is Update || operation is Write || operation is Delete,
{
}

/// A missing row is never an error: wherever a statement that names an id
/// is answered "not found", the operation finishes with nothing.
pub proof fn a_missing_row_is_no_error(operation: OperationView)
    requires
        operation is Find || operation is Update || operation is Write || operation is Delete,
    ensures
        resume_spec(operation, ReplyView::NotFound) == StepView::Finished(absent()),
{
}

/// A creation returns the row as stored: under an id that no row had before,
/// with the intent's fields where it names them and the storage's defaults
/// where it does not. The table gains that row and changes in nothing else.
pub proof fn create_stores_a_fresh_row(
    defaults: Defaults,
    pre: Table,
    new_task: NewTaskView,
    result: StoreResultView,
    post: Table,
)
    requires
        runs(defaults, pre, OperationView::Create(new_task), result, post),
    ensures
        result matches Ok(Some(PayloadView::Task(row))) && !pre.dom().contains(row.id) && row
            == stored(new_task, defaults, row.id) && post == pre.insert(row.id, row),
        well_formed(pre) ==> well_formed(post),
{
}

/// What a creation stores depends on the intent and the defaults alone: two
/// creations of the same intent, in whatever tables, differ at most in the
/// id.
pub proof fn create_resolves_deterministically(
    defaults: Defaults,
    new_task: NewTaskView,
    pre_a: Table,
    row_a: TaskView,
    post_a: Table,
    pre_b: Table,
    row_b: TaskView,
    post_b: Table,
)
    requires
        runs(
            defaults,
            pre_a,
            OperationView::Create(new_task),
            found(row_a),
            post_a,
        ),
        runs(
            defaults,
            pre_b,
            OperationView::Create(new_task),
            found(row_b),
            post_b,
        ),
    ensures
        row_a == (TaskView { id: row_a.id, ..row_b }),
{
}

/// A lookup of the id that a creation returned finds the created row, with
/// every field that the intent named as the intent named it.
pub proof fn find_after_create(
    defaults: Defaults,
    pre: Table,
    new_task: NewTaskView,
    row: TaskView,
    mid: Table,
    result: StoreResultView,
    post: Table,
)
    requires
        runs(defaults, pre, OperationView::Create(new_task), found(row), mid),
        runs(defaults, mid, OperationView::Find(row.id), result, post),
    ensures
        result == found(row),
        row.title == new_task.title,
        new_task.description is Some ==> row.description == new_task.description,
        new_task.completed is Some ==> new_task.completed == Some(row.completed),
        post == mid,
{
}

/// A lookup of a stored id finds the row filed under it.
pub proof fn find_of_stored_id(
    defaults: Defaults,
    pre: Table,
    id: int,
    result: StoreResultView,
    post: Table,
)
    requires
        pre.dom().contains(id),
        runs(defaults, pre, OperationView::Find(id), result, post),
    ensures
        result == found(pre[id]),
        post == pre,
{
}

/// A lookup of an id that no row has finishes with nothing, which is a
/// result and not an error, and leaves the table as it was.
pub proof fn find_of_unknown_id(
    defaults: Defaults,
    pre: Table,
    id: int,
    result: StoreResultView,
    post: Table,
)
    requires
        !pre.dom().contains(id),
        runs(defaults, pre, OperationView::Find(id), result, post),
    ensures
        result == absent(),
        post == pre,
{
}

/// An update of a stored row returns the stored row merged with the patch,
/// writes exactly that row back, and leaves every other row alone.
pub proof fn update_merges_the_stored_row(
    defaults: Defaults,
    pre: Table,
    id: int,
    patch: UpdateTaskView,
    result: StoreResultView,
    post: Table,
)
    requires
        well_formed(pre),
        pre.dom().contains(id),
        runs(defaults, pre, OperationView::Update { id, patch }, result, post),
    ensures
        result == found(merge_spec(pre[id], patch),
        ),
        post == pre.insert(id, merge_spec(pre[id], patch)),
        well_formed(post),
{
}

/// An update that names only a title changes the title of the row and
/// nothing else: the id, the description and the flag stay as stored.
pub proof fn update_of_title_only(
    defaults: Defaults,
    pre: Table,
    id: int,
    title: Seq<char>,
    result: StoreResultView,
    post: Table,
)
    requires
        well_formed(pre),
        pre.dom().contains(id),
        runs(
            defaults,
            pre,
            OperationView::Update {
                id,
                patch: UpdateTaskView { title: Some(title), description: None, completed: None },
            },
            result,
            post,
        ),
    ensures
        result == found(TaskView { title: title, ..pre[id] }),
        post == pre.insert(id, TaskView { title: title, ..pre[id] }),
{
    update_merges_the_stored_row(
        defaults,
        pre,
        id,
        UpdateTaskView { title: Some(title), description: None, completed: None },
        result,
        post,
    );
}

/// An update of an id that no row has finishes with nothing after its
/// fetch: no write is issued, and the table stays as it was.
pub proof fn update_of_unknown_id(
    defaults: Defaults,
    pre: Table,
    id: int,
    patch: UpdateTaskView,
    result: StoreResultView,
    post: Table,
)
    requires
        !pre.dom().contains(id),
        runs(defaults, pre, OperationView::Update { id, patch }, result, post),
    ensures
        resume_spec(OperationView::Update { id, patch }, ReplyView::NotFound) == StepView::Finished(
            absent(),
        ),
        result == absent(),
        post == pre,
{
}

/// A write whose row has gone since the fetch finishes with nothing and
/// leaves the table as it was: the row is not created anew.
pub proof fn write_of_missing_row(
    defaults: Defaults,
    pre: Table,
    id: int,
    merged: TaskView,
    result: StoreResultView,
    post: Table,
)
    requires
        !pre.dom().contains(id),
        runs(defaults, pre, OperationView::Write { id, merged }, result, post),
    ensures
        result == absent(),
        post == pre,
{
}

/// An update whose row another caller deletes between its fetch and its
/// write finishes with nothing, and the table stays as that caller left it.
pub proof fn update_of_row_deleted_in_between(
    defaults: Defaults,
    pre: Table,
    id: int,
    patch: UpdateTaskView,
    mid: Table,
    result: StoreResultView,
    post: Table,
)
    requires
        pre.dom().contains(id),
        !mid.dom().contains(id),
        runs(
            defaults,
            mid,
            OperationView::Write { id, merged: merge_spec(pre[id], patch) },
            result,
            post,
        ),
    ensures
        resume_spec(OperationView::Update { id, patch }, ReplyView::Row(pre[id]))
            == StepView::Continue(OperationView::Write { id, merged: merge_spec(pre[id], patch) }),
        result == absent(),
        post == mid,
{
}

/// Two updates of one row that both fetch before either writes: each
/// returns the fetched row merged with its own patch, and the later write
/// stands. What the earlier update changed is lost wherever the later patch
/// does not name it.
pub proof fn interleaved_updates_keep_the_later_write(
    defaults: Defaults,
    pre: Table,
    id: int,
    earlier: UpdateTaskView,
    later: UpdateTaskView,
    first: StoreResultView,
    mid: Table,
    second: StoreResultView,
    post: Table,
)
    requires
        well_formed(pre),
        pre.dom().contains(id),
        runs(
            defaults,
            pre,
            OperationView::Write { id, merged: merge_spec(pre[id], earlier) },
            first,
            mid,
        ),
        runs(
            defaults,
            mid,
            OperationView::Write { id, merged: merge_spec(pre[id], later) },
            second,
            post,
        ),
    ensures
        first == found(merge_spec(pre[id], earlier)),
        second == found(merge_spec(pre[id], later)),
        post == pre.insert(id, merge_spec(pre[id], later)),
{
}

/// A deletion returns the row as it stood before, and removes it.
pub proof fn delete_returns_the_stored_row(
    defaults: Defaults,
    pre: Table,
    id: int,
    result: StoreResultView,
    post: Table,
)
    requires
        pre.dom().contains(id),
        runs(defaults, pre, OperationView::Delete { id }, result, post),
    ensures
        result == found(pre[id]),
        post == pre.remove(id),
        well_formed(pre) ==> well_formed(post),
{
}

/// After a deletion, a lookup of the same id finishes with nothing.
pub proof fn find_after_delete(
    defaults: Defaults,
    pre: Table,
    id: int,
    deleted: StoreResultView,
    mid: Table,
    result: StoreResultView,
    post: Table,
)
    requires
        pre.dom().contains(id),
        runs(defaults, pre, OperationView::Delete { id }, deleted, mid),
        runs(defaults, mid, OperationView::Find(id), result, post),
    ensures
        deleted == found(pre[id]),
        result == absent(),
{
    delete_returns_the_stored_row(defaults, pre, id, deleted, mid);
    find_of_unknown_id(defaults, mid, id, result, post);
}

/// A deletion of an id that no row has finishes with nothing after its
/// fetch, and the table stays as it was.
pub proof fn delete_of_unknown_id(
    defaults: Defaults,
    pre: Table,
    id: int,
    result: StoreResultView,
    post: Table,
)
    requires
        !pre.dom().contains(id),
        runs(defaults, pre, OperationView::Delete { id }, result, post),
    ensures
        result == absent(),
        post == pre,
{
}

/// A listing enumerates the table: it has as many entries as the table has
/// rows, and holds every row once, in no promised order.
pub proof fn list_enumerates_the_table(
    defaults: Defaults,
    pre: Table,
    result: StoreResultView,
    post: Table,
)
    requires
        runs(defaults, pre, OperationView::List, result, post),
    ensures
        result matches Ok(Some(PayloadView::Tasks(rows))) && lists(pre, rows) && rows.len()
            == pre.dom().len(),
        post == pre,
{
    let rows = result->Ok_0->Some_0->Tasks_0;
    ids_of(rows).unique_seq_to_set();
}

/// What the first `n` of some creations in a row have done to the table.
proof fn creates_up_to(
    defaults: Defaults,
    tables: Seq<Table>,
    new_tasks: Seq<NewTaskView>,
    rows: Seq<TaskView>,
    n: int,
)
    requires
        creates(defaults, tables, new_tasks, rows),
        well_formed(tables[0]),
        0 <= n <= new_tasks.len(),
    ensures
        well_formed(tables[n]),
        tables[n].dom().len() == tables[0].dom().len() + n,
        forall|k: int|
            0 <= k < n ==> {
                &&& !tables[0].dom().contains((#[trigger] rows[k]).id)
                &&& tables[n].dom().contains(rows[k].id)
                &&& tables[n][rows[k].id] == rows[k]
                &&& rows[k] == stored(new_tasks[k], defaults, rows[k].id)
            },
        forall|id: int| #[trigger]
            tables[0].dom().contains(id) ==> tables[n].dom().contains(id) && tables[n][id]
                == tables[0][id],
        forall|id: int| #[trigger]
            tables[n].dom().contains(id) ==> tables[0].dom().contains(id) || exists|k: int|
                0 <= k < n && (#[trigger] rows[k]).id == id,
    decreases n,
{
    if n > 0 {
        creates_up_to(defaults, tables, new_tasks, rows, n - 1);
        let before = tables[n - 1];
        let after = tables[n];
        let fresh = rows[n - 1];
        assert(creates_at(defaults, tables, new_tasks, rows, n - 1));
        create_stores_a_fresh_row(defaults, before, new_tasks[n - 1], found(fresh), after);
        assert(after == before.insert(fresh.id, fresh));
        assert forall|id: int| #[trigger] after.dom().contains(id) implies tables[0].dom().contains(
            id,
        ) || exists|k: int| 0 <= k < n && (#[trigger] rows[k]).id == id by {
            if id != fresh.id && !tables[0].dom().contains(id) {
                let k = choose|k: int| 0 <= k < n - 1 && (#[trigger] rows[k]).id == id;
                assert(0 <= k < n && rows[k].id == id);
            }
        }
    }
}

/// Creations in a row add their rows to the table and touch no other: the
/// table grows by one row for each, every created row is filed under a new
/// id as the storage resolved it, and what was stored before stays.
pub proof fn creates_add_their_rows(
    defaults: Defaults,
    tables: Seq<Table>,
    new_tasks: Seq<NewTaskView>,
    rows: Seq<TaskView>,
)
    requires
        creates(defaults, tables, new_tasks, rows),
        well_formed(tables.first()),
    ensures
        well_formed(tables.last()),
        tables.last().dom().len() == tables.first().dom().len() + new_tasks.len(),
        forall|k: int|
            0 <= k < rows.len() ==> {
                &&& !tables.first().dom().contains((#[trigger] rows[k]).id)
                &&& tables.last().dom().contains(rows[k].id)
                &&& tables.last()[rows[k].id] == rows[k]
                &&& rows[k] == stored(new_tasks[k], defaults, rows[k].id)
            },
        forall|id: int| #[trigger]
            tables.first().dom().contains(id) ==> tables.last().dom().contains(id)
                && tables.last()[id] == tables.first()[id],
        forall|id: int| #[trigger]
            tables.last().dom().contains(id) ==> tables.first().dom().contains(id) || exists|k: int|
                0 <= k < rows.len() && (#[trigger] rows[k]).id == id,
{
    creates_up_to(defaults, tables, new_tasks, rows, new_tasks.len() as int);
}

/// A listing after some creations holds what the table held before and what
/// was created, and nothing else: from an empty table, exactly the created
/// rows, as many as there were creations.
pub proof fn list_after_creates(
    defaults: Defaults,
    tables: Seq<Table>,
    new_tasks: Seq<NewTaskView>,
    rows: Seq<TaskView>,
    result: StoreResultView,
    post: Table,
)
    requires
        creates(defaults, tables, new_tasks, rows),
        well_formed(tables.first()),
        runs(defaults, tables.last(), OperationView::List, result, post),
    ensures
        result matches Ok(Some(PayloadView::Tasks(listed))) && {
            &&& listed.len() == tables.first().dom().len() + new_tasks.len()
            &&& forall|k: int| 0 <= k < rows.len() ==> listed.contains(#[trigger] rows[k])
            &&& forall|i: int|
                0 <= i < listed.len() ==> rows.contains(#[trigger] listed[i]) || (
                tables.first().dom().contains(listed[i].id) && tables.first()[listed[i].id]
                    == listed[i])
        },
        forall|k: int|
            0 <= k < rows.len() ==> (#[trigger] rows[k]) == stored(
                new_tasks[k],
                defaults,
                rows[k].id,
            ),
        post == tables.last(),
{
    let pre = tables.first();
    let mid = tables.last();
    creates_add_their_rows(defaults, tables, new_tasks, rows);
    list_enumerates_the_table(defaults, mid, result, post);
    let listed = result->Ok_0->Some_0->Tasks_0;
    assert forall|k: int| 0 <= k < rows.len() implies listed.contains(#[trigger] rows[k]) by {
        let id = rows[k].id;
        assert(ids_of(listed).contains(id));
        let i = choose|i: int| 0 <= i < ids_of(listed).len() && ids_of(listed)[i] == id;
        assert(listed[i] == rows[k]);
    }
    assert forall|i: int| 0 <= i < listed.len() implies rows.contains(#[trigger] listed[i]) || (
    pre.dom().contains(listed[i].id) && pre[listed[i].id] == listed[i]) by {
        let id = listed[i].id;
        assert(ids_of(listed)[i] == id);
        assert(mid.dom().contains(id));
        if !pre.dom().contains(id) {
            let k = choose|k: int| 0 <= k < rows.len() && (#[trigger] rows[k]).id == id;
            assert(rows[k] == listed[i]);
        }
    }
}

} // verus!
