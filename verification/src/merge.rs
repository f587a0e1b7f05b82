//! The field-by-field precedence rule of a partial update.

use vstd::prelude::*;
use crate::models::{Task, TaskView, UpdateTask, UpdateTaskView};

verus! {

/// The row that a partial update leaves: every field that the patch names
/// takes the patch's value, every other field keeps the stored one. The id
/// is never touched, and a patch cannot clear a description.
pub open spec fn merge_spec(existing: TaskView, patch: UpdateTaskView) -> TaskView {
    TaskView {
        id: existing.id,
        title: match patch.title {
            Some(title) => title,
            None => existing.title,
        },
        description: match patch.description {
            Some(description) => Some(description),
            None => existing.description,
        },
        completed: match patch.completed {
            Some(completed) => completed,
            None => existing.completed,
        },
    }
}

/// Applies `patch` to `existing`.
pub fn merge(existing: Task, patch: UpdateTask) -> (merged: Task)
    ensures
        merged@ == merge_spec(existing@, patch@),
{
    Task {
        id: existing.id,
        title: match patch.title {
            Some(title) => title,
            None => existing.title,
        },
        description: match patch.description {
            Some(description) => Some(description),
            None => existing.description,
        },
        completed: match patch.completed {
            Some(completed) => completed,
            None => existing.completed,
        },
    }
}

/// A patch that names no field changes nothing.
pub proof fn merge_of_empty_patch(existing: TaskView)
    ensures
        merge_spec(
            existing,
            UpdateTaskView { title: None, description: None, completed: None },
        ) == existing,
{
}

/// Applying the same patch twice gives what applying it once gives.
pub proof fn merge_is_idempotent(existing: TaskView, patch: UpdateTaskView)
    ensures
        merge_spec(merge_spec(existing, patch), patch) == merge_spec(existing, patch),
{
}

/// A patch that names only a title changes the title and nothing else.
pub proof fn merge_of_title_only(existing: TaskView, title: Seq<char>)
    ensures
        merge_spec(
            existing,
            UpdateTaskView { title: Some(title), description: None, completed: None },
        ) == (TaskView { title: title, ..existing }),
{
}

} // verus!
