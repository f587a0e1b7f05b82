//! The task entity and the two intents that create and change it.
//!
//! Each type has a view that spells its text fields out as sequences of
//! characters, so that contracts can compare contents rather than buffers.

use vstd::prelude::*;

verus! {

/// A stored task as contracts see it.
pub struct TaskView {
    pub id: int,
    pub title: Seq<char>,
    pub description: Option<Seq<char>>,
    pub completed: bool,
}

/// A creation intent as contracts see it.
pub struct NewTaskView {
    pub title: Seq<char>,
    pub description: Option<Seq<char>>,
    pub completed: Option<bool>,
}

/// A partial-update intent as contracts see it.
pub struct UpdateTaskView {
    pub title: Option<Seq<char>>,
    pub description: Option<Seq<char>>,
    pub completed: Option<bool>,
}

/// The characters of an optional text, if there is one.
pub open spec fn text_view(text: Option<String>) -> Option<Seq<char>> {
    match text {
        Some(s) => Some(s@),
        None => None,
    }
}

/// The characters of an optional borrowed text, if there is one.
pub open spec fn str_view(text: Option<&str>) -> Option<Seq<char>> {
    match text {
        Some(s) => Some(s@),
        None => None,
    }
}

/// Copies an optional text.
pub(crate) fn clone_text(text: &Option<String>) -> (out: Option<String>)
    ensures
        text_view(out) == text_view(*text),
{
    match text {
        Some(s) => Some(s.clone()),
        None => None,
    }
}

/// Takes ownership of an optional borrowed text.
pub(crate) fn own_text(text: Option<&str>) -> (out: Option<String>)
    ensures
        text_view(out) == str_view(text),
{
    match text {
        Some(s) => Some(s.to_owned()),
        None => None,
    }
}

/// The persisted entity: a row of the task table.
///
/// `id` is assigned by the storage and never changes afterwards; `completed`
/// is always present in a stored row.
#[derive(Debug, PartialEq, Eq)]
pub struct Task {
    pub id: i32,
    pub title: String,
    pub description: Option<String>,
    pub completed: bool,
}

impl View for Task {
    type V = TaskView;

    open spec fn view(&self) -> TaskView {
        TaskView {
            id: self.id as int,
            title: self.title@,
            description: text_view(self.description),
            completed: self.completed,
        }
    }
}

impl Clone for Task {
    fn clone(&self) -> (out: Self)
        ensures
            out@ == self@,
    {
        Task {
            id: self.id,
            title: self.title.clone(),
            description: clone_text(&self.description),
            completed: self.completed,
        }
    }
}

/// A creation intent. An absent `description` or `completed` leaves the
/// choice to the storage's own default.
#[derive(Debug, PartialEq, Eq)]
pub struct NewTask {
    pub title: String,
    pub description: Option<String>,
    pub completed: Option<bool>,
}

impl View for NewTask {
    type V = NewTaskView;

    open spec fn view(&self) -> NewTaskView {
        NewTaskView {
            title: self.title@,
            description: text_view(self.description),
            completed: self.completed,
        }
    }
}

impl Clone for NewTask {
    fn clone(&self) -> (out: Self)
        ensures
            out@ == self@,
    {
        NewTask {
            title: self.title.clone(),
            description: clone_text(&self.description),
            completed: self.completed,
        }
    }
}

/// A partial-update intent. An absent field means "leave unchanged", never
/// "clear".
#[derive(Debug, PartialEq, Eq)]
pub struct UpdateTask {
    pub title: Option<String>,
    pub description: Option<String>,
    pub completed: Option<bool>,
}

impl View for UpdateTask {
    type V = UpdateTaskView;

    open spec fn view(&self) -> UpdateTaskView {
        UpdateTaskView {
            title: text_view(self.title),
            description: text_view(self.description),
            completed: self.completed,
        }
    }
}

impl Clone for UpdateTask {
    fn clone(&self) -> (out: Self)
        ensures
            out@ == self@,
    {
        UpdateTask {
            title: clone_text(&self.title),
            description: clone_text(&self.description),
            completed: self.completed,
        }
    }
}

} // verus!
