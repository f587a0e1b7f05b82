use task_store::merge::merge;
use task_store::models::{Task, UpdateTask};

fn stored() -> Task {
    Task {
        id: 7,
        title: String::from("write report"),
        description: Some(String::from("quarterly numbers")),
        completed: false,
    }
}

fn empty_patch() -> UpdateTask {
    UpdateTask { title: None, description: None, completed: None }
}

#[test]
fn empty_patch_changes_nothing() {
    assert_eq!(merge(stored(), empty_patch()), stored());
}

#[test]
fn title_only_patch_changes_only_the_title() {
    let patch = UpdateTask { title: Some(String::from("new")), ..empty_patch() };
    let merged = merge(stored(), patch);
    assert_eq!(
        merged,
        Task {
            id: 7,
            title: String::from("new"),
            description: Some(String::from("quarterly numbers")),
            completed: false,
        }
    );
}

#[test]
fn description_only_patch_changes_only_the_description() {
    let patch = UpdateTask { description: Some(String::from("annual numbers")), ..empty_patch() };
    let merged = merge(stored(), patch);
    assert_eq!(
        merged,
        Task {
            id: 7,
            title: String::from("write report"),
            description: Some(String::from("annual numbers")),
            completed: false,
        }
    );
}

#[test]
fn completed_only_patch_changes_only_the_flag() {
    let patch = UpdateTask { completed: Some(true), ..empty_patch() };
    let merged = merge(stored(), patch);
    assert_eq!(
        merged,
        Task {
            id: 7,
            title: String::from("write report"),
            description: Some(String::from("quarterly numbers")),
            completed: true,
        }
    );
}

#[test]
fn full_patch_replaces_every_field_but_the_id() {
    let patch = UpdateTask {
        title: Some(String::from("file taxes")),
        description: Some(String::from("before april")),
        completed: Some(true),
    };
    let merged = merge(stored(), patch);
    assert_eq!(
        merged,
        Task {
            id: 7,
            title: String::from("file taxes"),
            description: Some(String::from("before april")),
            completed: true,
        }
    );
}

#[test]
fn absent_description_does_not_clear_a_stored_one() {
    let patch = UpdateTask { title: Some(String::from("x")), completed: Some(true), description: None };
    assert_eq!(merge(stored(), patch).description, Some(String::from("quarterly numbers")));
}

#[test]
fn patch_can_describe_a_task_that_had_no_description() {
    let bare = Task { id: 1, title: String::from("t"), description: None, completed: true };
    let patch = UpdateTask { description: Some(String::from("d")), ..empty_patch() };
    assert_eq!(
        merge(bare, patch),
        Task { id: 1, title: String::from("t"), description: Some(String::from("d")), completed: true }
    );
}

#[test]
fn absent_description_keeps_an_absent_one() {
    let bare = Task { id: 1, title: String::from("t"), description: None, completed: true };
    assert_eq!(merge(bare.clone(), empty_patch()), bare);
}

#[test]
fn patch_can_reopen_a_completed_task() {
    let done = Task { id: 3, title: String::from("t"), description: None, completed: true };
    let patch = UpdateTask { completed: Some(false), ..empty_patch() };
    assert!(!merge(done, patch).completed);
}

#[test]
fn merging_twice_is_merging_once() {
    let patch = UpdateTask { title: Some(String::from("new")), description: None, completed: Some(true) };
    let once = merge(stored(), patch.clone());
    let twice = merge(once.clone(), patch);
    assert_eq!(once, twice);
}

#[test]
fn empty_title_is_a_title() {
    let patch = UpdateTask { title: Some(String::new()), ..empty_patch() };
    assert_eq!(merge(stored(), patch).title, "");
}

#[test]
fn clones_are_equal_to_their_originals() {
    let task = stored();
    assert_eq!(task.clone(), task);
    let patch = UpdateTask { title: Some(String::from("a")), description: None, completed: Some(false) };
    assert_eq!(patch.clone(), patch);
}
