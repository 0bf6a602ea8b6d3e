//! Tests for the storage operations, the request-layer handlers and the
//! flash messages.

use todo_offload::dispatch::{Config, Dispatcher};
use todo_offload::handlers::{
    create, create_flash, delete_flash, index, update_with_reinterpreted_method, CreateForm,
    CreateResponse, MethodError, UpdateForm, UpdateParams,
};
use todo_offload::messages::{Failure, NewTask, Outcome};
use todo_offload::session::FlashMessage;
use todo_offload::store::TaskStore;

#[test]
fn insert_assigns_increasing_ids_starting_at_one() {
    let mut store = TaskStore::new();
    store.insert(NewTask { description: String::from("buy milk") }).expect("first insert");
    store.insert(NewTask { description: String::from("water plants") }).expect("second insert");
    let all = store.all();
    assert_eq!(all.len(), 2);
    assert_eq!(all[0].id, 1);
    assert_eq!(all[0].description, "buy milk");
    assert!(!all[0].completed);
    assert_eq!(all[1].id, 2);
    assert_eq!(all[1].description, "water plants");
    assert!(!all[1].completed);
}

#[test]
fn toggle_flips_the_completion_flag_back_and_forth() {
    let mut store = TaskStore::new();
    store.insert(NewTask { description: String::from("laundry") }).expect("insert");
    store.toggle_with_id(1).expect("first toggle");
    assert!(store.all()[0].completed);
    store.toggle_with_id(1).expect("second toggle");
    assert!(!store.all()[0].completed);
}

#[test]
fn toggle_of_missing_id_reports_operation_failed() {
    let mut store = TaskStore::new();
    assert_eq!(store.toggle_with_id(7), Err(Failure::OperationFailed));
}

#[test]
fn delete_removes_exactly_the_named_row() {
    let mut store = TaskStore::new();
    store.insert(NewTask { description: String::from("one") }).expect("insert");
    store.insert(NewTask { description: String::from("two") }).expect("insert");
    store.delete_with_id(1).expect("delete");
    let all = store.all();
    assert_eq!(all.len(), 1);
    assert_eq!(all[0].id, 2);
    assert_eq!(all[0].description, "two");
}

#[test]
fn delete_of_missing_id_reports_operation_failed() {
    let mut store = TaskStore::new();
    assert_eq!(store.delete_with_id(9), Err(Failure::OperationFailed));
}

#[test]
fn deleted_id_is_never_reused() {
    let mut store = TaskStore::new();
    store.insert(NewTask { description: String::from("one") }).expect("insert");
    store.delete_with_id(1).expect("delete");
    store.insert(NewTask { description: String::from("two") }).expect("insert");
    let all = store.all();
    assert_eq!(all.len(), 1);
    assert_eq!(all[0].id, 2);
}

#[test]
fn empty_description_is_rejected_and_never_submitted() {
    let config = Config { worker_count: 1, pool_capacity: 1, mailbox_capacity: 4 };
    let mut d = Dispatcher::new(config);
    let r = create(&mut d, CreateForm { description: String::new() });
    match r {
        CreateResponse::Invalid(flash) => {
            assert_eq!(flash.kind, "error");
            assert_eq!(flash.message, "Description cannot be empty");
        },
        _ => panic!("empty description was not rejected"),
    }
    assert_eq!(d.queued_count(), 0);
    assert_eq!(d.slot_count(), 0);
}

#[test]
fn nonempty_description_is_submitted_and_resolves_to_success() {
    let config = Config { worker_count: 1, pool_capacity: 1, mailbox_capacity: 4 };
    let mut d = Dispatcher::new(config);
    let r = create(&mut d, CreateForm { description: String::from("buy milk") });
    let ticket = match r {
        CreateResponse::Submitted(t) => t,
        _ => panic!("non-empty description was not submitted"),
    };
    d.drain();
    assert!(matches!(d.result_of(ticket), Some(Outcome::Done)));
    let listing = index(&mut d).expect("list submission accepted");
    d.drain();
    match d.result_of(listing) {
        Some(Outcome::Tasks(ts)) => {
            assert_eq!(ts.len(), 1);
            assert_eq!(ts[0].description, "buy milk");
            assert!(!ts[0].completed);
        },
        other => panic!("listing did not resolve to tasks: {:?}", other),
    }
}

#[test]
fn method_field_put_means_toggle() {
    let config = Config { worker_count: 1, pool_capacity: 1, mailbox_capacity: 8 };
    let mut d = Dispatcher::new(config);
    create(&mut d, CreateForm { description: String::from("task") });
    d.drain();
    let t = update_with_reinterpreted_method(
        &mut d,
        UpdateParams { id: 1 },
        UpdateForm { _method: String::from("put") },
    )
    .expect("put accepted");
    d.drain();
    assert!(matches!(d.result_of(t), Some(Outcome::Done)));
    let listing = index(&mut d).expect("list submission accepted");
    d.drain();
    match d.result_of(listing) {
        Some(Outcome::Tasks(ts)) => assert!(ts[0].completed),
        other => panic!("listing did not resolve to tasks: {:?}", other),
    }
}

#[test]
fn method_field_delete_means_delete() {
    let config = Config { worker_count: 1, pool_capacity: 1, mailbox_capacity: 8 };
    let mut d = Dispatcher::new(config);
    create(&mut d, CreateForm { description: String::from("task") });
    d.drain();
    let t = update_with_reinterpreted_method(
        &mut d,
        UpdateParams { id: 1 },
        UpdateForm { _method: String::from("delete") },
    )
    .expect("delete accepted");
    d.drain();
    assert!(matches!(d.result_of(t), Some(Outcome::Done)));
    let listing = index(&mut d).expect("list submission accepted");
    d.drain();
    match d.result_of(listing) {
        Some(Outcome::Tasks(ts)) => assert!(ts.is_empty()),
        other => panic!("listing did not resolve to tasks: {:?}", other),
    }
}

#[test]
fn unsupported_method_field_is_rejected_without_submission() {
    let config = Config { worker_count: 1, pool_capacity: 1, mailbox_capacity: 8 };
    let mut d = Dispatcher::new(config);
    let r = update_with_reinterpreted_method(
        &mut d,
        UpdateParams { id: 1 },
        UpdateForm { _method: String::from("patch") },
    );
    assert_eq!(r, Err(MethodError::UnsupportedMethod));
    assert_eq!(d.queued_count(), 0);
    assert_eq!(d.slot_count(), 0);
}

#[test]
fn flash_constructors_set_kind_and_message() {
    let ok = FlashMessage::success("Task successfully added");
    assert_eq!(ok.kind, "success");
    assert_eq!(ok.message, "Task successfully added");
    let bad = FlashMessage::error("Description cannot be empty");
    assert_eq!(bad.kind, "error");
    assert_eq!(bad.message, "Description cannot be empty");
}

#[test]
fn completion_outcomes_map_to_the_right_flash() {
    let ok = create_flash(&Outcome::Done).expect("success flash");
    assert_eq!(ok.kind, "success");
    assert_eq!(ok.message, "Task successfully added");
    assert!(create_flash(&Outcome::Failed(Failure::OperationFailed)).is_none());
    let gone = delete_flash(&Outcome::Done).expect("success flash");
    assert_eq!(gone.message, "Task was deleted.");
    assert!(delete_flash(&Outcome::Failed(Failure::ResourceUnavailable)).is_none());
}
