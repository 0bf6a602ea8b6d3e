//! Scenario tests for the offload core: pool bounds, mailbox backpressure,
//! resolution of every accepted submission, and failure translation.

use todo_offload::dispatch::{Config, Dispatcher};
use todo_offload::mailbox::{Mailbox, MailboxFull};
use todo_offload::messages::{AllTasks, DeleteTask, Failure, Message, Outcome, ToggleTask};
use todo_offload::pool::ResourcePool;

#[test]
fn pool_hands_out_at_most_capacity() {
    let mut pool = ResourcePool::with_capacity(2);
    assert_eq!(pool.capacity(), 2);
    assert_eq!(pool.free_connections(), 2);
    let c1 = pool.acquire().expect("first acquire");
    let c2 = pool.acquire().expect("second acquire");
    assert!(pool.acquire().is_err());
    assert_eq!(pool.free_connections(), 0);
    pool.release(c1);
    assert_eq!(pool.free_connections(), 1);
    let c3 = pool.acquire().expect("acquire after release");
    pool.release(c2);
    pool.release(c3);
    assert_eq!(pool.free_connections(), 2);
}

#[test]
fn discarded_connection_shrinks_the_pool() {
    let mut pool = ResourcePool::with_capacity(1);
    let c = pool.acquire().expect("acquire");
    pool.discard(c);
    assert_eq!(pool.free_connections(), 0);
    assert!(pool.acquire().is_err());
    assert_eq!(pool.capacity(), 1);
}

#[test]
fn mailbox_is_fifo_and_bounded() {
    let mut mb: Mailbox<i32> = Mailbox::with_capacity(2);
    assert_eq!(mb.len(), 0);
    assert!(mb.enqueue(10).is_ok());
    assert!(mb.enqueue(20).is_ok());
    assert_eq!(mb.enqueue(30), Err(MailboxFull));
    assert_eq!(mb.len(), 2);
    assert_eq!(mb.dequeue(), Some(10));
    assert_eq!(mb.dequeue(), Some(20));
    assert_eq!(mb.dequeue(), None);
}

#[test]
fn ten_concurrent_list_submissions_all_resolve_within_pool_bound() {
    let config = Config { worker_count: 3, pool_capacity: 3, mailbox_capacity: 16 };
    let mut d = Dispatcher::new(config);
    let mut tickets: Vec<usize> = Vec::new();
    for _ in 0..10 {
        tickets.push(d.submit(Message::All(AllTasks)).expect("submission accepted"));
    }
    assert_eq!(d.queued_count(), 10);
    while d.queued_count() > 0 {
        d.worker_step(false);
        // every step returns its connection, so the bound holds throughout
        assert_eq!(d.free_connections(), 3);
    }
    for t in tickets {
        match d.result_of(t) {
            Some(Outcome::Tasks(ts)) => assert!(ts.is_empty()),
            other => panic!("submission {} did not resolve to a task list: {:?}", t, other),
        }
    }
}

#[test]
fn two_toggles_through_a_single_connection_both_resolve() {
    let config = Config { worker_count: 2, pool_capacity: 1, mailbox_capacity: 8 };
    let mut d = Dispatcher::new(config);
    for _ in 0..5 {
        let form = todo_offload::handlers::CreateForm { description: String::from("task") };
        todo_offload::handlers::create(&mut d, form);
    }
    d.drain();
    let t1 = d.submit(Message::Toggle(ToggleTask { id: 5 })).expect("first toggle accepted");
    let t2 = d.submit(Message::Toggle(ToggleTask { id: 5 })).expect("second toggle accepted");
    d.drain();
    assert!(matches!(d.result_of(t1), Some(Outcome::Done)));
    assert!(matches!(d.result_of(t2), Some(Outcome::Done)));
}

#[test]
fn submission_beyond_mailbox_capacity_fails_fast_with_overloaded() {
    // no worker takes anything off the queue, as if all were busy
    let config = Config { worker_count: 0, pool_capacity: 1, mailbox_capacity: 2 };
    let mut d = Dispatcher::new(config);
    assert!(d.submit(Message::All(AllTasks)).is_ok());
    assert!(d.submit(Message::All(AllTasks)).is_ok());
    assert_eq!(d.submit(Message::All(AllTasks)), Err(Failure::Overloaded));
    assert_eq!(d.queued_count(), 2);
}

#[test]
fn delete_of_nonexistent_id_resolves_with_operation_failed() {
    let config = Config { worker_count: 1, pool_capacity: 1, mailbox_capacity: 4 };
    let mut d = Dispatcher::new(config);
    let t = d.submit(Message::Delete(DeleteTask { id: 42 })).expect("submission accepted");
    d.drain();
    assert!(matches!(d.result_of(t), Some(Outcome::Failed(Failure::OperationFailed))));
}

#[test]
fn corrupted_connection_is_discarded_and_surfaces_as_operation_failed() {
    let config = Config { worker_count: 1, pool_capacity: 1, mailbox_capacity: 4 };
    let mut d = Dispatcher::new(config);
    let t1 = d.submit(Message::All(AllTasks)).expect("submission accepted");
    let stepped = d.worker_step(true);
    assert_eq!(stepped, Some(t1));
    assert!(matches!(d.result_of(t1), Some(Outcome::Failed(Failure::OperationFailed))));
    assert_eq!(d.free_connections(), 0);
    // the pool is now effectively empty: further work finds no connection
    let t2 = d.submit(Message::All(AllTasks)).expect("submission accepted");
    d.worker_step(false);
    assert!(matches!(d.result_of(t2), Some(Outcome::Failed(Failure::ResourceUnavailable))));
}

#[test]
fn unresolved_and_unknown_tickets_read_as_none() {
    let config = Config { worker_count: 1, pool_capacity: 1, mailbox_capacity: 4 };
    let mut d = Dispatcher::new(config);
    let t = d.submit(Message::All(AllTasks)).expect("submission accepted");
    assert!(d.result_of(t).is_none());
    assert!(d.result_of(17).is_none());
    d.drain();
    assert!(d.result_of(t).is_some());
}

#[test]
fn drain_resolves_every_slot_and_empties_the_queue() {
    let config = Config { worker_count: 3, pool_capacity: 2, mailbox_capacity: 8 };
    let mut d = Dispatcher::new(config);
    for i in 0..6 {
        let r = d.submit(Message::Delete(DeleteTask { id: i }));
        assert!(r.is_ok());
    }
    d.drain();
    assert_eq!(d.queued_count(), 0);
    assert_eq!(d.slot_count(), 6);
    for t in 0..6 {
        assert!(d.result_of(t).is_some());
    }
}
