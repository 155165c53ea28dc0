use weechat::{Executor, TaskId, TaskState};

#[test]
fn dropped_handle_means_the_task_never_resumes() {
    let mut executor = Executor::start();
    let waiting = executor.spawn().unwrap();
    let other = executor.spawn().unwrap();

    // The task runs up to the point where it waits for its message.
    assert_eq!(executor.next(), Some(waiting));
    executor.polled(waiting, false);
    assert_eq!(executor.state(waiting), Some(TaskState::Suspended));

    // Its handle is dropped before the message arrives.
    executor.cancel(waiting);
    assert_eq!(executor.state(waiting), Some(TaskState::Cancelled));

    // The message arrives: the wake-up finds nothing to resume.
    assert!(!executor.wake(waiting));
    assert_eq!(executor.next(), Some(other));
    executor.polled(other, true);
    assert_eq!(executor.next(), None);
    assert_eq!(executor.state(waiting), Some(TaskState::Cancelled));
    assert_eq!(executor.state(other), Some(TaskState::Finished));

    // Cancelling again, polling or stopping changes nothing for it.
    executor.cancel(waiting);
    executor.polled(waiting, true);
    executor.free();
    assert_eq!(executor.state(waiting), Some(TaskState::Cancelled));
    assert_eq!(executor.state(other), Some(TaskState::Finished));
}

#[test]
fn cancelled_while_queued_is_taken_out_of_the_queue() {
    let mut executor = Executor::start();
    let a = executor.spawn().unwrap();
    let b = executor.spawn().unwrap();
    let c = executor.spawn().unwrap();
    executor.cancel(b);
    assert_eq!(executor.next(), Some(a));
    assert_eq!(executor.next(), Some(c));
    assert_eq!(executor.next(), None);
    assert_eq!(executor.state(b), Some(TaskState::Cancelled));
}

#[test]
fn tasks_run_in_turn_and_come_back_when_woken() {
    let mut executor = Executor::start();
    assert!(executor.running());
    assert_eq!(executor.next(), None);
    let a = executor.spawn().unwrap();
    let b = executor.spawn().unwrap();
    assert_eq!((a, b), (TaskId(0), TaskId(1)));
    assert_eq!(executor.state(a), Some(TaskState::Queued));
    assert_eq!(executor.state(TaskId(2)), None);

    assert_eq!(executor.next(), Some(a));
    assert_eq!(executor.state(a), Some(TaskState::Running));
    executor.polled(a, false);
    assert_eq!(executor.next(), Some(b));
    // Woken while it runs: it goes back to the queue when the poll ends.
    assert!(executor.wake(b));
    assert_eq!(executor.state(b), Some(TaskState::Notified));
    executor.polled(b, false);
    assert_eq!(executor.state(b), Some(TaskState::Queued));

    assert!(executor.wake(a));
    assert!(!executor.wake(a));
    assert!(!executor.wake(TaskId(9)));
    assert_eq!(executor.next(), Some(b));
    executor.polled(b, true);
    assert_eq!(executor.next(), Some(a));
    executor.polled(a, true);
    assert!(!executor.wake(a));
    assert_eq!(executor.next(), None);
    assert_eq!(executor.state(a), Some(TaskState::Finished));
}

#[test]
fn stopped_executor_takes_nothing_in() {
    let mut executor = Executor::start();
    let a = executor.spawn().unwrap();
    let b = executor.spawn().unwrap();
    assert_eq!(executor.next(), Some(a));
    executor.polled(a, true);
    executor.free();
    assert!(!executor.running());
    assert_eq!(executor.spawn(), None);
    assert_eq!(executor.next(), None);
    assert_eq!(executor.state(a), Some(TaskState::Finished));
    assert_eq!(executor.state(b), Some(TaskState::Cancelled));
    assert!(!executor.wake(b));
}
