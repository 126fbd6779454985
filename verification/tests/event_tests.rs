use task_system::{Event, HandlerError, TaskScheduler, TaskType};
use task_system::TaskRetainFilter;

#[test]
fn new_event_is_fresh() {
    let event: Event = Event::new();
    assert_eq!(event.target_instant, 0);
    assert_eq!(event.repeat, true);
    assert!(event.pause_time.is_none());
    assert_eq!(event.expired, false);

    let defaulted: Event = Event::default();
    assert_eq!(defaulted.target_instant, 0);
    assert_eq!(defaulted.repeat, true);
}

#[test]
fn should_run_needs_target_reached_and_no_pause() {
    let mut event: Event = Event::new();
    // A fresh event is eligible from the clock's origin onward.
    assert!(event.should_run(0));
    assert!(event.should_run(1));

    event.delay(5);
    assert_eq!(event.target_instant, 5);
    assert!(!event.should_run(4));
    // Eligible at the target instant itself.
    assert!(event.should_run(5));

    event.pause(6);
    assert!(!event.should_run(100));
    event.resume(6);
    assert!(event.should_run(100));
}

#[test]
fn expire_and_repeat_set_their_flags() {
    let mut event: Event = Event::new();
    event.repeat = false;
    event.expire();
    assert!(event.expired);
    assert!(!event.repeat);
    event.repeat();
    assert!(event.repeat);
    assert!(event.expired);

    event.repeat = false;
    let result: Result<(), HandlerError> = event.repeated();
    assert!(result.is_ok());
    assert!(event.repeat);
}

#[test]
fn reschedule_delays_and_repeats() {
    let mut event: Event = Event::new();
    event.repeat = false;
    let result: Result<(), HandlerError> = event.reschedule(7);
    assert!(result.is_ok());
    assert_eq!(event.target_instant, 7);
    assert!(event.repeat);

    let result = event.reschedule(3);
    assert!(result.is_ok());
    assert_eq!(event.target_instant, 10);
}

#[test]
fn delay_saturates_at_the_clock_maximum() {
    let mut event: Event = Event::new();
    event.delay(u64::MAX - 1);
    assert_eq!(event.target_instant, u64::MAX - 1);
    event.delay(5);
    assert_eq!(event.target_instant, u64::MAX);
}

#[test]
fn pause_resume_advances_target_by_pause_duration() {
    let mut event: Event = Event::new();
    event.delay(10);

    event.pause(3);
    assert_eq!(event.pause_time, Some(3));
    // A second pause keeps the first mark.
    event.pause(9);
    assert_eq!(event.pause_time, Some(3));

    event.resume(253);
    assert!(event.pause_time.is_none());
    assert_eq!(event.target_instant, 10 + 250);

    // Resuming an unpaused event changes nothing.
    event.resume(400);
    assert_eq!(event.target_instant, 260);
}

#[test]
fn scheduler_pending_event_names_snapshots_without_draining() {
    let mut scheduler: TaskScheduler = TaskScheduler::new();
    scheduler.trigger_event("alpha");
    scheduler.remove_task("some_task");
    scheduler.trigger_event("beta");

    let pending: Vec<String> = scheduler.pending_event_names();
    assert_eq!(pending, vec!["alpha".to_string(), "beta".to_string()]);

    // The snapshot drained nothing: the names are still pending.
    let again: Vec<String> = scheduler.pending_event_names();
    assert_eq!(again, vec!["alpha".to_string(), "beta".to_string()]);
}

#[test]
fn drain_named_events_takes_only_event_requests() {
    let mut scheduler: TaskScheduler = TaskScheduler::new();
    scheduler.trigger_event("alpha");
    scheduler.remove_task("some_task");
    scheduler.trigger_event("beta");

    let drained: Vec<String> = scheduler.drain_named_events();
    assert_eq!(drained, vec!["alpha".to_string(), "beta".to_string()]);

    // The event requests are gone; the retain request stays queued.
    assert!(scheduler.pending_event_names().is_empty());
    assert_eq!(scheduler.modifications.len(), 1);
}

struct KeepEverything;

impl TaskRetainFilter for KeepEverything {
    fn spec_keep(&self, _name: vstd::seq::Seq<char>, _task_type: TaskType) -> bool {
        unreachable!()
    }

    fn keep(&self, _name: &String, _task_type: TaskType) -> bool {
        true
    }
}

#[test]
fn retain_and_update_requests_queue_in_order() {
    let mut scheduler: TaskScheduler = TaskScheduler::new();
    scheduler.retain_tasks(KeepEverything);
    scheduler.remove_scheduled_tasks();
    assert_eq!(scheduler.modifications.len(), 2);
    assert!(scheduler.pending_event_names().is_empty());
}
