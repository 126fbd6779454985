use std::cell::Cell;
use std::rc::Rc;
use task_system::{
    DuplicateHandler, Event, EventSubscription, HandlerError, SubscriptionHandlerFn, Task,
    TaskHandlerFn, TaskRetainFilter, TaskScheduler, TaskSystem, TaskType,
};

struct ClosureHandler<F>(F);

impl<F> TaskHandlerFn for ClosureHandler<F>
where
    F: FnMut(&mut TaskScheduler, &mut Event) -> Result<(), HandlerError> + 'static,
{
    fn call(&mut self, scheduler: &mut TaskScheduler, event: &mut Event) -> Result<(), HandlerError> {
        (self.0)(scheduler, event)
    }
}

struct ClosureSub<F>(F);

impl<F> SubscriptionHandlerFn for ClosureSub<F>
where
    F: FnMut(&mut TaskScheduler) -> Result<(), HandlerError> + 'static,
{
    fn call(&mut self, scheduler: &mut TaskScheduler) -> Result<(), HandlerError> {
        (self.0)(scheduler)
    }
}

struct NoRemPrefix;

impl TaskRetainFilter for NoRemPrefix {
    fn spec_keep(&self, _name: vstd::seq::Seq<char>, _task_type: TaskType) -> bool {
        unreachable!()
    }

    fn keep(&self, name: &String, _task_type: TaskType) -> bool {
        !name.starts_with("rem")
    }
}

#[test]
fn test_tasks_executing() {
    let modification_check: Rc<Cell<bool>> = Rc::new(Cell::new(false));

    let check = modification_check.clone();
    let mut task_system: TaskSystem = TaskSystem::new();
    task_system.add_task(Task::new(
        "test",
        ClosureHandler(move |_: &mut TaskScheduler, _: &mut Event| {
            check.set(true);
            Ok(())
        }),
    ));
    task_system.run_once(1);

    assert!(modification_check.get());
}

#[test]
fn test_subscriptions_executing() {
    let modification_check: Rc<Cell<bool>> = Rc::new(Cell::new(false));

    let check = modification_check.clone();
    let mut task_system: TaskSystem = TaskSystem::new();
    task_system.add_task(EventSubscription::new(
        "test",
        "test_evt",
        ClosureSub(move |_: &mut TaskScheduler| {
            check.set(true);
            Ok(())
        }),
    ));

    task_system.run_once(1);
    task_system.trigger_event("test");
    task_system.run_once(2);
    task_system.trigger_event("test_evt_b");
    task_system.run_once(3);
    assert!(!modification_check.get());

    task_system.trigger_event("a");
    task_system.trigger_event("");
    task_system.trigger_event("test_evt");
    task_system.run_once(4);
    assert!(modification_check.get());
}

#[test]
fn test_correct_system_loops_quantity() {
    let modification_check: Rc<Cell<u8>> = Rc::new(Cell::new(0));

    let check = modification_check.clone();
    let mut task_system: TaskSystem = TaskSystem::new();
    task_system.add_task(Task::new(
        "test",
        ClosureHandler(move |_: &mut TaskScheduler, event: &mut Event| {
            check.set(check.get() + 1);
            event.reschedule(0)
        }),
    ));
    for now in 1..=20 {
        task_system.run_once(now);
    }

    assert_eq!(modification_check.get(), 20);
}

#[test]
fn test_event_rescheduling() {
    let modification_check: Rc<Cell<u8>> = Rc::new(Cell::new(0));

    let check = modification_check.clone();
    let mut task_system: TaskSystem = TaskSystem::new();
    task_system.add_task(Task::new(
        "test",
        ClosureHandler(move |_: &mut TaskScheduler, event: &mut Event| {
            check.set(check.get() + 1);
            if check.get() < 20 {
                event.reschedule(0)
            } else {
                Ok(())
            }
        }),
    ));
    for now in 1..=20 {
        task_system.run_once(now);
    }

    assert_eq!(modification_check.get(), 20);
}

#[test]
fn test_tasks_duplicate_handling() {
    // Keep all.
    let modification_check: Rc<Cell<u8>> = Rc::new(Cell::new(0));
    let mut task_system: TaskSystem = TaskSystem::new();
    for _ in 0..3 {
        let check = modification_check.clone();
        task_system.add_task(
            Task::new(
                "test",
                ClosureHandler(move |_: &mut TaskScheduler, _: &mut Event| {
                    check.set(check.get() + 1);
                    Ok(())
                }),
            )
            .with_duplicate_handler(DuplicateHandler::KeepAll),
        );
    }
    task_system.run_once(1);
    assert_eq!(modification_check.get(), 3);

    // Keep old.
    let modification_check: Rc<Cell<u8>> = Rc::new(Cell::new(0));
    let mut task_system: TaskSystem = TaskSystem::new();
    for value in 1..=3 {
        let check = modification_check.clone();
        task_system.add_task(
            Task::new(
                "test",
                ClosureHandler(move |_: &mut TaskScheduler, _: &mut Event| {
                    check.set(value);
                    Ok(())
                }),
            )
            .with_duplicate_handler(DuplicateHandler::KeepOld),
        );
    }
    task_system.run_once(1);
    assert_eq!(modification_check.get(), 1);

    // Keep new.
    let modification_check: Rc<Cell<u8>> = Rc::new(Cell::new(0));
    let mut task_system: TaskSystem = TaskSystem::new();
    for value in 1..=3 {
        let check = modification_check.clone();
        task_system.add_task(
            Task::new(
                "test",
                ClosureHandler(move |_: &mut TaskScheduler, _: &mut Event| {
                    check.set(value);
                    Ok(())
                }),
            )
            .with_duplicate_handler(DuplicateHandler::KeepNew),
        );
    }
    task_system.run_once(1);
    assert_eq!(modification_check.get(), 3);

    // Mixed.
    let modification_check: Rc<Cell<u8>> = Rc::new(Cell::new(0));
    let mut task_system: TaskSystem = TaskSystem::new();
    let policies = [
        DuplicateHandler::KeepOld,
        DuplicateHandler::KeepNew,
        DuplicateHandler::KeepAll,
    ];
    for (index, policy) in policies.iter().enumerate() {
        let check = modification_check.clone();
        let delta: u8 = index as u8 + 1;
        task_system.add_task(
            Task::new(
                "test",
                ClosureHandler(move |_: &mut TaskScheduler, _: &mut Event| {
                    check.set(check.get() + delta);
                    Ok(())
                }),
            )
            .with_duplicate_handler(*policy),
        );
    }
    task_system.run_once(1);
    assert_eq!(modification_check.get(), 5);
}

#[test]
fn test_run_single_task() {
    let modification_check: Rc<Cell<u8>> = Rc::new(Cell::new(0));

    let check = modification_check.clone();
    let mut task_system: TaskSystem = TaskSystem::new();
    task_system.run_task_once(
        &mut Task::new(
            "test",
            ClosureHandler(move |_: &mut TaskScheduler, _: &mut Event| {
                check.set(1);
                Ok(())
            }),
        ),
        1,
    );
    task_system.run_once(1);

    assert_eq!(modification_check.get(), 1);
}

#[test]
fn test_single_task_can_mod_scheduler() {
    let modification_check: Rc<Cell<u8>> = Rc::new(Cell::new(0));

    let check_a = modification_check.clone();
    let check_b = modification_check.clone();
    let mut task_system: TaskSystem = TaskSystem::new();
    task_system.run_task_once(
        &mut Task::new(
            "test",
            ClosureHandler(move |scheduler: &mut TaskScheduler, _: &mut Event| {
                let check_one = check_a.clone();
                scheduler.add_task(Task::new(
                    "sub_1",
                    ClosureHandler(move |_: &mut TaskScheduler, _: &mut Event| {
                        check_one.set(1);
                        Ok(())
                    }),
                ));
                let check_two = check_b.clone();
                scheduler.add_task(Task::new(
                    "sub_2",
                    ClosureHandler(move |_: &mut TaskScheduler, _: &mut Event| {
                        check_two.set(2);
                        Ok(())
                    }),
                ));
                scheduler.remove_task("sub_2");
                Ok(())
            }),
        ),
        1,
    );
    task_system.run_once(1);
    task_system.run_once(2);
    task_system.run_once(3);

    assert_eq!(modification_check.get(), 1);
}

#[test]
fn test_tasks_using_task_scheduler_execute() {
    let modification_check: Rc<Cell<u16>> = Rc::new(Cell::new(0));

    let mut task_system: TaskSystem = TaskSystem::new();
    let outer = modification_check.clone();
    task_system.add_task(Task::new(
        "insert_task_mods",
        ClosureHandler(move |scheduler: &mut TaskScheduler, _: &mut Event| {
            let c1 = outer.clone();
            scheduler.add_task(Task::new(
                "run_a",
                ClosureHandler(move |_: &mut TaskScheduler, _: &mut Event| {
                    c1.set(c1.get() | 1);
                    Ok(())
                }),
            ));
            let c2 = outer.clone();
            scheduler.add_task(Task::new(
                "run_b",
                ClosureHandler(move |_: &mut TaskScheduler, _: &mut Event| {
                    c2.set(c2.get() | 2);
                    Ok(())
                }),
            ));
            let c3 = outer.clone();
            scheduler.add_task(Task::new(
                "run_c",
                ClosureHandler(move |_: &mut TaskScheduler, _: &mut Event| {
                    c3.set(c3.get() | 4);
                    Ok(())
                }),
            ));
            let c4 = outer.clone();
            scheduler.add_task(EventSubscription::new(
                "run_d",
                "test_evt_a",
                ClosureSub(move |_: &mut TaskScheduler| {
                    c4.set(c4.get() | 8);
                    Ok(())
                }),
            ));
            let c5 = outer.clone();
            scheduler.add_task(EventSubscription::new(
                "run_e",
                "test_evt_b",
                ClosureSub(move |_: &mut TaskScheduler| {
                    c5.set(c5.get() | 16);
                    Ok(())
                }),
            ));
            let c6 = outer.clone();
            scheduler.add_task(EventSubscription::new(
                "run_f",
                "test_evt_c",
                ClosureSub(move |_: &mut TaskScheduler| {
                    c6.set(c6.get() | 32);
                    Ok(())
                }),
            ));
            let c7 = outer.clone();
            scheduler.add_task(Task::new(
                "remove_a",
                ClosureHandler(move |_: &mut TaskScheduler, _: &mut Event| {
                    c7.set(c7.get() | 64);
                    Ok(())
                }),
            ));
            let c8 = outer.clone();
            scheduler.add_task(Task::new(
                "remove_b",
                ClosureHandler(move |_: &mut TaskScheduler, _: &mut Event| {
                    c8.set(c8.get() | 128);
                    Ok(())
                }),
            ));
            let c9 = outer.clone();
            scheduler.add_task(Task::new(
                "rem_c",
                ClosureHandler(move |_: &mut TaskScheduler, _: &mut Event| {
                    c9.set(c9.get() | 256);
                    Ok(())
                }),
            ));
            scheduler.add_task(Task::new(
                "trigger_event",
                ClosureHandler(move |scheduler: &mut TaskScheduler, _: &mut Event| {
                    scheduler.trigger_event("test_evt_b");
                    Ok(())
                }),
            ));
            scheduler.remove_task("run_c");
            scheduler.remove_task("run_f");
            scheduler.retain_tasks(NoRemPrefix);
            Ok(())
        }),
    ));
    task_system.run_once(1);
    task_system.run_once(2);
    task_system.run_once(3);

    let expected_values: [u16; 3] = [1, 2, 16];
    let mut actual_value: u16 = modification_check.get();
    for expected_value in expected_values {
        assert_eq!(actual_value & expected_value, expected_value);
        actual_value &= !expected_value;
    }
    assert_eq!(actual_value, 0);
}

#[test]
fn single_shot_task_runs_once_and_is_reaped() {
    let flag: Rc<Cell<bool>> = Rc::new(Cell::new(false));

    let check = flag.clone();
    let mut task_system: TaskSystem = TaskSystem::new();
    task_system.add_task(Task::new(
        "once",
        ClosureHandler(move |_: &mut TaskScheduler, _: &mut Event| {
            check.set(true);
            Ok(())
        }),
    ));
    task_system.run_once(1);

    assert!(flag.get());
    assert!(task_system.tasks.is_empty());
}

#[test]
fn repeating_task_expires_after_limit_and_is_reaped() {
    let counter: Rc<Cell<u8>> = Rc::new(Cell::new(0));

    let check = counter.clone();
    let mut task_system: TaskSystem = TaskSystem::new();
    task_system.add_task(Task::new(
        "repeat",
        ClosureHandler(move |_: &mut TaskScheduler, event: &mut Event| {
            check.set(check.get() + 1);
            if check.get() < 20 {
                event.reschedule(0)
            } else {
                Ok(())
            }
        }),
    ));
    for now in 1..=20 {
        task_system.run_once(now);
    }

    assert_eq!(counter.get(), 20);
    assert!(task_system.tasks.is_empty());
}

#[test]
fn mutations_are_invisible_within_their_tick() {
    let flag: Rc<Cell<bool>> = Rc::new(Cell::new(false));

    let check = flag.clone();
    let mut task_system: TaskSystem = TaskSystem::new();
    task_system.add_task(Task::new(
        "adder",
        ClosureHandler(move |scheduler: &mut TaskScheduler, _: &mut Event| {
            let inner = check.clone();
            scheduler.add_task(Task::new(
                "late",
                ClosureHandler(move |_: &mut TaskScheduler, _: &mut Event| {
                    inner.set(true);
                    Ok(())
                }),
            ));
            Ok(())
        }),
    ));

    task_system.run_once(1);
    assert!(!flag.get());
    task_system.run_once(2);
    assert!(flag.get());
}

#[test]
fn subscription_fires_on_tick_after_trigger() {
    let flag: Rc<Cell<bool>> = Rc::new(Cell::new(false));

    let check = flag.clone();
    let mut task_system: TaskSystem = TaskSystem::new();
    task_system.add_task(EventSubscription::new(
        "listener",
        "E",
        ClosureSub(move |_: &mut TaskScheduler| {
            check.set(true);
            Ok(())
        }),
    ));
    task_system.add_task(Task::new(
        "trigger",
        ClosureHandler(|scheduler: &mut TaskScheduler, _: &mut Event| {
            scheduler.trigger_event("E");
            Ok(())
        }),
    ));

    task_system.run_once(1);
    assert!(!flag.get());
    task_system.run_once(2);
    assert!(flag.get());
}

#[test]
fn remove_scheduled_tasks_keeps_subscriptions() {
    let task_runs: Rc<Cell<u8>> = Rc::new(Cell::new(0));
    let sub_runs: Rc<Cell<u8>> = Rc::new(Cell::new(0));

    let task_check = task_runs.clone();
    let sub_check = sub_runs.clone();
    let mut task_system: TaskSystem = TaskSystem::new();
    task_system.add_task(Task::new(
        "worker",
        ClosureHandler(move |_: &mut TaskScheduler, event: &mut Event| {
            task_check.set(task_check.get() + 1);
            event.reschedule(0)
        }),
    ));
    task_system.add_task(EventSubscription::new(
        "listener",
        "E",
        ClosureSub(move |_: &mut TaskScheduler| {
            sub_check.set(sub_check.get() + 1);
            Ok(())
        }),
    ));

    task_system.run_once(1);
    assert_eq!(task_runs.get(), 1);

    task_system.task_scheduler().remove_scheduled_tasks();
    task_system.trigger_event("E");
    task_system.run_once(2);
    assert_eq!(task_runs.get(), 1);
    assert_eq!(sub_runs.get(), 1);
    assert_eq!(task_system.tasks.len(), 1);
}

#[test]
fn update_task_replaces_namesakes() {
    let first: Rc<Cell<u8>> = Rc::new(Cell::new(0));
    let second: Rc<Cell<u8>> = Rc::new(Cell::new(0));

    let mut task_system: TaskSystem = TaskSystem::new();
    let check_a = first.clone();
    task_system.add_task(Task::new(
        "job",
        ClosureHandler(move |_: &mut TaskScheduler, _: &mut Event| {
            check_a.set(check_a.get() + 1);
            Ok(())
        }),
    ));
    let check_b = second.clone();
    task_system.task_scheduler().update_task(Task::new(
        "job",
        ClosureHandler(move |_: &mut TaskScheduler, _: &mut Event| {
            check_b.set(check_b.get() + 1);
            Ok(())
        }),
    ));
    task_system.run_once(1);

    assert_eq!(first.get(), 0);
    assert_eq!(second.get(), 1);
}

#[test]
fn engine_pause_resume_shifts_eligibility() {
    let counter: Rc<Cell<u8>> = Rc::new(Cell::new(0));

    let check = counter.clone();
    let mut task_system: TaskSystem = TaskSystem::new();
    task_system.add_task(Task::new(
        "delayed",
        ClosureHandler(move |_: &mut TaskScheduler, _: &mut Event| {
            check.set(check.get() + 1);
            Ok(())
        }),
    ).delay(10));

    // Apply the queued addition without dispatching the still-delayed task.
    task_system.run_once(1);
    assert_eq!(counter.get(), 0);

    task_system.pause(0);
    task_system.run_once(4);
    task_system.run_once(250);
    assert_eq!(counter.get(), 0);

    task_system.resume(250);
    task_system.run_once(259);
    assert_eq!(counter.get(), 0);
    // The target moved from 10 to 260: eligible at 260 exactly.
    task_system.run_once(260);
    assert_eq!(counter.get(), 1);
}

#[test]
fn run_once_skips_while_lock_is_held() {
    let counter: Rc<Cell<u8>> = Rc::new(Cell::new(0));

    let check = counter.clone();
    let mut task_system: TaskSystem = TaskSystem::new();
    task_system.add_task(Task::new(
        "guarded",
        ClosureHandler(move |_: &mut TaskScheduler, event: &mut Event| {
            check.set(check.get() + 1);
            event.reschedule(0)
        }),
    ));
    task_system.run_once(1);
    assert_eq!(counter.get(), 1);

    // A held run lock means a run is already in progress: the tick is
    // skipped without any effect.
    task_system.run_lock = true;
    task_system.run_once(2);
    assert_eq!(counter.get(), 1);

    task_system.run_lock = false;
    task_system.run_once(3);
    assert_eq!(counter.get(), 2);
}
