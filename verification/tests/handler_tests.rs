use std::cell::Cell;
use std::rc::Rc;
use task_system::{BoxedTaskHandlerSource, Event, HandlerError, Task, TaskHandler, TaskHandlerFn, TaskScheduler};

struct ClosureHandler<F>(F);

impl<F> TaskHandlerFn for ClosureHandler<F>
where
    F: FnMut(&mut TaskScheduler, &mut Event) -> Result<(), HandlerError> + 'static,
{
    fn call(&mut self, scheduler: &mut TaskScheduler, event: &mut Event) -> Result<(), HandlerError> {
        (self.0)(scheduler, event)
    }
}

#[test]
fn handler_none() {
    let run_proof: Rc<Cell<u8>> = Rc::new(Cell::new(0));

    let mut handler: TaskHandler = TaskHandler::NoHandler;
    let mut event: Event = Event::default();
    let mut scheduler: TaskScheduler = TaskScheduler::new();

    for _ in 0..64 {
        handler.run(&mut scheduler, 1, &mut event).unwrap();
        assert_eq!(run_proof.get(), 0);
        assert_eq!(event.expired, true);
    }
}

#[test]
fn handler_fn() {
    let run_proof: Rc<Cell<u8>> = Rc::new(Cell::new(0));

    let proof = run_proof.clone();
    let mut handler: TaskHandler = TaskHandler::Fn(Box::new(ClosureHandler(move |_: &mut TaskScheduler, event: &mut Event| {
        proof.set(proof.get() + 1);
        if proof.get() == 50 {
            event.expire();
        }
        Ok(())
    })));
    let mut event: Event = Event::default();
    let mut scheduler: TaskScheduler = TaskScheduler::new();

    for index in 1..=64 {
        handler.run(&mut scheduler, 1, &mut event).unwrap();
        assert_eq!(run_proof.get(), index);
        assert_eq!(event.expired, index >= 50);
    }
}

#[test]
fn handler_fn_mut() {
    let run_proof: Rc<Cell<u8>> = Rc::new(Cell::new(0));

    let proof = run_proof.clone();
    let mut owned_index: u8 = 0;
    let mut handler: TaskHandler = TaskHandler::Fn(Box::new(ClosureHandler(move |_: &mut TaskScheduler, event: &mut Event| {
        proof.set(proof.get() + 1);
        owned_index += 1;
        if owned_index == 50 {
            event.expire();
        }
        Ok(())
    })));
    let mut event: Event = Event::default();
    let mut scheduler: TaskScheduler = TaskScheduler::new();

    for index in 1..=64 {
        handler.run(&mut scheduler, 1, &mut event).unwrap();
        assert_eq!(run_proof.get(), index);
        assert_eq!(event.expired, index >= 50);
    }
}

#[test]
fn handler_task() {
    let run_proof: Rc<Cell<u8>> = Rc::new(Cell::new(0));

    let proof = run_proof.clone();
    let mut handler: TaskHandler = TaskHandler::Task(Task::new(
        "test_task",
        ClosureHandler(move |_: &mut TaskScheduler, event: &mut Event| {
            if proof.get() < 50 {
                proof.set(proof.get() + 1);
                event.repeated()
            } else {
                Ok(())
            }
        }),
    ));
    let mut event: Event = Event::default();
    let mut scheduler: TaskScheduler = TaskScheduler::new();

    for index in 1..=64 {
        handler.run(&mut scheduler, 1, &mut event).unwrap();
        assert_eq!(run_proof.get(), index.min(50));
        assert_eq!(event.expired, index > 50);
    }
}

#[test]
fn handler_repeat() {
    let run_proof: Rc<Cell<u8>> = Rc::new(Cell::new(0));

    let proof = run_proof.clone();
    let mut handler: TaskHandler = TaskHandler::Repeat(
        Box::new(TaskHandler::Fn(Box::new(ClosureHandler(move |_: &mut TaskScheduler, _: &mut Event| {
            proof.set(proof.get() + 1);
            Ok(())
        })))),
        0,
        10,
    );
    let mut event: Event = Event::default();
    let mut scheduler: TaskScheduler = TaskScheduler::new();

    for index in 1..=64 {
        handler.run(&mut scheduler, 1, &mut event).unwrap();
        assert_eq!(run_proof.get(), index.min(10));
        assert_eq!(event.expired, index >= 10);
    }
}

#[test]
fn handler_list() {
    let run_proof: Rc<Cell<u8>> = Rc::new(Cell::new(0));

    let proof_a = run_proof.clone();
    let proof_b = run_proof.clone();
    let proof_c = run_proof.clone();
    let mut handler: TaskHandler = TaskHandler::List(
        vec![
            TaskHandler::Fn(Box::new(ClosureHandler(move |_: &mut TaskScheduler, event: &mut Event| {
                proof_a.set(proof_a.get() + 1);
                if proof_a.get() == 10 {
                    event.expire();
                }
                Ok(())
            }))),
            TaskHandler::Fn(Box::new(ClosureHandler(move |_: &mut TaskScheduler, event: &mut Event| {
                proof_b.set(proof_b.get() + 2);
                if proof_b.get() == 30 {
                    event.expire();
                }
                Ok(())
            }))),
            TaskHandler::Fn(Box::new(ClosureHandler(move |_: &mut TaskScheduler, event: &mut Event| {
                proof_c.set(proof_c.get() + 3);
                if proof_c.get() == 60 {
                    event.expire();
                }
                Ok(())
            }))),
        ],
        0,
    );
    let mut event: Event = Event::default();
    let mut scheduler: TaskScheduler = TaskScheduler::new();

    for index in 1..=64 {
        handler.run(&mut scheduler, 1, &mut event).unwrap();
        let expected: u8 = if index < 10 {
            index
        } else if index < 20 {
            10 + (index - 10) * 2
        } else if index < 30 {
            30 + (index - 20) * 3
        } else {
            60
        };
        assert_eq!(run_proof.get(), expected);
        assert_eq!(event.expired, index >= 30);
    }
}

#[test]
fn handler_list_from_vec_source() {
    let run_proof: Rc<Cell<u8>> = Rc::new(Cell::new(0));

    let proof_a = run_proof.clone();
    let proof_b = run_proof.clone();
    let sources = vec![
        Box::new(ClosureHandler(Box::new(move |_: &mut TaskScheduler, event: &mut Event| {
            proof_a.set(proof_a.get() + 1);
            event.expire();
            Ok(())
        })
            as Box<dyn FnMut(&mut TaskScheduler, &mut Event) -> Result<(), HandlerError>>)),
        Box::new(ClosureHandler(Box::new(move |_: &mut TaskScheduler, event: &mut Event| {
            proof_b.set(proof_b.get() + 10);
            event.expire();
            Ok(())
        })
            as Box<dyn FnMut(&mut TaskScheduler, &mut Event) -> Result<(), HandlerError>>)),
    ];
    let mut handler: TaskHandler = sources.into_handler();
    let mut event: Event = Event::default();
    let mut scheduler: TaskScheduler = TaskScheduler::new();

    handler.run(&mut scheduler, 1, &mut event).unwrap();
    assert_eq!(run_proof.get(), 1);
    assert!(!event.expired);
    handler.run(&mut scheduler, 1, &mut event).unwrap();
    assert_eq!(run_proof.get(), 11);
    assert!(event.expired);
}

#[derive(Clone)]
struct CountingHandler {
    cell: Rc<Cell<u8>>,
    delta: u8,
}

impl TaskHandlerFn for CountingHandler {
    fn call(&mut self, _scheduler: &mut TaskScheduler, event: &mut Event) -> Result<(), HandlerError> {
        self.cell.set(self.cell.get() + self.delta);
        event.expire();
        Ok(())
    }
}

#[test]
fn handler_list_from_array_source() {
    let run_proof: Rc<Cell<u8>> = Rc::new(Cell::new(0));

    let sources: [Box<CountingHandler>; 2] = [
        Box::new(CountingHandler { cell: run_proof.clone(), delta: 1 }),
        Box::new(CountingHandler { cell: run_proof.clone(), delta: 10 }),
    ];
    let mut handler: TaskHandler = sources.into_handler();
    let mut event: Event = Event::default();
    let mut scheduler: TaskScheduler = TaskScheduler::new();

    handler.run(&mut scheduler, 1, &mut event).unwrap();
    assert_eq!(run_proof.get(), 1);
    assert!(!event.expired);
    handler.run(&mut scheduler, 1, &mut event).unwrap();
    assert_eq!(run_proof.get(), 11);
    assert!(event.expired);
}
