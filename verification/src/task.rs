use vstd::prelude::*;
use crate::errors::HandlerError;
use crate::event::Event;
use crate::handler_fns::TaskCatchFn;
use crate::scheduler::TaskScheduler;
use crate::task_handler::{TaskHandler, TaskHandlerSource};
use crate::task_like::{DuplicateHandler, TaskLike, TaskType};

verus! {

/// A named, time-triggered task unit: an ordered sequence of handlers run
/// one after another, a catch handler for errors, and finalizers run once
/// the task expires.
pub struct Task {
    /// Display identifier; not guaranteed unique.
    pub name: String,
    /// How the engine reconciles tasks sharing the task's name.
    pub duplicate_handler: DuplicateHandler,
    /// The task's current trigger state.
    pub event: Event,
    /// Terminal flag; once set it never clears.
    pub expired: bool,
    /// Cursor into `handlers`: the handler the next run invokes.
    pub handler_index: usize,
    /// The ordered sequence of handlers, never empty.
    pub handlers: Vec<TaskHandler>,
    /// Invoked with the error when a handler fails.
    pub catch_handler: Option<Box<dyn TaskCatchFn>>,
    /// Handlers run once, after the task expires.
    pub finally: Vec<TaskHandler>,
}

impl Task {
    /// The cursor is a valid position of the non-empty handler sequence,
    /// and a cursor past the last handler means the task has expired.
    pub open spec fn wf(&self) -> bool {
        &&& self.handlers.len() >= 1
        &&& self.handler_index <= self.handlers.len()
        &&& (self.handler_index == self.handlers.len() ==> self.expired)
    }

    /// Create a new task with a single handler lifted from `source`: not
    /// yet expired, with no finalizers and the `KeepAll` duplicate
    /// policy. The task is eligible from the clock's origin onward, so
    /// one created while the engine is already running is eligible at
    /// once unless `delay` pushes its target past the current instant.
    /// Without a catch handler a handler error is dropped after expiring
    /// the task; install one with `catch` to observe it.
    pub fn new<S: TaskHandlerSource>(name: &str, source: S) -> (r: Task)
        ensures
            r.name@ == name@,
            r.duplicate_handler == DuplicateHandler::KeepAll,
            r.event == Event::initial(),
            r.expired == false,
            r.handler_index == 0,
            r.handlers.len() == 1,
            r.catch_handler is None,
            r.finally@.len() == 0,
            r.wf(),
            source.lifts_to(r.handlers@[0]),
    {
        let mut handlers: Vec<TaskHandler> = Vec::new();
        handlers.push(source.into_handler());
        Task {
            name: name.to_owned(),
            duplicate_handler: DuplicateHandler::KeepAll,
            event: Event::new(),
            expired: false,
            handler_index: 0,
            handlers,
            catch_handler: None,
            finally: Vec::new(),
        }
    }

    /// Return self with the given duplicate policy.
    pub fn with_duplicate_handler(self, duplicate_handler: DuplicateHandler) -> (r: Task)
        ensures
            r == (Task { duplicate_handler, ..self }),
    {
        Task { duplicate_handler, ..self }
    }

    /// Return self with a successor handler appended: the task advances
    /// to it when the current handler expires.
    pub fn then<S: TaskHandlerSource>(self, source: S) -> (r: Task)
        ensures
            r.handlers@.len() == self.handlers@.len() + 1,
            forall|k: int| 0 <= k < self.handlers@.len() ==> r.handlers@[k] == self.handlers@[k],
            source.lifts_to(r.handlers@.last()),
            r == (Task { handlers: r.handlers, ..self }),
    {
        let mut handlers = self.handlers;
        handlers.push(source.into_handler());
        Task { handlers, ..self }
    }

    /// Return self with a new error handler.
    pub fn catch<C: TaskCatchFn + 'static>(self, handler: C) -> (r: Task)
        ensures
            r.catch_handler is Some,
            r == (Task { catch_handler: r.catch_handler, ..self }),
    {
        Task { catch_handler: Some(Box::new(handler)), ..self }
    }

    /// Return self with a finalizer appended; finalizers run in insertion
    /// order, once, after the task expires.
    pub fn finally<S: TaskHandlerSource>(self, source: S) -> (r: Task)
        ensures
            r.finally@.len() == self.finally@.len() + 1,
            forall|k: int| 0 <= k < self.finally@.len() ==> r.finally@[k] == self.finally@[k],
            source.lifts_to(r.finally@.last()),
            r == (Task { finally: r.finally, ..self }),
    {
        let mut finally = self.finally;
        finally.push(source.into_handler());
        Task { finally, ..self }
    }

    /// Return self with its initial target instant pushed forward.
    pub fn delay(self, delay: u64) -> (r: Task)
        ensures
            r == (Task { event: self.event.delayed(delay), ..self }),
    {
        let mut event = self.event;
        event.delay(delay);
        Task { event, ..self }
    }

    /// Run the current handler once, without checking eligibility: clear
    /// the repeat flag, invoke the handler, route an error to the catch
    /// handler, advance the cursor unless the handler asked to repeat,
    /// and run the finalizers when the task reaches its terminal state.
    pub(crate) fn dispatch(&mut self, task_scheduler: &mut TaskScheduler, now: u64) -> (r: Result<
        (),
        HandlerError,
    >)
        ensures
            final(self).name == old(self).name,
            final(self).duplicate_handler == old(self).duplicate_handler,
            final(self).handlers.len() == old(self).handlers.len(),
            final(self).finally.len() == old(self).finally.len(),
            (final(self).catch_handler is Some) == (old(self).catch_handler is Some),
            old(self).expired ==> *final(self) == *old(self) && *final(task_scheduler) == *old(task_scheduler) && (r is Ok),
            old(self).expired ==> final(self).expired,
            final(self).handler_index == old(self).handler_index || final(self).handler_index
                == old(self).handler_index + 1,
            old(self).wf() ==> final(self).wf(),
            !old(self).expired ==> (final(self).expired == (r is Err || final(self).handler_index
                >= final(self).handlers.len())),
            (!final(self).expired && final(self).handler_index == old(self).handler_index + 1)
                ==> final(self).event == Event::initial(),
        decreases *old(self),
    {
        if self.expired {
            return Ok(());
        }
        let result: Result<(), HandlerError>;
        if self.handler_index < self.handlers.len() {
            self.event.repeat = false;
            result = self.handlers[self.handler_index].run(task_scheduler, now, &mut self.event);
            let failed: bool = match &result {
                Err(error) => {
                    match &mut self.catch_handler {
                        Some(catch_handler) => {
                            catch_handler.call(task_scheduler, &mut self.event, error);
                        },
                        None => {},
                    }
                    true
                },
                Ok(_) => false,
            };
            if failed {
                self.expired = true;
            }
            if self.event.expired || !self.event.repeat {
                self.event = Event::new();
                self.handler_index = self.handler_index + 1;
                if self.handler_index >= self.handlers.len() {
                    self.expired = true;
                }
            }
        } else {
            // A cursor already past the sequence can only arise outside
            // the engine's discipline; treat it as the exhausted state.
            self.expired = true;
            result = Ok(());
        }
        if self.expired {
            let n = self.finally.len();
            let mut k: usize = 0;
            while k < n
                invariant
                    n == self.finally.len(),
                    n == old(self).finally.len(),
                    self.expired,
                    result is Err || self.handler_index >= self.handlers.len() || !old(self).wf(),
                    forall|j: int| k <= j < n ==> self.finally@[j] == old(self).finally@[j],
                    self.name == old(self).name,
                    self.duplicate_handler == old(self).duplicate_handler,
                    self.handlers.len() == old(self).handlers.len(),
                    (self.catch_handler is Some) == (old(self).catch_handler is Some),
                    self.handler_index == old(self).handler_index || self.handler_index == old(self).handler_index + 1,
                    old(self).wf() ==> self.wf(),
                decreases n - k,
            {
                let finalizer_result = self.finally[k].run(task_scheduler, now, &mut self.event);
                match &finalizer_result {
                    Err(error) => {
                        match &mut self.catch_handler {
                            Some(catch_handler) => {
                                catch_handler.call(task_scheduler, &mut self.event, error);
                            },
                            None => {},
                        }
                    },
                    Ok(_) => {},
                }
                k += 1;
            }
        }
        result
    }
}

impl TaskLike for Task {
    open spec fn spec_name(&self) -> Seq<char> {
        self.name@
    }

    open spec fn spec_task_type(&self) -> TaskType {
        TaskType::Task
    }

    open spec fn spec_duplicate_handler(&self) -> DuplicateHandler {
        self.duplicate_handler
    }

    open spec fn spec_expired(&self) -> bool {
        self.expired
    }

    open spec fn spec_should_run(&self, now: u64, triggered_events: Seq<String>) -> bool {
        !self.expired && self.event.spec_should_run(now)
    }

    /// The name of the task.
    fn name(&self) -> (r: &String)
        ensures
            r@ == self.spec_name(),
    {
        &self.name
    }

    /// The type-name of the task.
    fn task_type(&self) -> (r: TaskType)
        ensures
            r == self.spec_task_type(),
    {
        TaskType::Task
    }

    /// Get the duplicate handler of the task.
    fn duplicate_handler(&self) -> (r: &DuplicateHandler)
        ensures
            *r == self.spec_duplicate_handler(),
    {
        &self.duplicate_handler
    }

    /// Whether or not the task is expired.
    fn expired(&self) -> (r: bool)
        ensures
            r == self.spec_expired(),
    {
        self.expired
    }

    /// Check if the task is scheduled to run; the triggered events play
    /// no part for a time-triggered task.
    fn should_run(&self, now: u64, triggered_events: &[String]) -> (r: bool)
        ensures
            r == self.spec_should_run(now, triggered_events@),
    {
        !self.expired && self.event.should_run(now)
    }

    /// Run the task once: without side effect when the task is expired or
    /// not yet eligible, else one dispatch of the current handler.
    fn run(&mut self, task_scheduler: &mut TaskScheduler, now: u64) -> (r: Result<
        (),
        HandlerError,
    >)
        ensures
            (old(self).expired || !old(self).event.spec_should_run(now)) ==> *final(self) == *old(self) && *final(task_scheduler) == *old(task_scheduler) && (r is Ok),
            old(self).expired ==> final(self).expired,
            old(self).wf() ==> final(self).wf(),
            final(self).handlers.len() == old(self).handlers.len(),
            final(self).handler_index == old(self).handler_index || final(self).handler_index
                == old(self).handler_index + 1,
            (!old(self).expired && old(self).event.spec_should_run(now)) ==> (final(self).expired
                == (r is Err || final(self).handler_index >= final(self).handlers.len())),
    {
        if self.expired {
            return Ok(());
        }
        if !self.event.should_run(now) {
            return Ok(());
        }
        self.dispatch(task_scheduler, now)
    }

    /// Pause the task, temporarily disabling it.
    fn pause(&mut self, now: u64)
        ensures
            *final(self) == (Task { event: old(self).event.paused(now), ..*old(self) }),
    {
        self.event.pause(now);
    }

    /// Resume the task, reinstating functionality to it.
    fn resume(&mut self, now: u64)
        ensures
            *final(self) == (Task { event: old(self).event.resumed(now), ..*old(self) }),
    {
        self.event.resume(now);
    }
}

} // verus!
