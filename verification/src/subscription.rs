use vstd::prelude::*;
use crate::errors::HandlerError;
use crate::handler_fns::{SubscriptionCatchFn, SubscriptionHandlerFn};
use crate::scheduler::TaskScheduler;
use crate::task_like::{DuplicateHandler, TaskLike, TaskType};

verus! {

/// Whether one of the triggered event names equals `name`.
pub open spec fn contains_name(triggered_events: Seq<String>, name: Seq<char>) -> bool {
    exists|i: int| 0 <= i < triggered_events.len() && triggered_events[i]@ == name
}

/// A named, event-triggered task unit: its handler runs on every tick
/// whose triggered events include the subscribed name. It never expires
/// by itself and is only removed by a retain request.
pub struct EventSubscription {
    /// Display identifier; not guaranteed unique.
    pub name: String,
    /// The event name whose triggering makes the subscription run.
    pub event_name: String,
    /// How the engine reconciles units sharing this unit's name.
    pub duplicate_handler: DuplicateHandler,
    /// The work run when the subscribed event is triggered.
    pub handler: Box<dyn SubscriptionHandlerFn>,
    /// Invoked with the error when the handler fails.
    pub catch_handler: Option<Box<dyn SubscriptionCatchFn>>,
}

impl EventSubscription {
    /// Create a new subscription on `event_name` with the given handler
    /// and the `KeepAll` duplicate policy. Without a catch handler a
    /// handler error is dropped; install one with `catch` to observe it.
    pub fn new<H: SubscriptionHandlerFn + 'static>(name: &str, event_name: &str, handler: H) -> (r:
        EventSubscription)
        ensures
            r.name@ == name@,
            r.event_name@ == event_name@,
            r.duplicate_handler == DuplicateHandler::KeepAll,
            r.catch_handler is None,
    {
        EventSubscription {
            name: name.to_owned(),
            event_name: event_name.to_owned(),
            duplicate_handler: DuplicateHandler::KeepAll,
            handler: Box::new(handler),
            catch_handler: None,
        }
    }

    /// Return self with the given duplicate policy.
    pub fn with_duplicate_handler(self, duplicate_handler: DuplicateHandler) -> (r:
        EventSubscription)
        ensures
            r == (EventSubscription { duplicate_handler, ..self }),
    {
        EventSubscription { duplicate_handler, ..self }
    }

    /// Return self with a new error handler.
    pub fn catch<C: SubscriptionCatchFn + 'static>(self, handler: C) -> (r: EventSubscription)
        ensures
            r.catch_handler is Some,
            r == (EventSubscription { catch_handler: r.catch_handler, ..self }),
    {
        EventSubscription { catch_handler: Some(Box::new(handler)), ..self }
    }
}

impl TaskLike for EventSubscription {
    open spec fn spec_name(&self) -> Seq<char> {
        self.name@
    }

    open spec fn spec_task_type(&self) -> TaskType {
        TaskType::Subscription
    }

    open spec fn spec_duplicate_handler(&self) -> DuplicateHandler {
        self.duplicate_handler
    }

    open spec fn spec_expired(&self) -> bool {
        false
    }

    open spec fn spec_should_run(&self, now: u64, triggered_events: Seq<String>) -> bool {
        contains_name(triggered_events, self.event_name@)
    }

    /// The name of the task.
    fn name(&self) -> (r: &String)
        ensures
            r@ == self.spec_name(),
    {
        &self.name
    }

    /// The type-name of the task.
    fn task_type(&self) -> (r: TaskType)
        ensures
            r == self.spec_task_type(),
    {
        TaskType::Subscription
    }

    /// Get the duplicate handler of the task.
    fn duplicate_handler(&self) -> (r: &DuplicateHandler)
        ensures
            *r == self.spec_duplicate_handler(),
    {
        &self.duplicate_handler
    }

    /// A subscription never expires by itself.
    fn expired(&self) -> (r: bool)
        ensures
            r == self.spec_expired(),
    {
        false
    }

    /// Check if the subscription is scheduled to run: the clock plays no
    /// part; only the triggered event names decide.
    fn should_run(&self, now: u64, triggered_events: &[String]) -> (r: bool)
        ensures
            r == self.spec_should_run(now, triggered_events@),
    {
        let n = triggered_events.len();
        let mut i: usize = 0;
        while i < n
            invariant
                n == triggered_events@.len(),
                0 <= i <= n,
                forall|k: int| 0 <= k < i ==> triggered_events@[k]@ != self.event_name@,
            decreases n - i,
        {
            if triggered_events[i] == self.event_name {
                return true;
            }
            i += 1;
        }
        false
    }

    /// Run the subscription's handler once; an error is routed to the
    /// catch handler. The subscription itself keeps its identity and
    /// never expires.
    fn run(&mut self, task_scheduler: &mut TaskScheduler, now: u64) -> (r: Result<
        (),
        HandlerError,
    >)
        ensures
            final(self).name == old(self).name,
            final(self).event_name == old(self).event_name,
            final(self).duplicate_handler == old(self).duplicate_handler,
            (final(self).catch_handler is Some) == (old(self).catch_handler is Some),
    {
        let result = self.handler.call(task_scheduler);
        match &result {
            Err(error) => {
                match &mut self.catch_handler {
                    Some(catch_handler) => {
                        catch_handler.call(task_scheduler, error);
                    },
                    None => {},
                }
            },
            Ok(_) => {},
        }
        result
    }

    /// Pausing does not apply to a subscription.
    fn pause(&mut self, now: u64)
        ensures
            *final(self) == *old(self),
    {
    }

    /// Resuming does not apply to a subscription.
    fn resume(&mut self, now: u64)
        ensures
            *final(self) == *old(self),
    {
    }
}

} // verus!
