use vstd::prelude::*;
use crate::errors::HandlerError;
use crate::scheduler::TaskScheduler;
use crate::subscription::EventSubscription;
use crate::task::Task;
use crate::task_like::{DuplicateHandler, TaskLike, TaskType};

verus! {

/// The engine's task units as a tagged union: a time-triggered task or an
/// event subscription, behind one capability set.
pub enum TaskUnit {
    Task(Task),
    Subscription(EventSubscription),
}

/// The unit carries the task: every observable spec of the unit agrees
/// with the task's.
pub open spec fn same_unit<T: TaskLike>(unit: TaskUnit, task: &T) -> bool {
    &&& unit.spec_name() == task.spec_name()
    &&& unit.spec_task_type() == task.spec_task_type()
    &&& unit.spec_duplicate_handler() == task.spec_duplicate_handler()
    &&& unit.spec_expired() == task.spec_expired()
    &&& forall|now: u64, triggered: Seq<String>|
        #[trigger] unit.spec_should_run(now, triggered) == task.spec_should_run(now, triggered)
}

impl TaskUnit {
    /// The unit after `pause(now)`: a task's event is paused; a
    /// subscription is untouched.
    pub open spec fn paused_unit(self, now: u64) -> TaskUnit {
        match self {
            TaskUnit::Task(t) => TaskUnit::Task(Task { event: t.event.paused(now), ..t }),
            TaskUnit::Subscription(s) => TaskUnit::Subscription(s),
        }
    }

    /// The unit after `resume(now)`: a task's event is resumed; a
    /// subscription is untouched.
    pub open spec fn resumed_unit(self, now: u64) -> TaskUnit {
        match self {
            TaskUnit::Task(t) => TaskUnit::Task(Task { event: t.event.resumed(now), ..t }),
            TaskUnit::Subscription(s) => TaskUnit::Subscription(s),
        }
    }
}

/// A task-like value that can stand in the engine's collection.
pub trait IntoTaskUnit: TaskLike + Sized {
    /// Wrap the value as a task unit with the same observable behaviour.
    fn into_unit(self) -> (r: TaskUnit)
        ensures
            same_unit(r, &self),
    ;
}

impl IntoTaskUnit for Task {
    fn into_unit(self) -> (r: TaskUnit)
        ensures
            same_unit(r, &self),
    {
        TaskUnit::Task(self)
    }
}

impl IntoTaskUnit for EventSubscription {
    fn into_unit(self) -> (r: TaskUnit)
        ensures
            same_unit(r, &self),
    {
        TaskUnit::Subscription(self)
    }
}

impl IntoTaskUnit for TaskUnit {
    fn into_unit(self) -> (r: TaskUnit)
        ensures
            same_unit(r, &self),
    {
        self
    }
}

impl TaskLike for TaskUnit {
    open spec fn spec_name(&self) -> Seq<char> {
        match self {
            TaskUnit::Task(t) => t.spec_name(),
            TaskUnit::Subscription(s) => s.spec_name(),
        }
    }

    open spec fn spec_task_type(&self) -> TaskType {
        match self {
            TaskUnit::Task(t) => TaskType::Task,
            TaskUnit::Subscription(s) => TaskType::Subscription,
        }
    }

    open spec fn spec_duplicate_handler(&self) -> DuplicateHandler {
        match self {
            TaskUnit::Task(t) => t.spec_duplicate_handler(),
            TaskUnit::Subscription(s) => s.spec_duplicate_handler(),
        }
    }

    open spec fn spec_expired(&self) -> bool {
        match self {
            TaskUnit::Task(t) => t.spec_expired(),
            TaskUnit::Subscription(s) => s.spec_expired(),
        }
    }

    open spec fn spec_should_run(&self, now: u64, triggered_events: Seq<String>) -> bool {
        match self {
            TaskUnit::Task(t) => t.spec_should_run(now, triggered_events),
            TaskUnit::Subscription(s) => s.spec_should_run(now, triggered_events),
        }
    }

    /// The name of the task.
    fn name(&self) -> (r: &String)
        ensures
            r@ == self.spec_name(),
    {
        match self {
            TaskUnit::Task(t) => t.name(),
            TaskUnit::Subscription(s) => s.name(),
        }
    }

    /// The type-name of the task.
    fn task_type(&self) -> (r: TaskType)
        ensures
            r == self.spec_task_type(),
    {
        match self {
            TaskUnit::Task(t) => t.task_type(),
            TaskUnit::Subscription(s) => s.task_type(),
        }
    }

    /// Get the duplicate handler of the task.
    fn duplicate_handler(&self) -> (r: &DuplicateHandler)
        ensures
            *r == self.spec_duplicate_handler(),
    {
        match self {
            TaskUnit::Task(t) => t.duplicate_handler(),
            TaskUnit::Subscription(s) => s.duplicate_handler(),
        }
    }

    /// Whether or not the task is expired.
    fn expired(&self) -> (r: bool)
        ensures
            r == self.spec_expired(),
    {
        match self {
            TaskUnit::Task(t) => t.expired(),
            TaskUnit::Subscription(s) => s.expired(),
        }
    }

    /// Check if the task is scheduled to run.
    fn should_run(&self, now: u64, triggered_events: &[String]) -> (r: bool)
        ensures
            r == self.spec_should_run(now, triggered_events@),
    {
        match self {
            TaskUnit::Task(t) => t.should_run(now, triggered_events),
            TaskUnit::Subscription(s) => s.should_run(now, triggered_events),
        }
    }

    /// Run the unit once; the unit keeps its identity, an expired unit
    /// stays expired, and a task that is expired or not yet eligible is
    /// left untouched, as is the scheduler.
    fn run(&mut self, task_scheduler: &mut TaskScheduler, now: u64) -> (r: Result<
        (),
        HandlerError,
    >)
        ensures
            old(self).spec_expired() ==> final(self).spec_expired(),
            ((*old(self)) matches TaskUnit::Task(t) && (t.expired || !t.event.spec_should_run(
                now,
            )) ==> *final(self) == *old(self) && *final(task_scheduler) == *old(task_scheduler)
                && (r is Ok)),
            ((*old(self)) matches TaskUnit::Task(t) ==> ((*final(self)) matches TaskUnit::Task(t2)
                && t2.handlers.len() == t.handlers.len() && (t2.handler_index == t.handler_index
                || t2.handler_index == t.handler_index + 1) && (t.wf() ==> t2.wf()) && (!t.expired
                && t.event.spec_should_run(now) ==> t2.expired == (r is Err || t2.handler_index
                >= t2.handlers.len())))),
    {
        match self {
            TaskUnit::Task(t) => t.run(task_scheduler, now),
            TaskUnit::Subscription(s) => s.run(task_scheduler, now),
        }
    }

    /// Pause the unit, temporarily disabling it.
    fn pause(&mut self, now: u64)
        ensures
            *final(self) == old(self).paused_unit(now),
    {
        match self {
            TaskUnit::Task(t) => t.pause(now),
            TaskUnit::Subscription(s) => s.pause(now),
        }
    }

    /// Resume the unit, reinstating functionality to it.
    fn resume(&mut self, now: u64)
        ensures
            *final(self) == old(self).resumed_unit(now),
    {
        match self {
            TaskUnit::Task(t) => t.resume(now),
            TaskUnit::Subscription(s) => s.resume(now),
        }
    }
}

} // verus!
