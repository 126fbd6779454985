use vstd::prelude::*;
use crate::errors::HandlerError;
use crate::scheduler::TaskScheduler;

verus! {

/// Rule for reconciling several task units that share a name, applied when
/// an added unit reaches the engine's collection.
#[derive(Clone, Copy, PartialEq, Eq, Structural)]
pub enum DuplicateHandler {
    /// Append unconditionally.
    KeepAll,
    /// Append only if no unit of the same name is present.
    KeepOld,
    /// Drop every unit of the same name, then append.
    KeepNew,
}

/// The two kinds of task unit, exposed so retain predicates can tell a
/// time-triggered task from an event subscription.
#[derive(Clone, Copy, PartialEq, Eq, Structural)]
pub enum TaskType {
    Task,
    Subscription,
}

/// Common capability set of the engine's task units; time-triggered tasks
/// and event subscriptions both offer it.
pub trait TaskLike {
    /// The unit's display name; not guaranteed unique.
    spec fn spec_name(&self) -> Seq<char>;

    /// Which kind of unit this is.
    spec fn spec_task_type(&self) -> TaskType;

    /// The unit's duplicate policy.
    spec fn spec_duplicate_handler(&self) -> DuplicateHandler;

    /// Whether the unit has reached its terminal state.
    spec fn spec_expired(&self) -> bool;

    /// Whether the unit should run at `now` with the given set of
    /// triggered event names.
    spec fn spec_should_run(&self, now: u64, triggered_events: Seq<String>) -> bool;

    /// The name of the task.
    fn name(&self) -> (r: &String)
        ensures
            r@ == self.spec_name(),
    ;

    /// The type-name of the task.
    fn task_type(&self) -> (r: TaskType)
        ensures
            r == self.spec_task_type(),
    ;

    /// Get the duplicate handler of the task.
    fn duplicate_handler(&self) -> (r: &DuplicateHandler)
        ensures
            *r == self.spec_duplicate_handler(),
    ;

    /// Whether or not the task is expired.
    fn expired(&self) -> (r: bool)
        ensures
            r == self.spec_expired(),
    ;

    /// Check if the task is scheduled to run.
    fn should_run(&self, now: u64, triggered_events: &[String]) -> (r: bool)
        ensures
            r == self.spec_should_run(now, triggered_events@),
    ;

    /// Run the unit once. Running never changes the unit's identity: its
    /// name, kind and duplicate policy stay what they were.
    fn run(&mut self, task_scheduler: &mut TaskScheduler, now: u64) -> (r: Result<
        (),
        HandlerError,
    >)
        ensures
            final(self).spec_name() == old(self).spec_name(),
            final(self).spec_task_type() == old(self).spec_task_type(),
            final(self).spec_duplicate_handler() == old(self).spec_duplicate_handler(),
    ;

    /// Pause the unit, temporarily disabling it. Pausing changes neither
    /// the unit's identity nor its expiration.
    fn pause(&mut self, now: u64)
        ensures
            final(self).spec_name() == old(self).spec_name(),
            final(self).spec_task_type() == old(self).spec_task_type(),
            final(self).spec_duplicate_handler() == old(self).spec_duplicate_handler(),
            final(self).spec_expired() == old(self).spec_expired(),
    ;

    /// Resume the unit, reinstating functionality to it. Resuming changes
    /// neither the unit's identity nor its expiration.
    fn resume(&mut self, now: u64)
        ensures
            final(self).spec_name() == old(self).spec_name(),
            final(self).spec_task_type() == old(self).spec_task_type(),
            final(self).spec_duplicate_handler() == old(self).spec_duplicate_handler(),
            final(self).spec_expired() == old(self).spec_expired(),
    ;
}

/// A retain predicate over task units, queued by `retain_tasks`: a unit is
/// judged by its name and kind, and is dropped when `keep` answers false.
pub trait TaskRetainFilter {
    /// What the predicate holds of a unit with the given name and kind.
    spec fn spec_keep(&self, name: Seq<char>, task_type: TaskType) -> bool;

    /// Decide whether a unit with the given name and kind stays.
    fn keep(&self, name: &String, task_type: TaskType) -> (r: bool)
        ensures
            r == self.spec_keep(name@, task_type),
    ;
}

} // verus!
