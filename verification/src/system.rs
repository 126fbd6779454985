use vstd::prelude::*;
use crate::scheduler::{
    queued_view, unqueue_unit, RetainRequest, TaskModificationRequest, TaskScheduler,
};
use crate::task::Task;
use crate::task_like::{DuplicateHandler, TaskLike, TaskType};
use crate::task_unit::{IntoTaskUnit, TaskUnit};

verus! {

/// The default minimum tick period, in clock units.
pub const DEFAULT_INTERVAL: u64 = 1;

/// Whether some unit among `tasks` carries `name`.
pub open spec fn has_name(tasks: Seq<TaskUnit>, name: Seq<char>) -> bool {
    exists|i: int| 0 <= i < tasks.len() && tasks[i].spec_name() == name
}

/// `tasks` without the units named `name`, in order.
pub open spec fn without_name(tasks: Seq<TaskUnit>, name: Seq<char>) -> Seq<TaskUnit>
    decreases tasks.len(),
{
    if tasks.len() == 0 {
        Seq::empty()
    } else {
        let rest = without_name(tasks.drop_first(), name);
        if tasks.first().spec_name() == name {
            rest
        } else {
            seq![tasks.first()] + rest
        }
    }
}

/// The units of `tasks` the queued predicate keeps, judged by name and
/// kind, in order.
pub open spec fn retained_by(tasks: Seq<TaskUnit>, request: RetainRequest) -> Seq<TaskUnit>
    decreases tasks.len(),
{
    if tasks.len() == 0 {
        Seq::empty()
    } else {
        let rest = retained_by(tasks.drop_first(), request);
        if request.spec_keeps(tasks.first().spec_name(), tasks.first().spec_task_type()) {
            seq![tasks.first()] + rest
        } else {
            rest
        }
    }
}

/// One unfolding step of `retained_by`.
proof fn lemma_retained_by_step(s: Seq<TaskUnit>, request: RetainRequest)
    requires
        s.len() > 0,
    ensures
        request.spec_keeps(s.first().spec_name(), s.first().spec_task_type()) ==> retained_by(
            s,
            request,
        ) == seq![s.first()] + retained_by(s.drop_first(), request),
        !request.spec_keeps(s.first().spec_name(), s.first().spec_task_type()) ==> retained_by(
            s,
            request,
        ) == retained_by(s.drop_first(), request),
{
}

/// `retained_by` of the empty sequence is empty.
proof fn lemma_retained_by_empty(s: Seq<TaskUnit>, request: RetainRequest)
    requires
        s.len() == 0,
    ensures
        retained_by(s, request) == Seq::<TaskUnit>::empty(),
{
}

/// The units of `tasks` that have not expired, in order.
pub open spec fn unexpired(tasks: Seq<TaskUnit>) -> Seq<TaskUnit>
    decreases tasks.len(),
{
    if tasks.len() == 0 {
        Seq::empty()
    } else {
        let rest = unexpired(tasks.drop_first());
        if tasks.first().spec_expired() {
            rest
        } else {
            seq![tasks.first()] + rest
        }
    }
}

/// `tasks` after an added unit is reconciled under its duplicate policy:
/// `KeepAll` appends; `KeepOld` appends only when no unit carries the
/// name; `KeepNew` first drops every unit carrying the name.
pub open spec fn applied_add(tasks: Seq<TaskUnit>, unit: TaskUnit) -> Seq<TaskUnit> {
    match unit.spec_duplicate_handler() {
        DuplicateHandler::KeepAll => tasks.push(unit),
        DuplicateHandler::KeepOld => if has_name(tasks, unit.spec_name()) {
            tasks
        } else {
            tasks.push(unit)
        },
        DuplicateHandler::KeepNew => without_name(tasks, unit.spec_name()).push(unit),
    }
}

/// Task collection and triggered-event names after one queued request.
pub open spec fn applied_mod(
    tasks: Seq<TaskUnit>,
    triggered: Seq<String>,
    m: TaskModificationRequest,
) -> (Seq<TaskUnit>, Seq<String>) {
    match m {
        TaskModificationRequest::AddTask(q) => (applied_add(tasks, queued_view(q)), triggered),
        TaskModificationRequest::RetainTasks(f) => (retained_by(tasks, f), triggered),
        TaskModificationRequest::TriggerEvent(n) => (tasks, triggered.push(n)),
    }
}

/// Task collection and triggered-event names after a queue of requests,
/// applied front to back.
pub open spec fn applied_mods(
    tasks: Seq<TaskUnit>,
    triggered: Seq<String>,
    mods: Seq<TaskModificationRequest>,
) -> (Seq<TaskUnit>, Seq<String>)
    decreases mods.len(),
{
    if mods.len() == 0 {
        (tasks, triggered)
    } else {
        let stepped = applied_mod(tasks, triggered, mods.first());
        applied_mods(stepped.0, stepped.1, mods.drop_first())
    }
}

/// One dispatch pass is summarized by the sequence of task units as it
/// stood after the pass: identities are kept, and a unit that was not
/// eligible at `now` under the triggered names is untouched.
pub open spec fn dispatched_from(
    before: Seq<TaskUnit>,
    after: Seq<TaskUnit>,
    now: u64,
    triggered: Seq<String>,
) -> bool {
    &&& after.len() == before.len()
    &&& (forall|i: int|
        0 <= i < before.len() ==> (#[trigger] after[i].spec_name()) == before[i].spec_name()
            && after[i].spec_task_type() == before[i].spec_task_type()
            && after[i].spec_duplicate_handler() == before[i].spec_duplicate_handler())
    &&& (forall|i: int|
        0 <= i < before.len() && !(#[trigger] before[i].spec_should_run(now, triggered))
            ==> after[i] == before[i])
}

/// The in-process cooperative engine: it owns the task collection, drives
/// the tick loop, applies queued changes between passes, dispatches
/// eligible units, and reaps expired ones.
pub struct TaskSystem {
    /// The owned task units, in insertion order.
    pub tasks: Vec<TaskUnit>,
    /// The event names triggered for the current tick.
    pub triggered_events: Vec<String>,
    /// Minimum tick period, in clock units.
    pub interval: u64,
    /// Guard against re-entering a run; a tick that finds it held is
    /// skipped without effect.
    pub run_lock: bool,
    /// The sole channel of structural change while the engine runs.
    pub task_scheduler: TaskScheduler,
}

impl TaskSystem {
    /// Create a new task system: no tasks, no triggered events, the
    /// default interval, the lock released and an empty queue.
    pub fn new() -> (r: TaskSystem)
        ensures
            r.tasks@ == Seq::<TaskUnit>::empty(),
            r.triggered_events@ == Seq::<String>::empty(),
            r.interval == DEFAULT_INTERVAL,
            r.run_lock == false,
            r.task_scheduler.modifications@ == Seq::<TaskModificationRequest>::empty(),
    {
        TaskSystem {
            tasks: Vec::new(),
            triggered_events: Vec::new(),
            interval: DEFAULT_INTERVAL,
            run_lock: false,
            task_scheduler: TaskScheduler::new(),
        }
    }

    /// Set the minimum tick period, in clock units.
    pub fn set_interval(&mut self, interval: u64)
        ensures
            *final(self) == (TaskSystem { interval, ..*old(self) }),
    {
        self.interval = interval;
    }

    /// The minimum tick period, in clock units.
    pub fn interval(&self) -> (r: u64)
        ensures
            r == self.interval,
    {
        self.interval
    }

    /// Borrow the task scheduler, so callers can enqueue structural
    /// changes without holding the engine.
    pub fn task_scheduler(&mut self) -> (r: &mut TaskScheduler)
        ensures
            *r == old(self).task_scheduler,
            *final(self) == (TaskSystem { task_scheduler: *final(r), ..*old(self) }),
    {
        &mut self.task_scheduler
    }

    /// Queue the addition of a task unit; it joins the collection on the
    /// next tick.
    pub fn add_task<T: IntoTaskUnit>(&mut self, task: T)
        ensures
            final(self).tasks == old(self).tasks,
            final(self).triggered_events == old(self).triggered_events,
            final(self).interval == old(self).interval,
            final(self).run_lock == old(self).run_lock,
            final(self).task_scheduler.modifications@.len() == old(self).task_scheduler.modifications@.len() + 1,
            forall|i: int|
                0 <= i < old(self).task_scheduler.modifications@.len() ==> final(self).task_scheduler.modifications@[i] == old(self).task_scheduler.modifications@[i],
            final(self).task_scheduler.modifications@.last() is AddTask,
            (final(self).task_scheduler.modifications@.last()
                matches TaskModificationRequest::AddTask(q) ==> crate::task_unit::same_unit(
                queued_view(q),
                &task,
            )),
    {
        self.task_scheduler.add_task(task);
    }

    /// Queue the removal of every unit named `task_name`; it takes effect
    /// on the next tick.
    pub fn remove_task(&mut self, task_name: &str)
        ensures
            final(self).tasks == old(self).tasks,
            final(self).triggered_events == old(self).triggered_events,
            final(self).interval == old(self).interval,
            final(self).run_lock == old(self).run_lock,
            final(self).task_scheduler.modifications@.len() == old(self).task_scheduler.modifications@.len() + 1,
            forall|i: int|
                0 <= i < old(self).task_scheduler.modifications@.len() ==> final(self).task_scheduler.modifications@[i] == old(self).task_scheduler.modifications@[i],
            final(self).task_scheduler.modifications@.last() is RetainTasks,
            (final(self).task_scheduler.modifications@.last()
                matches TaskModificationRequest::RetainTasks(b) ==> forall|
                name: Seq<char>,
                task_type: crate::task_like::TaskType,
            |
                #[trigger] b.spec_keeps(name, task_type) == (name != task_name@)),
    {
        self.task_scheduler.remove_task(task_name);
    }

    /// Queue the triggering of an event; its subscriptions fire on the
    /// tick that applies the request.
    pub fn trigger_event(&mut self, event_name: &str)
        ensures
            final(self).tasks == old(self).tasks,
            final(self).triggered_events == old(self).triggered_events,
            final(self).interval == old(self).interval,
            final(self).run_lock == old(self).run_lock,
            final(self).task_scheduler.modifications@.len() == old(self).task_scheduler.modifications@.len() + 1,
            forall|i: int|
                0 <= i < old(self).task_scheduler.modifications@.len() ==> final(self).task_scheduler.modifications@[i] == old(self).task_scheduler.modifications@[i],
            (final(self).task_scheduler.modifications@.last()
                matches TaskModificationRequest::TriggerEvent(n) && n@ == event_name@),
    {
        self.task_scheduler.trigger_event(event_name);
    }

    /// Apply a single queued request to the collection: an addition under
    /// its duplicate policy, a retain pass, or the marking of an event
    /// name as triggered.
    fn handle_modification(&mut self, modification: TaskModificationRequest)
        ensures
            final(self).interval == old(self).interval,
            final(self).run_lock == old(self).run_lock,
            final(self).task_scheduler == old(self).task_scheduler,
            ({
                let stepped = applied_mod(
                    old(self).tasks@,
                    old(self).triggered_events@,
                    modification,
                );
                final(self).tasks@ == stepped.0 && final(self).triggered_events@ == stepped.1
            }),
    {
        match modification {
            TaskModificationRequest::AddTask(q) => {
                let unit = unqueue_unit(q);
                match unit.duplicate_handler() {
                    DuplicateHandler::KeepAll => {
                        self.tasks.push(unit);
                    },
                    DuplicateHandler::KeepOld => {
                        let found = self.contains_named(unit.name());
                        if !found {
                            self.tasks.push(unit);
                        }
                    },
                    DuplicateHandler::KeepNew => {
                        let name: String = unit.name().clone();
                        remove_named(&mut self.tasks, &name);
                        self.tasks.push(unit);
                    },
                }
            },
            TaskModificationRequest::RetainTasks(request) => {
                apply_retain(&mut self.tasks, &request);
            },
            TaskModificationRequest::TriggerEvent(event_name) => {
                self.triggered_events.push(event_name);
            },
        }
    }

    /// Whether some unit of the collection carries `name`.
    fn contains_named(&self, name: &String) -> (r: bool)
        ensures
            r == has_name(self.tasks@, name@),
    {
        let n = self.tasks.len();
        let mut i: usize = 0;
        while i < n
            invariant
                n == self.tasks@.len(),
                0 <= i <= n,
                forall|k: int| 0 <= k < i ==> self.tasks@[k].spec_name() != name@,
            decreases n - i,
        {
            if *self.tasks[i].name() == *name {
                return true;
            }
            i += 1;
        }
        false
    }

    /// Run one tick, assuming the run lock is already held: drain the
    /// queue and apply every request, dispatch each eligible unit, clear
    /// the triggered names, and reap the expired units.
    fn inner_run_once(&mut self, now: u64)
        ensures
            final(self).interval == old(self).interval,
            final(self).run_lock == old(self).run_lock,
            final(self).triggered_events@ == Seq::<String>::empty(),
            ({
                let applied = applied_mods(
                    old(self).tasks@,
                    old(self).triggered_events@,
                    old(self).task_scheduler.modifications@,
                );
                exists|mid: Seq<TaskUnit>|
                    #![auto]
                    dispatched_from(applied.0, mid, now, applied.1) && final(self).tasks@
                        == unexpired(mid)
            }),
            ({
                let applied = applied_mods(
                    old(self).tasks@,
                    old(self).triggered_events@,
                    old(self).task_scheduler.modifications@,
                );
                (forall|i: int|
                    0 <= i < applied.0.len() ==> !(#[trigger] applied.0[i].spec_should_run(
                        now,
                        applied.1,
                    ))) ==> final(self).task_scheduler.modifications@ == Seq::<
                    TaskModificationRequest,
                >::empty()
            }),
    {
        let ghost applied = applied_mods(
            old(self).tasks@,
            old(self).triggered_events@,
            old(self).task_scheduler.modifications@,
        );

        // Apply queued modifications first: they must be visible to this
        // tick's dispatch, and a handler that queues more must not.
        let mut mods = self.task_scheduler.drain();
        let ghost all_mods = mods@;
        proof {
            assert(all_mods.skip(0) =~= all_mods);
        }
        while mods.len() > 0
            invariant
                mods@.len() <= all_mods.len(),
                mods@ == all_mods.skip(all_mods.len() - mods@.len()),
                applied == applied_mods(self.tasks@, self.triggered_events@, mods@),
                self.interval == old(self).interval,
                self.run_lock == old(self).run_lock,
                self.task_scheduler.modifications@ == Seq::<TaskModificationRequest>::empty(),
            decreases mods.len(),
        {
            let ghost before = mods@;
            let m = mods.remove(0);
            proof {
                assert(before.drop_first() =~= mods@);
                assert(m == before.first());
            }
            self.handle_modification(m);
        }
        proof {
            assert(applied == applied_mods(self.tasks@, self.triggered_events@, mods@));
            assert(mods@ =~= Seq::<TaskModificationRequest>::empty());
            assert(self.tasks@ == applied.0);
            assert(self.triggered_events@ == applied.1);
        }

        // Dispatch: run every unit that is eligible at `now` under the
        // triggered names of this tick.
        let n = self.tasks.len();
        let mut i: usize = 0;
        while i < n
            invariant
                n == self.tasks@.len(),
                0 <= i <= n,
                self.tasks@.len() == applied.0.len(),
                self.triggered_events@ == applied.1,
                self.interval == old(self).interval,
                self.run_lock == old(self).run_lock,
                forall|k: int|
                    0 <= k < n ==> (#[trigger] self.tasks@[k].spec_name())
                        == applied.0[k].spec_name() && self.tasks@[k].spec_task_type()
                        == applied.0[k].spec_task_type() && self.tasks@[k].spec_duplicate_handler()
                        == applied.0[k].spec_duplicate_handler(),
                forall|k: int| i <= k < n ==> self.tasks@[k] == applied.0[k],
                forall|k: int|
                    0 <= k < i && !(#[trigger] applied.0[k].spec_should_run(now, applied.1))
                        ==> self.tasks@[k] == applied.0[k],
                (forall|k: int|
                    0 <= k < i ==> !(#[trigger] applied.0[k].spec_should_run(now, applied.1)))
                    ==> self.task_scheduler.modifications@ == Seq::<
                    TaskModificationRequest,
                >::empty(),
            decreases n - i,
        {
            if self.tasks[i].should_run(now, self.triggered_events.as_slice()) {
                let _ = self.tasks[i].run(&mut self.task_scheduler, now);
            }
            i += 1;
        }
        let ghost mid = self.tasks@;
        proof {
            assert(dispatched_from(applied.0, mid, now, applied.1));
        }

        // The triggered names belong to this tick alone; then drop what
        // has expired.
        self.triggered_events = Vec::new();
        reap_expired(&mut self.tasks);
    }

    /// Acquire the run lock; a held lock means another run is in
    /// progress, and this one must not proceed.
    fn get_run_lock(&mut self) -> (r: bool)
        ensures
            old(self).run_lock ==> r == false && *final(self) == *old(self),
            !old(self).run_lock ==> r == true && *final(self) == (TaskSystem {
                run_lock: true,
                ..*old(self)
            }),
    {
        if self.run_lock {
            false
        } else {
            self.run_lock = true;
            true
        }
    }

    /// Release the run lock.
    fn release_run_lock(&mut self)
        ensures
            *final(self) == (TaskSystem { run_lock: false, ..*old(self) }),
    {
        self.run_lock = false;
    }

    /// Run a single tick at `now`. When the run lock is held by a run
    /// already in progress, nothing happens at all; otherwise the queued
    /// requests are applied, the eligible units dispatched, the triggered
    /// names cleared, and the expired units reaped.
    pub fn run_once(&mut self, now: u64)
        ensures
            old(self).run_lock ==> *final(self) == *old(self),
            !old(self).run_lock ==> final(self).run_lock == false,
            !old(self).run_lock ==> final(self).interval == old(self).interval,
            !old(self).run_lock ==> final(self).triggered_events@ == Seq::<String>::empty(),
            !old(self).run_lock ==> ({
                let applied = applied_mods(
                    old(self).tasks@,
                    old(self).triggered_events@,
                    old(self).task_scheduler.modifications@,
                );
                exists|mid: Seq<TaskUnit>|
                    #![auto]
                    dispatched_from(applied.0, mid, now, applied.1) && final(self).tasks@
                        == unexpired(mid)
            }),
            !old(self).run_lock ==> ({
                let applied = applied_mods(
                    old(self).tasks@,
                    old(self).triggered_events@,
                    old(self).task_scheduler.modifications@,
                );
                (forall|i: int|
                    0 <= i < applied.0.len() ==> !(#[trigger] applied.0[i].spec_should_run(
                        now,
                        applied.1,
                    ))) ==> final(self).task_scheduler.modifications@ == Seq::<
                    TaskModificationRequest,
                >::empty()
            }),
    {
        if !self.get_run_lock() {
            return;
        }
        self.inner_run_once(now);
        self.release_run_lock();
    }

    /// Run a single externally-owned task once against the engine's
    /// scheduler, without checking whether it should run. Nothing happens
    /// when the run lock is held.
    pub fn run_task_once(&mut self, task: &mut Task, now: u64)
        ensures
            final(self).tasks == old(self).tasks,
            final(self).triggered_events == old(self).triggered_events,
            final(self).interval == old(self).interval,
            final(self).run_lock == old(self).run_lock,
            old(self).run_lock ==> *final(self) == *old(self) && *final(task) == *old(task),
            !old(self).run_lock && old(task).expired ==> *final(task) == *old(task) && final(self).task_scheduler == old(self).task_scheduler,
            final(task).name == old(task).name,
            final(task).duplicate_handler == old(task).duplicate_handler,
            final(task).handlers.len() == old(task).handlers.len(),
            final(task).handler_index == old(task).handler_index || final(task).handler_index
                == old(task).handler_index + 1,
            old(task).wf() ==> final(task).wf(),
            old(task).expired ==> final(task).expired,
    {
        if !self.get_run_lock() {
            return;
        }
        let _ = task.dispatch(&mut self.task_scheduler, now);
        self.release_run_lock();
    }

    /// Pause every task unit at `now`: each task's event is paused, so it
    /// is disabled until resumed; identities and expirations are
    /// untouched.
    pub fn pause(&mut self, now: u64)
        ensures
            final(self).triggered_events == old(self).triggered_events,
            final(self).interval == old(self).interval,
            final(self).run_lock == old(self).run_lock,
            final(self).task_scheduler == old(self).task_scheduler,
            final(self).tasks@.len() == old(self).tasks@.len(),
            forall|i: int|
                0 <= i < old(self).tasks@.len() ==> (#[trigger] final(self).tasks@[i]) == old(self).tasks@[i].paused_unit(now),
    {
        let n = self.tasks.len();
        let mut i: usize = 0;
        while i < n
            invariant
                n == self.tasks@.len(),
                0 <= i <= n,
                n == old(self).tasks@.len(),
                self.triggered_events == old(self).triggered_events,
                self.interval == old(self).interval,
                self.run_lock == old(self).run_lock,
                self.task_scheduler == old(self).task_scheduler,
                forall|k: int| i <= k < n ==> self.tasks@[k] == old(self).tasks@[k],
                forall|k: int|
                    0 <= k < i ==> (#[trigger] self.tasks@[k]) == old(self).tasks@[k].paused_unit(
                        now,
                    ),
            decreases n - i,
        {
            self.tasks[i].pause(now);
            i += 1;
        }
    }

    /// Resume every task unit at `now`: each task's target instant is
    /// pushed forward by the time it spent paused and its pause mark is
    /// cleared; identities and expirations are untouched.
    pub fn resume(&mut self, now: u64)
        ensures
            final(self).triggered_events == old(self).triggered_events,
            final(self).interval == old(self).interval,
            final(self).run_lock == old(self).run_lock,
            final(self).task_scheduler == old(self).task_scheduler,
            final(self).tasks@.len() == old(self).tasks@.len(),
            forall|i: int|
                0 <= i < old(self).tasks@.len() ==> (#[trigger] final(self).tasks@[i]) == old(self).tasks@[i].resumed_unit(now),
    {
        let n = self.tasks.len();
        let mut i: usize = 0;
        while i < n
            invariant
                n == self.tasks@.len(),
                0 <= i <= n,
                n == old(self).tasks@.len(),
                self.triggered_events == old(self).triggered_events,
                self.interval == old(self).interval,
                self.run_lock == old(self).run_lock,
                self.task_scheduler == old(self).task_scheduler,
                forall|k: int| i <= k < n ==> self.tasks@[k] == old(self).tasks@[k],
                forall|k: int|
                    0 <= k < i ==> (#[trigger] self.tasks@[k]) == old(self).tasks@[k].resumed_unit(
                        now,
                    ),
            decreases n - i,
        {
            self.tasks[i].resume(now);
            i += 1;
        }
    }
}

impl Default for TaskSystem {
    /// A default system is a new one.
    fn default() -> (r: TaskSystem)
        ensures
            r.tasks@ == Seq::<TaskUnit>::empty(),
            r.triggered_events@ == Seq::<String>::empty(),
            r.interval == DEFAULT_INTERVAL,
            r.run_lock == false,
            r.task_scheduler.modifications@ == Seq::<TaskModificationRequest>::empty(),
    {
        TaskSystem::new()
    }
}

/// The part of a tick interval that is left after `elapsed` clock units
/// have passed: the pacing loop sleeps exactly this long.
pub fn remaining_interval(interval: u64, elapsed: u64) -> (r: u64)
    ensures
        r == if elapsed >= interval {
            0u64
        } else {
            (interval - elapsed) as u64
        },
{
    if elapsed >= interval {
        0
    } else {
        interval - elapsed
    }
}

/// Remove every unit named `name` from `tasks`, keeping the order.
fn remove_named(tasks: &mut Vec<TaskUnit>, name: &String)
    ensures
        final(tasks)@ == without_name(old(tasks)@, name@),
{
    let ghost orig = tasks@;
    let mut kept: Vec<TaskUnit> = Vec::new();
    proof {
        assert(orig.skip(0) =~= orig);
        assert(kept@ + without_name(orig, name@) =~= without_name(orig, name@));
    }
    while tasks.len() > 0
        invariant
            tasks@.len() <= orig.len(),
            tasks@ == orig.skip(orig.len() - tasks@.len()),
            without_name(orig, name@) == kept@ + without_name(tasks@, name@),
        decreases tasks.len(),
    {
        let ghost before = tasks@;
        let ghost kept_before = kept@;
        let unit = tasks.remove(0);
        proof {
            assert(before.drop_first() =~= tasks@);
            assert(unit == before.first());
        }
        if *unit.name() == *name {
            proof {
                assert(without_name(before, name@) == without_name(tasks@, name@));
            }
        } else {
            proof {
                assert(without_name(before, name@) == seq![unit] + without_name(tasks@, name@));
                assert(kept_before + without_name(before, name@) =~= kept_before.push(unit)
                    + without_name(tasks@, name@));
            }
            kept.push(unit);
        }
    }
    proof {
        assert(tasks@ =~= Seq::<TaskUnit>::empty());
        assert(kept@ + Seq::<TaskUnit>::empty() =~= kept@);
    }
    *tasks = kept;
}

/// Keep only the units the filter answers true for, judged by name and
/// kind, keeping the order.
fn apply_retain(tasks: &mut Vec<TaskUnit>, request: &RetainRequest)
    ensures
        final(tasks)@ == retained_by(old(tasks)@, *request),
{
    let ghost orig = tasks@;
    let mut kept: Vec<TaskUnit> = Vec::new();
    proof {
        assert(orig.skip(0) =~= orig);
        assert(kept@ + retained_by(orig, *request) =~= retained_by(orig, *request));
    }
    while tasks.len() > 0
        invariant
            tasks@.len() <= orig.len(),
            tasks@ == orig.skip(orig.len() - tasks@.len()),
            retained_by(orig, *request) == kept@ + retained_by(tasks@, *request),
        decreases tasks.len(),
    {
        let ghost before = tasks@;
        let ghost kept_before = kept@;
        let unit = tasks.remove(0);
        proof {
            assert(before.drop_first() =~= tasks@);
            assert(unit == before.first());
        }
        let unit_type = unit.task_type();
        proof {
            lemma_retained_by_step(before, *request);
        }
        let kp = request.keep(unit.name(), unit_type);
        if kp {
            proof {
                assert(retained_by(before, *request) == seq![unit] + retained_by(
                    tasks@,
                    *request,
                ));
                assert(kept_before + retained_by(before, *request) =~= kept_before.push(unit)
                    + retained_by(tasks@, *request));
            }
            kept.push(unit);
        } else {
            proof {
                assert(retained_by(before, *request) == retained_by(tasks@, *request));
            }
        }
    }
    proof {
        assert(tasks@ =~= Seq::<TaskUnit>::empty());
        lemma_retained_by_empty(tasks@, *request);
        assert(kept@ + Seq::<TaskUnit>::empty() =~= kept@);
    }
    *tasks = kept;
}

/// Drop every expired unit from `tasks`, keeping the order.
fn reap_expired(tasks: &mut Vec<TaskUnit>)
    ensures
        final(tasks)@ == unexpired(old(tasks)@),
{
    let ghost orig = tasks@;
    let mut kept: Vec<TaskUnit> = Vec::new();
    proof {
        assert(orig.skip(0) =~= orig);
        assert(kept@ + unexpired(orig) =~= unexpired(orig));
    }
    while tasks.len() > 0
        invariant
            tasks@.len() <= orig.len(),
            tasks@ == orig.skip(orig.len() - tasks@.len()),
            unexpired(orig) == kept@ + unexpired(tasks@),
        decreases tasks.len(),
    {
        let ghost before = tasks@;
        let ghost kept_before = kept@;
        let unit = tasks.remove(0);
        proof {
            assert(before.drop_first() =~= tasks@);
            assert(unit == before.first());
        }
        if unit.expired() {
            proof {
                assert(unexpired(before) == unexpired(tasks@));
            }
        } else {
            proof {
                assert(unexpired(before) == seq![unit] + unexpired(tasks@));
                assert(kept_before + unexpired(before) =~= kept_before.push(unit) + unexpired(
                    tasks@,
                ));
            }
            kept.push(unit);
        }
    }
    proof {
        assert(tasks@ =~= Seq::<TaskUnit>::empty());
        assert(kept@ + Seq::<TaskUnit>::empty() =~= kept@);
    }
    *tasks = kept;
}




} // verus!
