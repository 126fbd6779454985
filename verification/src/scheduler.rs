use vstd::prelude::*;
use crate::task_like::{TaskLike, TaskRetainFilter, TaskType};
use crate::task_unit::{same_unit, IntoTaskUnit, TaskUnit};

verus! {

/// A queued task unit. Verus's type recursion check refuses a queue entry
/// that holds a `TaskUnit` directly (handlers inside the unit receive the
/// scheduler, whose queue would then hold them), so the unit is carried
/// behind this opaque wrapper; `queued_view` names what it holds.
#[verifier::external_body]
pub struct QueuedUnit {
    inner: Box<TaskUnit>,
}

pub uninterp spec fn queued_view(q: QueuedUnit) -> TaskUnit;

/// Relies on plain construction: the wrapper holds exactly the unit it
/// was built from, which `queued_view` names.
#[verifier::external_body]
pub(crate) fn queue_unit(unit: TaskUnit) -> (r: QueuedUnit)
    ensures
        queued_view(r) == unit,
{
    QueuedUnit { inner: Box::new(unit) }
}

/// Relies on plain field access: returns the unit the wrapper was built
/// from, which `queued_view` names.
#[verifier::external_body]
pub(crate) fn unqueue_unit(q: QueuedUnit) -> (r: TaskUnit)
    ensures
        r == queued_view(q),
{
    *q.inner
}

/// A queued retain pass: the user predicate to apply, behind a trait
/// object; `spec_keeps` is what it answers of a unit's name and kind.
pub struct RetainRequest {
    filter: Box<dyn TaskRetainFilter>,
}

impl RetainRequest {
    /// What the carried predicate answers of a unit's name and kind.
    pub closed spec fn spec_keeps(&self, name: Seq<char>, task_type: TaskType) -> bool {
        self.filter.spec_keep(name, task_type)
    }

    /// Relies on Rust's unsizing coercion: the request carries the given
    /// predicate itself, so it answers as the predicate does.
    #[verifier::external_body]
    pub fn new<F: TaskRetainFilter + 'static>(filter: F) -> (r: RetainRequest)
        ensures
            forall|name: Seq<char>, task_type: TaskType|
                #[trigger] r.spec_keeps(name, task_type) == filter.spec_keep(name, task_type),
    {
        RetainRequest { filter: Box::new(filter) }
    }

    /// Decide whether a unit with the given name and kind stays.
    pub fn keep(&self, name: &String, task_type: TaskType) -> (r: bool)
        ensures
            r == self.spec_keeps(name@, task_type),
    {
        self.filter.keep(name, task_type)
    }
}

/// A pending structural change to the engine's task collection. Changes
/// are buffered in the scheduler queue and applied at the start of the
/// next tick, never while tasks are being dispatched.
pub enum TaskModificationRequest {
    /// Append a task unit, subject to its duplicate policy.
    AddTask(QueuedUnit),
    /// Keep only the task units the predicate answers true for.
    RetainTasks(RetainRequest),
    /// Mark an event name triggered for the tick that applies the request.
    TriggerEvent(String),
}

/// The names of the `TriggerEvent` requests among `mods`, in queue order.
pub open spec fn event_names_of(mods: Seq<TaskModificationRequest>) -> Seq<String>
    decreases mods.len(),
{
    if mods.len() == 0 {
        Seq::empty()
    } else {
        let rest = event_names_of(mods.drop_first());
        match mods.first() {
            TaskModificationRequest::TriggerEvent(n) => seq![n] + rest,
            _ => rest,
        }
    }
}

/// `mods` with every `TriggerEvent` request removed, in queue order.
pub open spec fn without_event_requests(mods: Seq<TaskModificationRequest>) -> Seq<
    TaskModificationRequest,
>
    decreases mods.len(),
{
    if mods.len() == 0 {
        Seq::empty()
    } else {
        let rest = without_event_requests(mods.drop_first());
        match mods.first() {
            TaskModificationRequest::TriggerEvent(_) => rest,
            _ => seq![mods.first()] + rest,
        }
    }
}

/// Retain predicate that keeps every unit whose name differs from the
/// recorded one; queued by `remove_task`.
pub struct RetainOtherNames {
    pub name: String,
}

impl TaskRetainFilter for RetainOtherNames {
    open spec fn spec_keep(&self, name: Seq<char>, task_type: TaskType) -> bool {
        name != self.name@
    }

    fn keep(&self, name: &String, task_type: TaskType) -> (r: bool)
        ensures
            r == self.spec_keep(name@, task_type),
    {
        !(*name == self.name)
    }
}

/// Retain predicate that keeps only units that are not time-triggered
/// tasks; queued by `remove_scheduled_tasks`.
pub struct RetainSubscriptions {}

impl TaskRetainFilter for RetainSubscriptions {
    open spec fn spec_keep(&self, name: Seq<char>, task_type: TaskType) -> bool {
        task_type != TaskType::Task
    }

    fn keep(&self, name: &String, task_type: TaskType) -> (r: bool)
        ensures
            r == self.spec_keep(name@, task_type),
    {
        !(task_type == TaskType::Task)
    }
}

/// Buffer of pending structural changes. Handlers enqueue changes here
/// while the engine holds the task collection; the engine drains the
/// buffer at the start of each tick.
pub struct TaskScheduler {
    pub modifications: Vec<TaskModificationRequest>,
}

impl TaskScheduler {
    /// Create a new, empty modifications scheduler.
    pub fn new() -> (r: TaskScheduler)
        ensures
            r.modifications@ == Seq::<TaskModificationRequest>::empty(),
    {
        TaskScheduler { modifications: Vec::new() }
    }

    /// Add a modification to the scheduler list.
    fn add_modification(&mut self, modification: TaskModificationRequest)
        ensures
            final(self).modifications@ == old(self).modifications@.push(modification),
    {
        self.modifications.push(modification);
    }

    /// Queue a request to add a task unit; it is applied on the next tick.
    pub fn add_task<T: IntoTaskUnit>(&mut self, task: T)
        ensures
            final(self).modifications@.len() == old(self).modifications@.len() + 1,
            forall|i: int|
                0 <= i < old(self).modifications@.len() ==> final(self).modifications@[i] == old(self).modifications@[i],
            final(self).modifications@.last() is AddTask,
            (final(self).modifications@.last() matches TaskModificationRequest::AddTask(q)
                ==> same_unit(queued_view(q), &task)),
    {
        let unit = task.into_unit();
        let request = TaskModificationRequest::AddTask(queue_unit(unit));
        self.add_modification(request);
    }

    /// Queue a request to keep only the units the filter answers true
    /// for; it is applied on the next tick.
    pub fn retain_tasks<F: TaskRetainFilter + 'static>(&mut self, filter: F)
        ensures
            final(self).modifications@.len() == old(self).modifications@.len() + 1,
            forall|i: int|
                0 <= i < old(self).modifications@.len() ==> final(self).modifications@[i] == old(self).modifications@[i],
            final(self).modifications@.last() is RetainTasks,
            (final(self).modifications@.last() matches TaskModificationRequest::RetainTasks(b)
                ==> forall|name: Seq<char>, task_type: TaskType|
                    #[trigger] b.spec_keeps(name, task_type) == filter.spec_keep(
                        name,
                        task_type,
                    )),
    {
        let request = TaskModificationRequest::RetainTasks(RetainRequest::new(filter));
        self.add_modification(request);
    }

    /// Queue a request to remove every unit named `task_name`; it is
    /// applied on the next tick.
    pub fn remove_task(&mut self, task_name: &str)
        ensures
            final(self).modifications@.len() == old(self).modifications@.len() + 1,
            forall|i: int|
                0 <= i < old(self).modifications@.len() ==> final(self).modifications@[i] == old(self).modifications@[i],
            final(self).modifications@.last() is RetainTasks,
            (final(self).modifications@.last() matches TaskModificationRequest::RetainTasks(b)
                ==> forall|name: Seq<char>, task_type: TaskType|
                    #[trigger] b.spec_keeps(name, task_type) == (name != task_name@)),
    {
        let name: String = task_name.to_owned();
        self.retain_tasks(RetainOtherNames { name });
    }

    /// Queue a request that removes every time-triggered task and keeps
    /// the subscriptions; it is applied on the next tick.
    pub fn remove_scheduled_tasks(&mut self)
        ensures
            final(self).modifications@.len() == old(self).modifications@.len() + 1,
            forall|i: int|
                0 <= i < old(self).modifications@.len() ==> final(self).modifications@[i] == old(self).modifications@[i],
            final(self).modifications@.last() is RetainTasks,
            (final(self).modifications@.last() matches TaskModificationRequest::RetainTasks(b)
                ==> forall|name: Seq<char>, task_type: TaskType|
                    #[trigger] b.spec_keeps(name, task_type) == (task_type != TaskType::Task)),
    {
        self.retain_tasks(RetainSubscriptions {  });
    }

    /// Queue a request that triggers an event, activating its
    /// subscriptions on the tick that applies the request.
    pub fn trigger_event(&mut self, event_name: &str)
        ensures
            final(self).modifications@.len() == old(self).modifications@.len() + 1,
            forall|i: int|
                0 <= i < old(self).modifications@.len() ==> final(self).modifications@[i] == old(self).modifications@[i],
            (final(self).modifications@.last() matches TaskModificationRequest::TriggerEvent(n)
                && n@ == event_name@),
    {
        let name: String = event_name.to_owned();
        self.add_modification(TaskModificationRequest::TriggerEvent(name));
    }

    /// Queue the removal of every unit sharing the task's name, then the
    /// addition of the task: the added task replaces its namesakes on the
    /// next tick.
    pub fn update_task<T: IntoTaskUnit>(&mut self, task: T)
        ensures
            final(self).modifications@.len() == old(self).modifications@.len() + 2,
            forall|i: int|
                0 <= i < old(self).modifications@.len() ==> final(self).modifications@[i] == old(self).modifications@[i],
            final(self).modifications@[final(self).modifications@.len() - 2] is RetainTasks,
            (final(self).modifications@[final(self).modifications@.len() - 2]
                matches TaskModificationRequest::RetainTasks(b) ==> forall|
                name: Seq<char>,
                task_type: TaskType,
            |
                #[trigger] b.spec_keeps(name, task_type) == (name != task.spec_name())),
            final(self).modifications@.last() is AddTask,
            (final(self).modifications@.last() matches TaskModificationRequest::AddTask(q)
                ==> same_unit(queued_view(q), &task)),
    {
        let name: String = task.name().clone();
        self.remove_task(name.as_str());
        self.add_task(task);
    }

    /// Extract all requested modifications, leaving the queue empty.
    pub(crate) fn drain(&mut self) -> (r: Vec<TaskModificationRequest>)
        ensures
            r@ == old(self).modifications@,
            final(self).modifications@ == Seq::<TaskModificationRequest>::empty(),
    {
        let mut drained: Vec<TaskModificationRequest> = Vec::new();
        core::mem::swap(&mut drained, &mut self.modifications);
        drained
    }

    /// The names of the `TriggerEvent` requests currently buffered, in
    /// order, without draining anything.
    pub fn pending_event_names(&self) -> (r: Vec<String>)
        ensures
            r@ == event_names_of(self.modifications@),
    {
        let mut names: Vec<String> = Vec::new();
        let n = self.modifications.len();
        let mut i: usize = 0;
        proof {
            assert(self.modifications@.skip(0) =~= self.modifications@);
        }
        while i < n
            invariant
                n == self.modifications@.len(),
                0 <= i <= n,
                event_names_of(self.modifications@) == names@ + event_names_of(
                    self.modifications@.skip(i as int),
                ),
            decreases n - i,
        {
            let ghost rest = self.modifications@.skip(i as int);
            let ghost names_before = names@;
            proof {
                assert(rest.first() == self.modifications@[i as int]);
                assert(rest.drop_first() =~= self.modifications@.skip(i + 1));
            }
            match &self.modifications[i] {
                TaskModificationRequest::TriggerEvent(event_name) => {
                    names.push(event_name.clone());
                    proof {
                        assert(event_names_of(rest) == seq![*event_name] + event_names_of(
                            rest.drop_first(),
                        ));
                        assert(names_before + event_names_of(rest) =~= names@ + event_names_of(
                            rest.drop_first(),
                        ));
                    }
                },
                _ => {
                    proof {
                        assert(event_names_of(rest) == event_names_of(rest.drop_first()));
                    }
                },
            }
            i += 1;
        }
        proof {
            assert(self.modifications@.skip(n as int) =~= Seq::<TaskModificationRequest>::empty());
            assert(names@ + Seq::<String>::empty() =~= names@);
        }
        names
    }

    /// Drain specifically the named events: remove every `TriggerEvent`
    /// request from the queue and return their names in order; the other
    /// requests stay, in order.
    pub fn drain_named_events(&mut self) -> (r: Vec<String>)
        ensures
            r@ == event_names_of(old(self).modifications@),
            final(self).modifications@ == without_event_requests(old(self).modifications@),
    {
        let mut drained = self.drain();
        let ghost orig = drained@;
        let mut names: Vec<String> = Vec::new();
        proof {
            assert(orig.skip(0) =~= orig);
            assert(names@ + event_names_of(orig) =~= event_names_of(orig));
            assert(self.modifications@ + without_event_requests(orig) =~= without_event_requests(
                orig,
            ));
        }
        while drained.len() > 0
            invariant
                drained@.len() <= orig.len(),
                drained@ == orig.skip(orig.len() - drained@.len()),
                event_names_of(orig) == names@ + event_names_of(drained@),
                without_event_requests(orig) == self.modifications@ + without_event_requests(
                    drained@,
                ),
            decreases drained.len(),
        {
            let ghost before = drained@;
            let ghost names_before = names@;
            let ghost kept_before = self.modifications@;
            let m = drained.remove(0);
            proof {
                assert(before.drop_first() =~= drained@);
                assert(m == before.first());
            }
            match m {
                TaskModificationRequest::TriggerEvent(event_name) => {
                    proof {
                        assert(event_names_of(before) == seq![event_name] + event_names_of(
                            drained@,
                        ));
                        assert(names_before + event_names_of(before) =~= names_before.push(
                            event_name,
                        ) + event_names_of(drained@));
                        assert(without_event_requests(before) == without_event_requests(drained@));
                    }
                    names.push(event_name);
                },
                other => {
                    proof {
                        assert(without_event_requests(before) == seq![other]
                            + without_event_requests(drained@));
                        assert(kept_before + without_event_requests(before) =~= kept_before.push(
                            other,
                        ) + without_event_requests(drained@));
                        assert(event_names_of(before) == event_names_of(drained@));
                    }
                    self.modifications.push(other);
                },
            }
        }
        proof {
            assert(drained@ =~= Seq::<TaskModificationRequest>::empty());
            assert(names@ + Seq::<String>::empty() =~= names@);
            assert(self.modifications@ + Seq::<TaskModificationRequest>::empty()
                =~= self.modifications@);
        }
        names
    }
}

impl Default for TaskScheduler {
    /// A default scheduler is a new, empty one.
    fn default() -> (r: TaskScheduler)
        ensures
            r.modifications@ == Seq::<TaskModificationRequest>::empty(),
    {
        TaskScheduler::new()
    }
}

} // verus!
