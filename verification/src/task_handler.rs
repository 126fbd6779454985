use vstd::prelude::*;
use crate::errors::HandlerError;
use crate::event::Event;
use crate::handler_fns::TaskHandlerFn;
use crate::scheduler::TaskScheduler;
use crate::task::Task;

verus! {

/// A task's unit of work: a tree of composable handlers. Running a node
/// may mark the event expired, which tells the node's parent (or the
/// owning task) that this node is done.
pub enum TaskHandler {
    /// No work: running it immediately marks the event expired.
    NoHandler,
    /// A user-supplied callable.
    Fn(Box<dyn TaskHandlerFn>),
    /// A whole task run as a handler; its expiration is propagated to the
    /// outer event.
    Task(Task),
    /// Runs the inner handler up to the limit held in the last field; the
    /// middle field counts the calls made so far.
    Repeat(Box<TaskHandler>, usize, usize),
    /// An ordered sequence of handlers; the second field is the cursor of
    /// the active child.
    List(Vec<TaskHandler>, usize),
}

impl TaskHandler {
    /// Create a new task-handler from any handler source.
    pub fn new<S: TaskHandlerSource>(source: S) -> (r: TaskHandler)
        ensures
            source.lifts_to(r),
    {
        source.into_handler()
    }

    /// Run the task handler once. Handles event updating and expiration:
    /// a `NoHandler` expires at once; a `Repeat` counts one call and
    /// expires with the final one; a `List` runs its active child,
    /// advances past it (resetting the event) once the child expires, and
    /// expires only when the cursor leaves the sequence.
    pub fn run(&mut self, scheduler: &mut TaskScheduler, now: u64, event: &mut Event) -> (r:
        Result<(), HandlerError>)
        ensures
            (*old(self)) is NoHandler ==> *final(self) == *old(self) && *final(event) == (Event {
                expired: true,
                ..*old(event)
            }) && *final(scheduler) == *old(scheduler) && (r is Ok),
            (*old(self)) is Fn ==> (*final(self)) is Fn,
            ((*old(self)) matches TaskHandler::Task(t) ==> ((*final(self))
                matches TaskHandler::Task(t2) && t2.name == t.name && t2.duplicate_handler
                == t.duplicate_handler && (t2.expired ==> *final(event) == (Event {
                expired: true,
                ..*old(event)
            })) && (!t2.expired ==> *final(event) == *old(event)))),
            ((*old(self)) matches TaskHandler::Repeat(inner, count, limit) ==> ((*final(self))
                matches TaskHandler::Repeat(inner2, count2, limit2) && limit2 == limit
                && (count < limit ==> count2 == count + 1)
                && (count >= limit ==> count2 == count && inner2 == inner
                    && *final(event) == (Event { expired: true, ..*old(event) })
                    && *final(scheduler) == *old(scheduler) && (r is Ok))
                && (count < limit && count + 1 == limit ==> final(event).expired))),
            ((*old(self)) matches TaskHandler::List(children, index) ==> ((*final(self))
                matches TaskHandler::List(children2, index2) && children2.len() == children.len()
                && (index2 == index || index2 == index + 1)
                && (forall|k: int|
                    0 <= k < children.len() && k != index ==> children2[k] == children[k])
                && (final(event).expired <==> index2 >= children2.len())
                && (index2 == index + 1 && index2 < children2.len() ==> *final(event)
                    == Event::initial())
                && (index2 == index + 1 && index2 >= children2.len() ==> *final(event) == (Event {
                    expired: true,
                    ..Event::initial()
                }))
                && (index >= children.len() ==> children2 == children && index2 == index && (r
                    is Ok) && *final(scheduler) == *old(scheduler))
                && (index >= children.len() && old(event).expired ==> *final(event) == (Event {
                    expired: true,
                    ..Event::initial()
                }))
                && (index >= children.len() && !old(event).expired ==> *final(event) == (Event {
                    expired: true,
                    ..*old(event)
                })))),
        decreases *old(self),
    {
        match self {
            TaskHandler::NoHandler => {
                event.expired = true;
                Ok(())
            },
            TaskHandler::Fn(f) => f.call(scheduler, event),
            TaskHandler::Task(t) => {
                let result: Result<(), HandlerError> = if !t.expired && t.event.should_run(now) {
                    t.dispatch(scheduler, now)
                } else {
                    Ok(())
                };
                if t.expired {
                    event.expired = true;
                }
                result
            },
            TaskHandler::Repeat(inner, count, limit) => {
                let c: usize = *count;
                let l: usize = *limit;
                if c < l {
                    let result = inner.run(scheduler, now, event);
                    *count = c + 1;
                    if c + 1 >= l {
                        event.expired = true;
                    }
                    result
                } else {
                    event.expired = true;
                    Ok(())
                }
            },
            TaskHandler::List(children, index) => {
                let i: usize = *index;
                let result: Result<(), HandlerError> = if i < children.len() {
                    children[i].run(scheduler, now, event)
                } else {
                    Ok(())
                };
                if event.expired {
                    if i < children.len() {
                        *index = i + 1;
                    }
                    *event = Event::new();
                }
                if *index >= children.len() {
                    event.expired = true;
                }
                result
            },
        }
    }
}

/// A boxed value convertible into a handler tree; `lifts_to` relates each
/// source to the trees its conversion may produce.
pub trait BoxedTaskHandlerSource: Sized {
    /// What shape of handler tree the source lifts to.
    spec fn lifts_to(&self, handler: TaskHandler) -> bool;

    /// Lift the value into a handler tree.
    fn into_handler(self) -> (r: TaskHandler)
        ensures
            self.lifts_to(r),
    ;
}

impl<T: TaskHandlerFn + 'static> BoxedTaskHandlerSource for Box<T> {
    /// A boxed callable lifts to a `Fn` leaf.
    open spec fn lifts_to(&self, handler: TaskHandler) -> bool {
        handler is Fn
    }

    fn into_handler(self) -> (r: TaskHandler)
        ensures
            self.lifts_to(r),
    {
        TaskHandler::Fn(self)
    }
}

impl<T: BoxedTaskHandlerSource> BoxedTaskHandlerSource for Vec<T> {
    /// A vector of sources lifts to a `List` of the lifted elements, in
    /// order, with the cursor at its start.
    open spec fn lifts_to(&self, handler: TaskHandler) -> bool {
        handler matches TaskHandler::List(children, index) && index == 0 && children@.len()
            == self@.len() && (forall|i: int|
            0 <= i < self@.len() ==> self@[i].lifts_to(#[trigger] children@[i]))
    }

    fn into_handler(self) -> (r: TaskHandler)
        ensures
            self.lifts_to(r),
    {
        let mut sources = self;
        let ghost orig = sources@;
        let mut children: Vec<TaskHandler> = Vec::new();
        proof {
            assert(orig.skip(0) =~= orig);
        }
        while sources.len() > 0
            invariant
                children@.len() + sources@.len() == orig.len(),
                sources@ == orig.skip(children@.len() as int),
                forall|i: int|
                    0 <= i < children@.len() ==> orig[i].lifts_to(#[trigger] children@[i]),
            decreases sources.len(),
        {
            let ghost before = sources@;
            let source = sources.remove(0);
            proof {
                assert(before.drop_first() =~= orig.skip(children@.len() as int + 1));
                assert(source == orig[children@.len() as int]);
            }
            children.push(source.into_handler());
        }
        TaskHandler::List(children, 0)
    }
}

impl<T: BoxedTaskHandlerSource + Clone, const SIZE: usize> BoxedTaskHandlerSource for [T; SIZE] {
    /// A fixed-size array of sources lifts to the same shape as its
    /// vector form: a `List` of as many children, with the cursor at its
    /// start. The elements pass through `clone`, of which nothing more is
    /// known for an arbitrary source type.
    open spec fn lifts_to(&self, handler: TaskHandler) -> bool {
        handler matches TaskHandler::List(children, index) && index == 0 && children@.len()
            == SIZE
    }

    fn into_handler(self) -> (r: TaskHandler)
        ensures
            self.lifts_to(r),
    {
        let mut sources: Vec<T> = Vec::new();
        let mut i: usize = 0;
        while i < SIZE
            invariant
                sources@.len() == i,
                0 <= i <= SIZE,
            decreases SIZE - i,
        {
            sources.push(self[i].clone());
            i += 1;
        }
        let mut children: Vec<TaskHandler> = Vec::new();
        while sources.len() > 0
            invariant
                children@.len() + sources@.len() == SIZE,
            decreases sources.len(),
        {
            let source = sources.remove(0);
            children.push(source.into_handler());
        }
        TaskHandler::List(children, 0)
    }
}

/// A value convertible into a handler tree; whatever can be boxed into a
/// handler source is one.
pub trait TaskHandlerSource: Sized {
    /// What shape of handler tree the source lifts to.
    spec fn lifts_to(&self, handler: TaskHandler) -> bool;

    /// Lift the value into a handler tree.
    fn into_handler(self) -> (r: TaskHandler)
        ensures
            self.lifts_to(r),
    ;
}

impl<T: TaskHandlerFn + 'static> TaskHandlerSource for T {
    /// A bare callable is boxed and lifts to a `Fn` leaf.
    open spec fn lifts_to(&self, handler: TaskHandler) -> bool {
        handler is Fn
    }

    fn into_handler(self) -> (r: TaskHandler)
        ensures
            self.lifts_to(r),
    {
        let boxed: Box<T> = Box::new(self);
        boxed.into_handler()
    }
}

} // verus!
