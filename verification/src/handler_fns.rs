use vstd::prelude::*;
use crate::errors::HandlerError;
use crate::event::Event;
use crate::scheduler::TaskScheduler;

verus! {

/// A callable unit of work for a time-triggered task. The task hands it
/// the scheduler queue, so it can enqueue structural changes, and its own
/// event, so it can reschedule, repeat or expire itself.
pub trait TaskHandlerFn {
    /// Do the work once; an error is routed to the task's catch handler.
    fn call(&mut self, scheduler: &mut TaskScheduler, event: &mut Event) -> Result<
        (),
        HandlerError,
    >;
}

/// A callable invoked with the error when one of a task's handlers fails.
pub trait TaskCatchFn {
    /// Handle the error of a failed handler.
    fn call(&mut self, scheduler: &mut TaskScheduler, event: &mut Event, error: &HandlerError);
}

/// A callable unit of work for an event subscription.
pub trait SubscriptionHandlerFn {
    /// Do the work once; an error is routed to the subscription's catch
    /// handler.
    fn call(&mut self, scheduler: &mut TaskScheduler) -> Result<(), HandlerError>;
}

/// A callable invoked with the error when a subscription's handler fails.
pub trait SubscriptionCatchFn {
    /// Handle the error of a failed handler.
    fn call(&mut self, scheduler: &mut TaskScheduler, error: &HandlerError);
}

} // verus!
