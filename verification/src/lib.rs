mod errors;
mod event;
mod handler_fns;
mod laws;
mod scheduler;
mod subscription;
mod task;
mod task_handler;
mod task_like;
mod system;
mod task_unit;

pub use errors::HandlerError;
pub use event::{sat_add, Event};
pub use handler_fns::{SubscriptionCatchFn, SubscriptionHandlerFn, TaskCatchFn, TaskHandlerFn};
pub use laws::{lemma_pause_resume_advances_target, lemma_repeat_invokes_inner_exactly_limit, lemma_should_run_eligible, repeat_count_after};
pub use scheduler::{queued_view, QueuedUnit, RetainOtherNames, RetainRequest, RetainSubscriptions, TaskModificationRequest, TaskScheduler};
pub use subscription::{contains_name, EventSubscription};
pub use task::Task;
pub use task_handler::{BoxedTaskHandlerSource, TaskHandler, TaskHandlerSource};
pub use task_like::{DuplicateHandler, TaskLike, TaskRetainFilter, TaskType};
pub use system::{applied_add, applied_mod, applied_mods, dispatched_from, has_name, remaining_interval, retained_by, unexpired, without_name, TaskSystem, DEFAULT_INTERVAL};
pub use task_unit::{same_unit, IntoTaskUnit, TaskUnit};
