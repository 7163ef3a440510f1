//! An in-process task scheduler's core: schedules that fire after a delay, at an interval,
//! daily at a wall-clock time or once at an instant; rules that turn a firing into a skip on
//! given dates, weekdays or times of day; the decisions that drive each kind of schedule;
//! and the reading of schedules from short text descriptors.

pub mod calendar;
pub mod driver;
pub mod parse;
pub mod prelude;
pub mod render;
pub mod scheduler;
pub mod skip;
pub mod task;
pub mod text;

pub use crate::calendar::{Date, DateTime, Time};
pub use crate::scheduler::Scheduler;
pub use crate::skip::Skip;
pub use crate::task::{Notice, OncePlan, Task};
