pub use crate::calendar::{Date, DateTime, Time};
pub use crate::driver::{Action, Driver, Event, Phase};
pub use crate::scheduler::Scheduler;
pub use crate::skip::Skip;
pub use crate::task::{Notice, OncePlan, Task};
pub use tokio_util::sync::CancellationToken;
