//! A non-blocking bridge between a task running on a tokio runtime and a
//! synchronous caller that polls it, with an ordered log of progress reports.
pub mod immediatevalueprogress;
pub mod progress;
pub mod promise;
pub mod state;

pub use immediatevalueprogress::{ProgressTrackedImValProm, Status, StringStatus};
pub use progress::Progress;
pub use promise::ImmediateValuePromise;
pub use state::{BoxedSendError, DirectCacheAccess, ImmediateValueState};
