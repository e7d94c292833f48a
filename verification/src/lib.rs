//! Per-task execution core of a stream-processing engine: the operator chain
//! of `Runnable` stages that a task driver feeds elements into, and the
//! event-time window assignment stage that tags records and watermarks with
//! the windows their timestamps belong to.

pub mod assigner;
pub mod chain;
pub mod element;
pub mod runnable;
pub mod sink;
pub mod window;
pub mod window_assigner_runnable;

pub use crate::assigner::WindowAssigner;
pub use crate::assigner::WindowAssignerContext;
pub use crate::runnable::Lifecycle;
pub use crate::runnable::Runnable;
pub use crate::runnable::RunnableContext;
pub use crate::runnable::StartupError;
pub use crate::runnable::TeardownError;
pub use crate::sink::SinkRunnable;
pub use crate::window_assigner_runnable::WindowAssignerRunnable;

pub use crate::element::Barrier;
pub use crate::element::CheckpointId;
pub use crate::element::Element;
pub use crate::element::ElementModel;
pub use crate::element::OperatorId;
pub use crate::element::Record;
pub use crate::element::Watermark;
pub use crate::window::Window;
pub use crate::window::WindowModel;
