//! Browser-integration tasks for a client-side component model: a navigation
//! synchronization task that keeps application state consistent with the
//! browser's location and history, and a cancellable network request task
//! that bridges a one-shot transfer into the application's message queue.

pub mod fetch;
pub mod router;
pub mod sink;
pub mod task;
pub mod window;

pub use fetch::FetchRequest;
pub use fetch::FetchResponse;
pub use fetch::FetchService;
pub use fetch::FetchTask;
pub use router::RouteInfo;
pub use router::RouterTask;
pub use sink::MessageSink;
pub use task::CancellableTask;
pub use task::TaskError;
pub use window::HistoryEntry;
pub use window::Location;
pub use window::OpaqueState;
pub use window::Window;
pub use window::parse_location;
