//! A minimal logging backend that routes severity-leveled log lines to
//! either the primary (standard output) or the error (standard error)
//! stream, based on the event's severity and one configuration flag.

pub mod registry;
pub mod router;
pub mod severity;
mod sink;

pub use registry::InitError;
pub use registry::Registry;
pub use registry::init_stderr_with_level;
pub use registry::init_with_level;
pub use router::RoutedLine;
pub use router::RouterConfig;
pub use router::Stream;
pub use router::StreamRouter;
pub use severity::Severity;
pub use severity::at_least_as_severe;
