//! Event model and reporting channel for toolchain operations.
//!
//! Operations conclude by building an outcome value (such as a [`VerifyOutput`]),
//! wrap it in a [`Message`] and an [`Event`], and hand the event to a [`Reporter`].

pub mod event;
pub mod reporter;
pub mod toolchain;
pub mod verify_output;

pub use event::{Event, Message};
pub use reporter::{ReportError, Reporter, ReporterState, TestReporter};
pub use toolchain::{OwnedToolchainSpec, Version};
pub use verify_output::{CompatibilityReport, VerifyOutput};
