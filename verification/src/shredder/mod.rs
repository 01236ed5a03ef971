//! Destructive deletion: policies, validation, the journal and root execution.

pub mod errors;
pub mod types;
pub mod root_execution;

pub use errors::ShredError;
pub mod logging;
pub mod cancel;
pub mod journal;
pub mod traits;
pub mod progress;
pub mod engine;

pub use traits::ProgressReporter;
pub use types::ShredResult;
pub mod policy;

pub use policy::PolicyFileShredder;
pub mod platform;
pub mod algorithms;
pub mod validation;
pub mod stream;
