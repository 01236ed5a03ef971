//! Execution of deletion roots: the request and result model, the planner
//! and executor, and the platform rules of the tree adapters.

pub mod types;
pub mod plan;
pub mod unix;
pub mod windows;
