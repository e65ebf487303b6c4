//! A development-loop supervisor's core: which file changes matter, when a
//! burst of changes has settled, and how the one managed process is restarted.

pub mod constants;
pub mod text;
pub mod types;
pub mod processor;
pub mod debounce;
pub mod supervisor;
pub mod bridge;
