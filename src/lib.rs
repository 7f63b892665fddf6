//! Decides whether a task step may run in the current context: platform,
//! profile, environment variables and toolchain channel and version.

pub mod version;
pub mod environment;
pub mod types;
pub mod condition;
