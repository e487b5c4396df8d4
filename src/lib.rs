//! Invocation of a bundled command-line tool: the launch plan, the mapping
//! of the child's outcome to a reply, and the error messages, all verified.
//! The host-specific steps (locating the bundled resource, spawning the
//! process) are performed by the caller, which hands the results back here.

pub mod invoke;
pub mod laws;
pub mod location;
pub mod text;
