//! Append-only cross-machine WIP sync for worktrunk: the decisions behind
//! `wt wip push`, `wt wip pull` and `wt wip get`, as verified step machines.

pub mod types;
pub mod text;
pub mod config;
pub mod util;
pub mod protocol;
pub mod pull;
pub mod push;
pub mod get;
pub mod laws;
pub mod runs;
