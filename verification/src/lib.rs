//! Decision logic of the Niro desktop assistant: command screening, message
//! routing, tool planning, script construction and settings handling.
use vstd::prelude::*;

pub mod abort;
pub mod agent;
pub mod browser;
pub mod email;
pub mod guard;
pub mod intercept;
pub mod lines;
pub mod pattern;
pub mod session;
pub mod skills;
pub mod store;
pub mod text;
pub mod tools;

verus! {
} // verus!
