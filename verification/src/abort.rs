//! The flag that stops a running agent turn.
use std::sync::atomic::AtomicBool;
use std::sync::atomic::Ordering;
use std::sync::Arc;
use vstd::prelude::*;

verus! {

/// Shared between the agent loop and the command that stops it.
pub type AbortFlag = Arc<AtomicBool>;

/// A fresh flag, not yet raised.
pub fn new_abort_flag() -> (r: AbortFlag) {
    Arc::new(AtomicBool::new(false))
}

/// Whether the flag has been raised.
pub fn is_aborted(flag: &AbortFlag) -> (r: bool) {
    flag.load(Ordering::Relaxed)
}

/// Raises the flag.
pub fn raise_abort(flag: &AbortFlag) {
    flag.store(true, Ordering::Relaxed)
}

} // verus!
