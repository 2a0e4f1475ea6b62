//! The two barriers that bracket every transfer.
//!
//! Writes that prepare a buffer must not drift past the point where the
//! engine is started, and accesses that follow a transfer must not drift
//! ahead of the point where its end was observed.

use std::sync::atomic::compiler_fence;
use std::sync::atomic::Ordering;
use vstd::prelude::*;

verus! {

/// `core::sync::atomic::compiler_fence` restricts how the compiler may reorder
/// memory accesses across the call and yields no value. Nothing is claimed of
/// it here. It panics when asked for `Relaxed` ordering, so that request is
/// excluded.
pub assume_specification[ core::sync::atomic::compiler_fence ](order: Ordering)
    requires
        !(order is Relaxed),
;

/// The barrier before the engine is started: earlier writes stay before it.
pub(crate) fn release() {
    compiler_fence(Ordering::Release);
}

/// The barrier after the end of a transfer was observed: later accesses stay
/// after it.
pub(crate) fn acquire() {
    compiler_fence(Ordering::Acquire);
}

} // verus!
