//! A background worker that runs until a stop flag is set.
use vstd::prelude::*;

verus! {

/// One unit of the worker's work, which does nothing.
pub fn some_work() {
}

} // verus!
