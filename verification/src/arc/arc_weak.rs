//! The two reference counts behind an atomically reference-counted pointer
//! whose data can be taken out once no strong pointer remains.
//!
//! [`ArcData`] holds the counts; the pointers and the data are kept by the
//! caller. The counting protocol is that of [`crate::arc::arc_opt`].
use std::sync::atomic::AtomicUsize;
use vstd::prelude::*;

verus! {

/// The two reference counts: strong pointers, and strong plus weak
/// pointers.
pub struct ArcData {
    data_ref_count: AtomicUsize,
    alloc_ref_count: AtomicUsize,
}

impl ArcData {
    /// The counts of a new pointer: one strong pointer, counted in both.
    pub fn new() -> Self {
        ArcData { data_ref_count: AtomicUsize::new(1), alloc_ref_count: AtomicUsize::new(1) }
    }
}

} // verus!
