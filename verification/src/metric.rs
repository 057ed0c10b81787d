//! User-defined metrics: a name and an integer shared with client code.

use std::sync::atomic::AtomicI64;
use std::sync::atomic::Ordering;
use std::sync::Arc;
use vstd::prelude::*;

verus! {

/// One registered metric: its normalized name and the shared integer that
/// client code updates.
pub struct Metric {
    pub name: String,
    pub handle: Arc<AtomicI64>,
}

/// `Arc::clone`: a second reference to the same shared integer.
#[verifier::external_body]
pub(crate) fn share(handle: &Arc<AtomicI64>) -> (r: Arc<AtomicI64>)
    ensures
        r == *handle,
{
    Arc::clone(handle)
}

/// A fresh shared integer, which starts at zero.
pub fn new_handle() -> Arc<AtomicI64> {
    Arc::new(AtomicI64::new(0))
}

/// The integer that the handle holds at this moment. The read is atomic and
/// relaxed: beside a concurrent update it gives the value before or after
/// it, never a mix of the two.
pub fn current_value(handle: &Arc<AtomicI64>) -> i64 {
    handle.load(Ordering::Relaxed)
}

} // verus!
