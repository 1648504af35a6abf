use std::sync::atomic::{AtomicU64, Ordering};
use std::sync::Arc;
use vstd::prelude::*;

verus! {

/// The generation of the most recently requested preview, shared between
/// the UI, which writes it, and the worker, which reads it. Relaxed atomics
/// are enough: a stale read costs at most one wasted decode, whose result
/// the UI then drops by its generation.
pub struct CancelToken {
    value: Arc<AtomicU64>,
}

impl CancelToken {
    /// A token at generation zero.
    pub fn new() -> CancelToken {
        CancelToken { value: Arc::new(AtomicU64::new(0)) }
    }

    /// Another handle on the same token.
    pub fn share(&self) -> CancelToken {
        CancelToken { value: self.value.clone() }
    }

    /// Publishes `generation` as the live one.
    pub fn store(&self, generation: u64) {
        self.value.store(generation, Ordering::Relaxed)
    }

    /// The live generation as last published.
    pub fn load(&self) -> u64 {
        self.value.load(Ordering::Relaxed)
    }
}

} // verus!
