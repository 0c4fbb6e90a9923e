//! The cancellation flag that a running search shares with whoever may stop
//! it.

use vstd::prelude::*;
use std::sync::atomic::AtomicBool;
use std::sync::atomic::Ordering;
use std::sync::Arc;

verus! {

/// A handle on a cancellation flag. Clones share one flag, so a search that
/// holds one clone can be told to stop through another, from any thread.
///
/// The flag can change at any moment, so no contract speaks of its value:
/// what is read from it is handed to the search as a plain `bool`.
#[derive(Clone)]
pub struct CancelToken {
    flag: Arc<AtomicBool>,
}

impl CancelToken {
    /// A fresh flag, not raised.
    pub fn new() -> (token: CancelToken) {
        CancelToken { flag: Arc::new(AtomicBool::new(false)) }
    }

    /// Lowers the flag. A search does this as it starts, so that an earlier
    /// cancellation does not stop it.
    pub fn reset(&self) {
        self.flag.store(false, Ordering::SeqCst);
    }

    /// Reads the flag.
    pub fn is_cancelled(&self) -> (raised: bool) {
        self.flag.load(Ordering::SeqCst)
    }
}

/// Raises the flag and returns at once, whether or not a search is running.
pub fn cancel(token: &CancelToken) {
    token.flag.store(true, Ordering::SeqCst);
}

} // verus!
