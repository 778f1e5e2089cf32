//! The stop signal shared by the driver and every worker.
use std::sync::atomic::{AtomicBool, Ordering};
use std::sync::Arc;
use vstd::prelude::*;

verus! {

/// A flag that starts lowered and is only ever raised. Every handle made by
/// `share` refers to the same flag.
pub struct StopSignal {
    flag: Arc<AtomicBool>,
}

impl StopSignal {
    /// A new, lowered flag.
    pub fn new() -> (r: StopSignal) {
        StopSignal { flag: Arc::new(AtomicBool::new(false)) }
    }

    /// Another handle on the same flag.
    pub fn share(&self) -> (r: StopSignal) {
        StopSignal { flag: Arc::clone(&self.flag) }
    }

    /// Raises the flag. Raising a raised flag leaves it raised.
    pub fn raise(&self) {
        self.flag.store(true, Ordering::Relaxed);
    }

    /// Reads the flag. Other threads may raise it at any moment, so nothing
    /// is known of the value read beyond what the flag's history allows.
    pub fn is_raised(&self) -> (r: bool) {
        self.flag.load(Ordering::Relaxed)
    }
}

/// The value of the flag after one raise, whatever it held before.
pub open spec fn raised(v: bool) -> bool {
    true
}

/// The value of the flag after `n` raises, starting from `initial`. Raising
/// is the one write made to the flag.
pub open spec fn after_raises(initial: bool, n: nat) -> bool
    decreases n,
{
    if n == 0 {
        initial
    } else {
        raised(after_raises(initial, (n - 1) as nat))
    }
}

/// Raising the flag any positive number of times has the effect of raising
/// it once.
pub proof fn raise_idempotent(initial: bool, n: nat)
    requires
        n >= 1,
    ensures
        after_raises(initial, n) == after_raises(initial, 1),
{
}

/// Once a reader has seen the flag raised, every later read sees it raised:
/// the flag never goes back to lowered.
pub proof fn raised_stays_raised(initial: bool, m: nat, n: nat)
    requires
        m <= n,
        after_raises(initial, m),
    ensures
        after_raises(initial, n),
    decreases n - m,
{
    if m < n {
        raised_stays_raised(initial, m, (n - 1) as nat);
    }
}

} // verus!
