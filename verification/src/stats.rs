//! The shared stats registry: a counter of proxied requests, written once per
//! forwarded request and read by the status path.

use vstd::prelude::*;
use vstd::rwlock::RwLock;

verus! {

/// The shared stats registry: one instance, constructed at startup, shared by
/// every concurrent pipeline invocation. A writer excludes other writers and
/// readers for the duration of the counter update only; readers may proceed
/// simultaneously; `snapshot` hands back a copy, never a live reference.
pub struct StatsRegistry {
    lock: RwLock<Stats, spec_fn(Stats) -> bool>,
}

impl StatsRegistry {
    /// The lock admits every counter value: acquiring and releasing it never
    /// gets stuck on an invariant.
    #[verifier::type_invariant]
    spec fn wf(self) -> bool {
        forall|s: Stats| self.lock.inv(s)
    }

    /// A fresh registry with nothing proxied yet.
    pub fn new() -> (r: StatsRegistry) {
        StatsRegistry { lock: RwLock::new(Stats::new(), Ghost(|s: Stats| true)) }
    }

    /// Counts one more proxied request, under a short write-lock critical
    /// section around the update alone.
    pub fn increment_proxied(&self) {
        proof {
            use_type_invariant(self);
        }
        let (mut s, handle) = self.lock.acquire_write();
        s.increment();
        handle.release_write(s);
    }

    /// A point-in-time copy of the statistics, taken under a read-lock, so
    /// the caller renders it without holding any lock.
    pub fn snapshot(&self) -> (s: Stats) {
        proof {
            use_type_invariant(self);
        }
        let handle = self.lock.acquire_read();
        let s = *handle.borrow();
        handle.release_read();
        s
    }
}

/// A point-in-time snapshot of the proxy's statistics: the number of requests
/// proxied so far. The counter wraps around at the top of its range rather
/// than overflow.
#[derive(Clone, Copy, PartialEq, Eq, Structural, Debug)]
pub struct Stats {
    pub proxied: u64,
}

/// The successor of `p` in the counter's wrapping order.
pub open spec fn next_count(p: u64) -> u64 {
    if p == u64::MAX {
        0
    } else {
        (p + 1) as u64
    }
}

impl Stats {
    /// A fresh statistics value: nothing proxied yet.
    pub fn new() -> (s: Stats)
        ensures
            s.proxied == 0,
    {
        Stats { proxied: 0 }
    }

    /// Count one more proxied request.
    pub fn increment(&mut self)
        ensures
            final(self).proxied == next_count(old(self).proxied),
    {
        if self.proxied == u64::MAX {
            self.proxied = 0;
        } else {
            self.proxied = self.proxied + 1;
        }
    }
}

} // verus!
