//! The worker runtime's concurrency policy.

use vstd::prelude::*;

verus! {

/// The bound that an optional limit stands for: none where there is no
/// limit, and none for a limit of zero.
pub open spec fn bound_of(limit: Option<usize>) -> Option<nat> {
    match limit {
        Some(n) if n > 0 => Some(n as nat),
        _ => None,
    }
}

/// How many handler invocations may run at once.
#[derive(Clone, Copy, Debug)]
pub enum Concurrency {
    /// Any number: the mailbox's capacity is the only throttle.
    Unbounded,
    /// At most this many. A bound of zero is no bound.
    Bounded(usize),
}

impl Concurrency {
    /// The bound as a number; `None` where there is none.
    pub open spec fn cap(self) -> Option<nat> {
        match self {
            Concurrency::Unbounded => None,
            Concurrency::Bounded(n) => if n == 0 {
                None
            } else {
                Some(n as nat)
            },
        }
    }

    /// Whether one more invocation may start while `running` are under way.
    pub open spec fn allows(self, running: nat) -> bool {
        match self.cap() {
            None => true,
            Some(n) => running < n,
        }
    }

    /// The policy for an optional limit: none, or a limit of zero, is
    /// unbounded.
    pub fn from_limit(limit: Option<usize>) -> (policy: Concurrency)
        ensures
            policy.cap() == bound_of(limit),
    {
        match limit {
            Some(n) => if n == 0 {
                Concurrency::Unbounded
            } else {
                Concurrency::Bounded(n)
            },
            None => Concurrency::Unbounded,
        }
    }

    /// The limit, if there is one.
    pub fn limit(&self) -> (limit: Option<usize>)
        ensures
            limit is Some <==> self.cap() is Some,
            limit is Some ==> limit.unwrap() as nat == self.cap().unwrap(),
    {
        match self {
            Concurrency::Unbounded => None,
            Concurrency::Bounded(n) => if *n == 0 {
                None
            } else {
                Some(*n)
            },
        }
    }

    /// Whether one more invocation may start while `running` are under way.
    pub fn has_free_slot(&self, running: usize) -> (free: bool)
        ensures
            free == self.allows(running as nat),
    {
        match self {
            Concurrency::Unbounded => true,
            Concurrency::Bounded(n) => *n == 0 || running < *n,
        }
    }
}

} // verus!
