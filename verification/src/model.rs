//! The bridge as a state machine over plain values: a bounded queue of
//! tickets, the commands that wait behind them, and the commands whose
//! handlers are running.

use crate::callback::DeliveryView;
use crate::wire::Queued;
use vstd::prelude::*;

verus! {

/// A command whose handler is running: what it takes to answer it.
#[derive(Debug)]
pub struct Flight<H> {
    pub callback_id: String,
    pub error_id: String,
    pub handle: H,
}

/// What stays of a queued command once its payload has gone to the handler.
pub open spec fn flight_of<C, H>(unit: Queued<C, H>) -> Flight<H> {
    Flight {
        callback_id: unit.command.callback_id,
        error_id: unit.command.error_id,
        handle: unit.handle,
    }
}

/// The answer to a command in flight whose handler finished with `result`.
pub open spec fn completion_of<H>(
    flight: Flight<H>,
    result: Result<Seq<char>, Seq<char>>,
) -> DeliveryView {
    DeliveryView { callback_id: flight.callback_id@, error_id: flight.error_id@, result }
}

/// The state of a bridge.
///
/// Tickets are handed out in the order in which commands are accepted,
/// starting at zero.
#[verifier::ext_equal]
pub struct State<C, H> {
    /// How many commands may wait at once.
    pub capacity: nat,
    /// How many handlers may run at once; `None` for any number.
    pub limit: Option<nat>,
    /// How many commands have been accepted so far.
    pub issued: nat,
    /// The tickets of the waiting commands, oldest first.
    pub queue: Seq<u64>,
    /// The waiting commands, by ticket.
    pub waiting: Map<u64, Queued<C, H>>,
    /// The commands whose handlers are running, by ticket.
    pub active: Map<u64, Flight<H>>,
}

impl<C, H> State<C, H> {
    /// A bridge that has seen no command.
    pub open spec fn initial(capacity: nat, limit: Option<nat>) -> Self {
        State {
            capacity,
            limit,
            issued: 0,
            queue: Seq::empty(),
            waiting: Map::empty(),
            active: Map::empty(),
        }
    }

    /// The ticket of the oldest waiting command, or the next ticket where
    /// none waits: every ticket below it has been handed to the worker.
    pub open spec fn front(self) -> int {
        self.issued - self.queue.len()
    }

    /// The waiting tickets are the latest ones issued, in order; each has
    /// its command; no running command waits; both bounds are kept.
    pub open spec fn inv(self) -> bool {
        &&& 1 <= self.capacity
        &&& self.queue.len() <= self.capacity
        &&& self.queue.len() <= self.issued <= u64::MAX
        &&& self.waiting.dom().finite()
        &&& self.active.dom().finite()
        &&& forall|i: int|
            0 <= i < self.queue.len() ==> #[trigger] self.queue[i] == self.front() + i
        &&& forall|t: u64| #[trigger]
            self.waiting.dom().contains(t) <==> self.front() <= t < self.issued
        &&& forall|t: u64| #[trigger] self.active.dom().contains(t) ==> t < self.front()
        &&& self.limit matches Some(n) ==> 1 <= n && self.active.len() <= n
    }

    /// Ticket `t` was handed to the worker: accepted, and no longer waiting.
    pub open spec fn passed(self, t: u64) -> bool {
        t < self.issued && !self.queue.contains(t)
    }

    /// Ticket `t` was answered: handed to the worker, and no longer running.
    pub open spec fn settled(self, t: u64) -> bool {
        self.passed(t) && !self.active.dom().contains(t)
    }

    /// Whether the next command finds room.
    pub open spec fn accepts(self) -> bool {
        self.queue.len() < self.capacity && self.issued < u64::MAX
    }

    /// The state after `unit` was accepted under the next ticket.
    pub open spec fn submit(self, unit: Queued<C, H>) -> Self {
        State {
            issued: self.issued + 1,
            queue: self.queue.push(self.issued as u64),
            waiting: self.waiting.insert(self.issued as u64, unit),
            ..self
        }
    }

    /// Whether the concurrency policy lets one more handler run.
    pub open spec fn has_free_slot(self) -> bool {
        match self.limit {
            None => true,
            Some(n) => self.active.len() < n,
        }
    }

    /// Whether a waiting command can be handed to the worker now.
    pub open spec fn can_start(self) -> bool {
        self.queue.len() > 0 && self.has_free_slot()
    }

    /// The state after the oldest waiting command went to the worker.
    pub open spec fn start(self) -> Self {
        let t = self.queue[0];
        State {
            queue: self.queue.drop_first(),
            waiting: self.waiting.remove(t),
            active: self.active.insert(t, flight_of(self.waiting[t])),
            ..self
        }
    }

    /// The state after the handler of `t` finished and was answered.
    pub open spec fn finish(self, t: u64) -> Self {
        State { active: self.active.remove(t), ..self }
    }

    /// In a well-formed state the waiting tickets are exactly the latest
    /// ones issued, so the tickets handed to the worker are exactly the
    /// ones below the front.
    pub proof fn lemma_queue_holds_latest(self, t: u64)
        requires
            self.inv(),
        ensures
            self.queue.contains(t) <==> self.front() <= t < self.issued,
            self.passed(t) <==> t < self.front(),
    {
        if self.front() <= t < self.issued {
            assert(self.queue[t - self.front()] == t);
        }
        if self.queue.contains(t) {
            let i = choose|i: int| 0 <= i < self.queue.len() && self.queue[i] == t;
            assert(self.queue[i] == self.front() + i);
        }
    }

    /// A fresh bridge is well formed.
    pub proof fn lemma_initial_inv(capacity: nat, limit: Option<nat>)
        requires
            1 <= capacity,
            limit matches Some(n) ==> 1 <= n,
        ensures
            Self::initial(capacity, limit).inv(),
    {
    }

    /// Accepting a command keeps the state well formed.
    pub proof fn lemma_submit_inv(self, unit: Queued<C, H>)
        requires
            self.inv(),
            self.accepts(),
        ensures
            self.submit(unit).inv(),
            self.submit(unit).front() == self.front(),
    {
    }

    /// Handing a command to the worker keeps the state well formed.
    pub proof fn lemma_start_inv(self)
        requires
            self.inv(),
            self.can_start(),
        ensures
            self.start().inv(),
            self.start().front() == self.front() + 1,
            self.queue[0] == self.front(),
            self.waiting.dom().contains(self.queue[0]),
            !self.active.dom().contains(self.queue[0]),
            self.start().active.len() == self.active.len() + 1,
    {
    }

    /// Answering a command keeps the state well formed.
    pub proof fn lemma_finish_inv(self, t: u64)
        requires
            self.inv(),
        ensures
            self.finish(t).inv(),
            self.active.dom().contains(t) ==> self.finish(t).active.len() + 1
                == self.active.len(),
            !self.active.dom().contains(t) ==> self.finish(t) == self,
    {
        if !self.active.dom().contains(t) {
            assert(self.active.remove(t) =~= self.active);
        }
    }
}

} // verus!
