//! The bridge itself: the entry point's and the worker runtime's decisions,
//! made on a bounded channel of tickets and two tables of commands.

use crate::callback::{rejection_of, result_text, Delivery};
use crate::mailbox::Mailbox;
use crate::model::{completion_of, flight_of, Flight, State};
use crate::wire::{decode, decodes_to, DecodeError, Queued, WireCommand};
use crate::worker::{bound_of, Concurrency};
use std::collections::HashMap;
use vstd::prelude::*;

verus! {

/// How many commands a bridge lets wait unless told otherwise.
pub const DEFAULT_CAPACITY: usize = 11;

/// A command handed to the worker: the payload to run the handler on, and
/// the ticket under which to report how it ended.
#[derive(Debug)]
pub struct Job<C> {
    pub ticket: u64,
    pub payload: C,
}

/// An answer that is due: the delivery, and the handle to post it through.
#[derive(Debug)]
pub struct Completion<H> {
    pub handle: H,
    pub delivery: Delivery,
}

/// What became of a submitted command.
#[derive(Debug)]
pub enum Submission<H> {
    /// It waits in the mailbox under this ticket.
    Enqueued { ticket: u64 },
    /// The mailbox had no room: this failure answers it at once.
    Rejected { answer: Completion<H> },
}

/// The queued unit made of a command and its handle.
pub open spec fn unit_of<C, H>(command: WireCommand<C>, handle: H) -> Queued<C, H> {
    Queued { command, handle }
}

impl<H> Submission<H> {
    /// This is the acceptance under ticket `ticket`.
    pub open spec fn is_enqueued_as(self, ticket: nat) -> bool {
        self matches Submission::Enqueued { ticket: t } && t == ticket
    }

    /// This is the rejection that answers, through `handle`, the command
    /// routed by `callback_id` and `error_id`.
    pub open spec fn is_rejection_of(
        self,
        handle: H,
        callback_id: Seq<char>,
        error_id: Seq<char>,
    ) -> bool {
        &&& self matches Submission::Rejected { answer }
        &&& answer.handle == handle
        &&& answer.delivery@ == rejection_of(callback_id, error_id)
    }
}

/// `outcome` and `after` are what submitting `unit` in state `before` gives:
/// the unit is appended under the next ticket where there is room, and the
/// state is untouched and a failure is due where there is none.
pub open spec fn submission_of<C, H>(
    before: State<C, H>,
    unit: Queued<C, H>,
    after: State<C, H>,
    outcome: Submission<H>,
) -> bool {
    if before.accepts() {
        after == before.submit(unit) && outcome.is_enqueued_as(before.issued)
    } else {
        after == before && outcome.is_rejection_of(
            unit.handle,
            unit.command.callback_id@,
            unit.command.error_id@,
        )
    }
}

/// `outcome` and `after` are what the hook gives for `decoded` in state
/// `before`: a decode error goes back as it came and leaves the state
/// untouched; a command is submitted.
pub open spec fn dispatch_of<C, H>(
    before: State<C, H>,
    decoded: Result<WireCommand<C>, DecodeError>,
    handle: H,
    after: State<C, H>,
    outcome: Result<Submission<H>, DecodeError>,
) -> bool {
    match decoded {
        Err(e) => after == before && outcome == Err::<Submission<H>, DecodeError>(e),
        Ok(command) => {
            &&& outcome matches Ok(submission)
            &&& submission_of(before, unit_of(command, handle), after, submission)
        },
    }
}

/// `job` and `after` are what asking state `before` for the next command
/// gives: the oldest waiting one where the policy has a free slot, none and
/// an untouched state otherwise.
pub open spec fn start_of<C, H>(before: State<C, H>, after: State<C, H>, job: Option<Job<C>>) -> bool {
    if before.can_start() {
        &&& after == before.start()
        &&& job matches Some(j)
        &&& j.ticket == before.queue[0]
        &&& j.payload == before.waiting[before.queue[0]].command.payload
    } else {
        after == before && job is None
    }
}

/// `done` is the answer due when the handler of `ticket` ends with `result`
/// in state `before`: one delivery routed by the command's own names where
/// the ticket is running, none where it is not.
pub open spec fn completion_in<C, H>(
    before: State<C, H>,
    ticket: u64,
    result: Result<Seq<char>, Seq<char>>,
    done: Option<Completion<H>>,
) -> bool {
    if before.active.dom().contains(ticket) {
        &&& done matches Some(answer)
        &&& answer.handle == before.active[ticket].handle
        &&& answer.delivery@ == completion_of(before.active[ticket], result)
    } else {
        done is None
    }
}

/// The bridge between the UI thread's command hook and the handlers.
///
/// `C` is the application's command type and `H` the handle that posts work
/// to the UI thread. The hook calls [`Bridge::dispatch`] (or
/// [`Bridge::invoke`]) for each inbound command; the worker task calls
/// [`Bridge::start_next`] whenever a command may have become ready and
/// [`Bridge::finish`] when a handler ends. No call blocks or waits. A bridge
/// has one owner at a time: the hook and the worker share it behind a lock.
pub struct Bridge<C, H> {
    mailbox: Mailbox,
    waiting: HashMap<u64, Queued<C, H>>,
    active: HashMap<u64, Flight<H>>,
    policy: Concurrency,
    capacity: usize,
    issued: u64,
    front: u64,
}

impl<C, H> View for Bridge<C, H> {
    type V = State<C, H>;

    closed spec fn view(&self) -> State<C, H> {
        State {
            capacity: self.mailbox.capacity(),
            limit: self.policy.cap(),
            issued: self.issued as nat,
            queue: self.mailbox@,
            waiting: self.waiting@,
            active: self.active@,
        }
    }
}

impl<C, H> Bridge<C, H> {
    /// The parts of the bridge agree with each other.
    pub closed spec fn coherent(&self) -> bool {
        &&& self.mailbox.wf()
        &&& self.capacity == self.mailbox.capacity()
        &&& self.front == self@.front()
    }

    /// The bridge is usable: its parts agree and its state is well formed.
    pub open spec fn wf(&self) -> bool {
        self.coherent() && self@.inv()
    }

    /// A bridge with the default capacity and the given concurrency limit;
    /// no limit, or a limit of zero, lets any number of handlers run.
    pub fn new(limit: Option<usize>) -> (bridge: Self)
        ensures
            bridge.wf(),
            bridge@ == State::<C, H>::initial(DEFAULT_CAPACITY as nat, bound_of(limit)),
    {
        Self::with_capacity(DEFAULT_CAPACITY, limit)
    }

    /// A bridge whose mailbox holds up to `capacity` commands.
    pub fn with_capacity(capacity: usize, limit: Option<usize>) -> (bridge: Self)
        requires
            1 <= capacity <= usize::MAX / 4,
        ensures
            bridge.wf(),
            bridge@ == State::<C, H>::initial(capacity as nat, bound_of(limit)),
    {
        let bridge = Bridge {
            mailbox: Mailbox::new(capacity),
            waiting: HashMap::new(),
            active: HashMap::new(),
            policy: Concurrency::from_limit(limit),
            capacity,
            issued: 0,
            front: 0,
        };
        assert(bridge@ =~= State::<C, H>::initial(capacity as nat, bound_of(limit)));
        bridge
    }

    /// Submits a decoded command: it is enqueued, or answered at once with a
    /// failure where the mailbox is full.
    pub fn submit(&mut self, command: WireCommand<C>, handle: H) -> (outcome: Submission<H>)
        requires
            old(self).wf(),
        ensures
            final(self).wf(),
            submission_of(old(self)@, unit_of(command, handle), final(self)@, outcome),
    {
        let ticket: u64 = self.issued;
        if ticket < u64::MAX && self.mailbox.offer(ticket) {
            self.waiting.insert(ticket, Queued { command, handle });
            self.issued = ticket + 1;
            assert(final(self)@ =~= old(self)@.submit(unit_of(command, handle)));
            proof {
                old(self)@.lemma_submit_inv(unit_of(command, handle));
            }
            Submission::Enqueued { ticket }
        } else {
            assert(final(self)@ =~= old(self)@);
            let WireCommand { payload: _, callback_id, error_id } = command;
            Submission::Rejected {
                answer: Completion { handle, delivery: Delivery::rejected(callback_id, error_id) },
            }
        }
    }

    /// The command-invocation hook after decoding: a decode error goes back
    /// to the caller and nothing else happens; a command is submitted.
    pub fn dispatch(&mut self, decoded: Result<WireCommand<C>, DecodeError>, handle: H) -> (outcome:
        Result<Submission<H>, DecodeError>)
        requires
            old(self).wf(),
        ensures
            final(self).wf(),
            dispatch_of(old(self)@, decoded, handle, final(self)@, outcome),
    {
        match decoded {
            Ok(command) => Ok(self.submit(command, handle)),
            Err(e) => Err(e),
        }
    }

    /// Hands the oldest waiting command to the worker, if the concurrency
    /// policy has a free slot for it.
    pub fn start_next(&mut self) -> (job: Option<Job<C>>)
        requires
            old(self).wf(),
        ensures
            final(self).wf(),
            start_of(old(self)@, final(self)@, job),
    {
        if !self.policy.has_free_slot(self.active.len()) {
            return None;
        }
        match self.mailbox.take() {
            None => None,
            Some(ticket) => {
                proof {
                    old(self)@.lemma_start_inv();
                }
                match self.waiting.remove(&ticket) {
                    Some(unit) => {
                        let Queued { command, handle } = unit;
                        let WireCommand { payload, callback_id, error_id } = command;
                        self.active.insert(ticket, Flight { callback_id, error_id, handle });
                        self.front = self.front + 1;
                        assert(final(self)@ =~= old(self)@.start());
                        Some(Job { ticket, payload })
                    },
                    None => {
                        proof {
                            assert(false);
                        }
                        None
                    },
                }
            },
        }
    }

    /// Reports that the handler of `ticket` ended with `outcome`, and gives
    /// back the one answer that is due for it. A ticket that is not running
    /// is due no answer.
    pub fn finish(&mut self, ticket: u64, outcome: Result<String, String>) -> (done: Option<
        Completion<H>,
    >)
        requires
            old(self).wf(),
        ensures
            final(self).wf(),
            final(self)@ == old(self)@.finish(ticket),
            completion_in(old(self)@, ticket, result_text(outcome), done),
    {
        proof {
            old(self)@.lemma_finish_inv(ticket);
        }
        match self.active.remove(&ticket) {
            Some(flight) => {
                let Flight { callback_id, error_id, handle } = flight;
                assert(final(self)@ =~= old(self)@.finish(ticket));
                Some(Completion { handle, delivery: Delivery::new(callback_id, error_id, outcome) })
            },
            None => {
                assert(final(self)@ =~= old(self)@.finish(ticket));
                None
            },
        }
    }

    /// How many commands wait in the mailbox.
    pub fn queued(&self) -> (n: usize)
        requires
            self.wf(),
        ensures
            n == self@.queue.len(),
    {
        (self.issued - self.front) as usize
    }

    /// How many handlers are running.
    pub fn running(&self) -> (n: usize)
        requires
            self.wf(),
        ensures
            n == self@.active.len(),
    {
        self.active.len()
    }

    /// How many commands may wait at once.
    pub fn capacity(&self) -> (n: usize)
        requires
            self.wf(),
        ensures
            n == self@.capacity,
    {
        self.capacity
    }

    /// The concurrency policy.
    pub fn policy(&self) -> (policy: Concurrency)
        requires
            self.wf(),
        ensures
            policy.cap() == self@.limit,
    {
        self.policy
    }

    /// How many commands were accepted so far.
    pub fn accepted(&self) -> (n: u64)
        requires
            self.wf(),
        ensures
            n == self@.issued,
    {
        self.issued
    }
}

impl<H> Bridge<serde_json::Value, H> {
    /// The command-invocation hook for commands that stay JSON documents:
    /// decodes `text` and submits the command. A text that does not decode
    /// gives its decode error and touches nothing.
    pub fn invoke(&mut self, text: &str, handle: H) -> (outcome: Result<Submission<H>, DecodeError>)
        requires
            old(self).wf(),
        ensures
            final(self).wf(),
            exists|decoded: Result<WireCommand<serde_json::Value>, DecodeError>| #[trigger]
                decodes_to(text@, decoded) && dispatch_of(
                    old(self)@,
                    decoded,
                    handle,
                    final(self)@,
                    outcome,
                ),
    {
        let decoded = decode(text);
        let outcome = self.dispatch(decoded, handle);
        assert(decodes_to(text@, decoded) && dispatch_of(
            old(self)@,
            decoded,
            handle,
            final(self)@,
            outcome,
        ));
        outcome
    }
}

} // verus!
