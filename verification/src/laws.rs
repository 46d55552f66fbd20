//! What holds of the bridge over whole runs: every accepted command is
//! answered exactly once, commands reach the worker in the order in which
//! they were accepted, a full mailbox turns commands away, and the
//! concurrency policy is kept.

use crate::bridge::{completion_in, dispatch_of, start_of, submission_of, Completion, Job, Submission};
use crate::callback::{rejection_of, DeliveryView};
use crate::model::{completion_of, State};
use crate::wire::{decodes_to, DecodeError, Queued, WireCommand};
use vstd::prelude::*;

verus! {

/// One thing that happens to a bridge.
pub enum Event<C, H> {
    /// A decoded command is submitted.
    Submit(Queued<C, H>),
    /// The worker asks for the next command.
    Start,
    /// The handler of a ticket ends with a result.
    Finish(u64, Result<Seq<char>, Seq<char>>),
}

/// A delivery to the UI, with the ticket of the command that it answers;
/// a command turned away at the mailbox never had a ticket.
pub struct Answer {
    pub ticket: Option<u64>,
    pub delivery: DeliveryView,
}

/// The state after `event`, and the answer that `event` makes due, if any.
pub open spec fn step<C, H>(s: State<C, H>, event: Event<C, H>) -> (State<C, H>, Option<Answer>) {
    match event {
        Event::Submit(unit) => if s.accepts() {
            (s.submit(unit), None)
        } else {
            (
                s,
                Some(
                    Answer {
                        ticket: None,
                        delivery: rejection_of(unit.command.callback_id@, unit.command.error_id@),
                    },
                ),
            )
        },
        Event::Start => if s.can_start() {
            (s.start(), None)
        } else {
            (s, None)
        },
        Event::Finish(t, result) => if s.active.dom().contains(t) {
            (
                s.finish(t),
                Some(Answer { ticket: Some(t), delivery: completion_of(s.active[t], result) }),
            )
        } else {
            (s, None)
        },
    }
}

/// The state after all of `events`, in order, and the answers that became
/// due on the way, in order.
pub open spec fn run<C, H>(s: State<C, H>, events: Seq<Event<C, H>>) -> (State<C, H>, Seq<Answer>)
    decreases events.len(),
{
    if events.len() == 0 {
        (s, Seq::empty())
    } else {
        let (mid, log) = run(s, events.drop_last());
        let (next, answer) = step(mid, events.last());
        (
            next,
            match answer {
                Some(a) => log.push(a),
                None => log,
            },
        )
    }
}

/// How many answers in `log` are for ticket `t`.
pub open spec fn answers_to(log: Seq<Answer>, t: u64) -> nat
    decreases log.len(),
{
    if log.len() == 0 {
        0
    } else {
        answers_to(log.drop_last(), t) + if log.last().ticket == Some(t) {
            1nat
        } else {
            0nat
        }
    }
}

/// Every settled ticket has one answer in `log`, every other ticket none.
pub open spec fn accounted<C, H>(s: State<C, H>, log: Seq<Answer>) -> bool {
    forall|t: u64| #[trigger]
        answers_to(log, t) == if s.settled(t) {
            1nat
        } else {
            0nat
        }
}

/// The events that submit `units` one after the other.
pub open spec fn submissions<C, H>(units: Seq<Queued<C, H>>) -> Seq<Event<C, H>> {
    Seq::new(units.len(), |i: int| Event::Submit(units[i]))
}

proof fn lemma_answers_push(log: Seq<Answer>, a: Answer, t: u64)
    ensures
        answers_to(log.push(a), t) == answers_to(log, t) + if a.ticket == Some(t) {
            1nat
        } else {
            0nat
        },
{
    assert(log.push(a).drop_last() =~= log);
}

/// One event keeps the state well formed and the answers accounted for.
proof fn lemma_step_accounted<C, H>(s: State<C, H>, log: Seq<Answer>, event: Event<C, H>)
    requires
        s.inv(),
        accounted(s, log),
    ensures
        step(s, event).0.inv(),
        step(s, event).0.capacity == s.capacity,
        step(s, event).0.limit == s.limit,
        accounted(
            step(s, event).0,
            match step(s, event).1 {
                Some(a) => log.push(a),
                None => log,
            },
        ),
{
    let (next, answer) = step(s, event);
    let after = match answer {
        Some(a) => log.push(a),
        None => log,
    };
    match event {
        Event::Submit(unit) => {
            if s.accepts() {
                s.lemma_submit_inv(unit);
            }
        },
        Event::Start => {
            if s.can_start() {
                s.lemma_start_inv();
            }
        },
        Event::Finish(t, result) => {
            s.lemma_finish_inv(t);
        },
    }
    assert forall|t: u64| #[trigger]
        answers_to(after, t) == if next.settled(t) {
            1nat
        } else {
            0nat
        } by {
        assert(answers_to(log, t) == if s.settled(t) {
            1nat
        } else {
            0nat
        });
        s.lemma_queue_holds_latest(t);
        next.lemma_queue_holds_latest(t);
        match answer {
            Some(a) => {
                lemma_answers_push(log, a, t);
            },
            None => {},
        }
    }
}

/// A run from a well-formed state in which the answers so far are accounted
/// for ends in such a state.
proof fn lemma_run_accounted<C, H>(s: State<C, H>, events: Seq<Event<C, H>>)
    requires
        s.inv(),
        forall|t: u64| !s.settled(t),
    ensures
        run(s, events).0.inv(),
        run(s, events).0.capacity == s.capacity,
        run(s, events).0.limit == s.limit,
        accounted(run(s, events).0, run(s, events).1),
    decreases events.len(),
{
    if events.len() == 0 {
    } else {
        lemma_run_accounted(s, events.drop_last());
        let (mid, log) = run(s, events.drop_last());
        lemma_step_accounted(mid, log, events.last());
    }
}

/// Every state that a bridge reaches is well formed.
pub proof fn law_runs_stay_well_formed<C, H>(
    capacity: nat,
    limit: Option<nat>,
    events: Seq<Event<C, H>>,
)
    requires
        1 <= capacity,
        limit matches Some(n) ==> 1 <= n,
    ensures
        run(State::<C, H>::initial(capacity, limit), events).0.inv(),
        run(State::<C, H>::initial(capacity, limit), events).0.capacity == capacity,
        run(State::<C, H>::initial(capacity, limit), events).0.limit == limit,
{
    lemma_run_accounted(State::<C, H>::initial(capacity, limit), events);
}

/// Exactly-once answers: whatever happens to a bridge, a ticket never has
/// more than one answer, and it has one exactly when its command was handed
/// to the worker and its handler has ended, with a success or a failure.
pub proof fn law_answered_exactly_once<C, H>(
    capacity: nat,
    limit: Option<nat>,
    events: Seq<Event<C, H>>,
    t: u64,
)
    requires
        1 <= capacity,
        limit matches Some(n) ==> 1 <= n,
    ensures
        answers_to(run(State::<C, H>::initial(capacity, limit), events).1, t) <= 1,
        answers_to(run(State::<C, H>::initial(capacity, limit), events).1, t) == 1 <==> run(
            State::<C, H>::initial(capacity, limit),
            events,
        ).0.settled(t),
{
    let start = State::<C, H>::initial(capacity, limit);
    lemma_run_accounted(start, events);
    let (s, log) = run(start, events);
    assert(answers_to(log, t) == if s.settled(t) {
        1nat
    } else {
        0nat
    });
}

/// Where a ticket stands in the life of its command.
pub enum Stage {
    /// No command has been accepted under it yet.
    Unissued,
    /// Its command waits in the mailbox.
    Enqueued,
    /// Its command's handler is running.
    Handling,
    /// Its command was answered.
    Answered,
}

/// The stage of ticket `t` in state `s`.
pub open spec fn stage_of<C, H>(s: State<C, H>, t: u64) -> Stage {
    if t >= s.issued {
        Stage::Unissued
    } else if !s.passed(t) {
        Stage::Enqueued
    } else if s.active.dom().contains(t) {
        Stage::Handling
    } else {
        Stage::Answered
    }
}

/// `after` is `before` or the stage that comes next in a command's life.
pub open spec fn follows(before: Stage, after: Stage) -> bool {
    match before {
        Stage::Unissued => after is Unissued || after is Enqueued,
        Stage::Enqueued => after is Enqueued || after is Handling,
        Stage::Handling => after is Handling || after is Answered,
        Stage::Answered => after is Answered,
    }
}

/// A command's life runs one way: enqueued, handed to its handler, answered.
/// No event moves a ticket back or past a stage, an answered ticket stays
/// answered, and an answer for a ticket is due at the very event that ends
/// its handling, and at no other.
pub proof fn law_lifecycle<C, H>(s: State<C, H>, event: Event<C, H>, t: u64)
    requires
        s.inv(),
    ensures
        follows(stage_of(s, t), stage_of(step(s, event).0, t)),
        (step(s, event).1 matches Some(answer) && answer.ticket == Some(t)) <==> (stage_of(s, t)
            is Handling && stage_of(step(s, event).0, t) is Answered),
{
    match event {
        Event::Submit(unit) => {
            if s.accepts() {
                s.lemma_submit_inv(unit);
            }
        },
        Event::Start => {
            if s.can_start() {
                s.lemma_start_inv();
            }
        },
        Event::Finish(finished, result) => {
            s.lemma_finish_inv(finished);
        },
    }
    s.lemma_queue_holds_latest(t);
    step(s, event).0.lemma_queue_holds_latest(t);
}

/// A command that finds no room is answered at once, by one failure routed
/// by its own names, and leaves no trace in the bridge: nothing can answer
/// it a second time.
pub proof fn law_rejection_answers_once<C, H>(s: State<C, H>, unit: Queued<C, H>)
    requires
        s.inv(),
        !s.accepts(),
    ensures
        step(s, Event::Submit(unit)).0 == s,
        step(s, Event::Submit(unit)).1 matches Some(answer) && answer.ticket is None
            && answer.delivery.fires() == unit.command.error_id@ && answer.delivery
            == rejection_of(unit.command.callback_id@, unit.command.error_id@),
{
}

/// The handler's end is answered through the continuation that its result
/// picks: a success through the callback name with the encoded value, a
/// failure through the error name with its message; a second report for the
/// same ticket is answered by nothing.
pub proof fn law_finish_answers_once<C, H>(
    s: State<C, H>,
    t: u64,
    first: Result<Seq<char>, Seq<char>>,
    second: Result<Seq<char>, Seq<char>>,
)
    requires
        s.inv(),
        s.active.dom().contains(t),
    ensures
        step(s, Event::Finish(t, first)).1 matches Some(answer) && answer.ticket == Some(t)
            && answer.delivery.argument() == (match first {
            Ok(body) => body,
            Err(message) => message,
        }) && answer.delivery.fires() == (if first is Ok {
            s.active[t].callback_id@
        } else {
            s.active[t].error_id@
        }),
        step(step(s, Event::Finish(t, first)).0, Event::Finish(t, second)).1 is None,
{
}

/// Tickets follow the order of acceptance: an accepted command gets the next
/// ticket, which is above every ticket given before it, and joins the queue
/// behind all that wait.
pub proof fn law_tickets_follow_acceptance<C, H>(s: State<C, H>, unit: Queued<C, H>)
    requires
        s.inv(),
        s.accepts(),
    ensures
        s.submit(unit).issued == s.issued + 1,
        s.submit(unit).queue == s.queue.push(s.issued as u64),
        s.submit(unit).waiting[s.issued as u64] == unit,
        forall|t: u64| s.queue.contains(t) || s.passed(t) ==> t < s.issued,
{
    assert forall|t: u64| s.queue.contains(t) || s.passed(t) implies t < s.issued by {
        if s.queue.contains(t) {
            let i = choose|i: int| 0 <= i < s.queue.len() && s.queue[i] == t;
            assert(s.queue[i] == s.front() + i);
        }
    }
}

/// The worker is handed the oldest waiting command: its ticket is below
/// that of every other waiting command, and it is the only ticket that the
/// hand-over moves.
pub proof fn law_start_takes_the_oldest<C, H>(s: State<C, H>)
    requires
        s.inv(),
        s.can_start(),
    ensures
        forall|i: int| 0 < i < s.queue.len() ==> s.queue[0] < #[trigger] s.queue[i],
        !s.passed(s.queue[0]),
        forall|t: u64| #[trigger] s.start().passed(t) <==> s.passed(t) || t == s.queue[0],
        s.start().active[s.queue[0]] == crate::model::flight_of(s.waiting[s.queue[0]]),
{
    s.lemma_start_inv();
    assert forall|t: u64| #[trigger] s.start().passed(t) <==> s.passed(t) || t == s.queue[0] by {
        s.lemma_queue_holds_latest(t);
        s.start().lemma_queue_holds_latest(t);
    }
    s.lemma_queue_holds_latest(s.queue[0]);
}

/// First in, first out: whatever happens to a bridge, of two accepted
/// commands the one accepted first is handed to the worker no later than
/// the other.
pub proof fn law_first_in_first_out<C, H>(
    capacity: nat,
    limit: Option<nat>,
    events: Seq<Event<C, H>>,
    a: u64,
    b: u64,
)
    requires
        1 <= capacity,
        limit matches Some(n) ==> 1 <= n,
        a < b,
    ensures
        run(State::<C, H>::initial(capacity, limit), events).0.passed(b) ==> run(
            State::<C, H>::initial(capacity, limit),
            events,
        ).0.passed(a),
{
    law_runs_stay_well_formed(capacity, limit, events);
    let s = run(State::<C, H>::initial(capacity, limit), events).0;
    s.lemma_queue_holds_latest(a);
    s.lemma_queue_holds_latest(b);
}

/// Back-pressure, one step: a full mailbox turns the next command away and
/// stays as it is.
pub proof fn law_full_mailbox_rejects<C, H>(s: State<C, H>, unit: Queued<C, H>)
    requires
        s.inv(),
        s.queue.len() == s.capacity,
    ensures
        !s.accepts(),
        step(s, Event::Submit(unit)).0 == s,
        step(s, Event::Submit(unit)).1 is Some,
{
}

proof fn lemma_submissions_fill<C, H>(capacity: nat, limit: Option<nat>, units: Seq<Queued<C, H>>)
    requires
        1 <= capacity < u64::MAX,
        limit matches Some(n) ==> 1 <= n,
        units.len() <= capacity,
    ensures
        run(State::<C, H>::initial(capacity, limit), submissions(units)).0.inv(),
        run(State::<C, H>::initial(capacity, limit), submissions(units)).0.queue.len()
            == units.len(),
        run(State::<C, H>::initial(capacity, limit), submissions(units)).0.issued == units.len(),
        run(State::<C, H>::initial(capacity, limit), submissions(units)).1 == Seq::<
            Answer,
        >::empty(),
    decreases units.len(),
{
    let start = State::<C, H>::initial(capacity, limit);
    if units.len() == 0 {
    } else {
        lemma_submissions_fill(capacity, limit, units.drop_last());
        lemma_run_accounted(start, submissions(units.drop_last()));
        assert(submissions(units).drop_last() =~= submissions(units.drop_last()));
        assert(submissions(units).last() == Event::Submit(units.last()));
        let mid = run(start, submissions(units.drop_last())).0;
        assert(mid.accepts());
        mid.lemma_submit_inv(units.last());
    }
}

/// Back-pressure: with capacity `k` and nothing consumed, `k` commands are
/// accepted and the one after them is turned away, with the failure answer
/// that names its own continuations.
pub proof fn law_back_pressure<C, H>(capacity: nat, limit: Option<nat>, units: Seq<Queued<C, H>>)
    requires
        1 <= capacity < u64::MAX,
        limit matches Some(n) ==> 1 <= n,
        units.len() == capacity + 1,
    ensures
        run(State::<C, H>::initial(capacity, limit), submissions(units)).0.queue.len() == capacity,
        run(State::<C, H>::initial(capacity, limit), submissions(units)).1 == seq![
            Answer {
                ticket: None,
                delivery: rejection_of(
                    units.last().command.callback_id@,
                    units.last().command.error_id@,
                ),
            },
        ],
{
    let start = State::<C, H>::initial(capacity, limit);
    lemma_submissions_fill(capacity, limit, units.drop_last());
    lemma_run_accounted(start, submissions(units.drop_last()));
    assert(submissions(units).drop_last() =~= submissions(units.drop_last()));
    assert(submissions(units).last() == Event::Submit(units.last()));
    let mid = run(start, submissions(units.drop_last())).0;
    let log = run(start, submissions(units.drop_last())).1;
    assert(!mid.accepts());
    let answer = Answer {
        ticket: None,
        delivery: rejection_of(units.last().command.callback_id@, units.last().command.error_id@),
    };
    assert(log.push(answer) =~= seq![answer]);
}

/// The concurrency cap: under a limit of `n`, no reachable state has more
/// than `n` handlers running.
pub proof fn law_concurrency_cap<C, H>(capacity: nat, n: nat, events: Seq<Event<C, H>>)
    requires
        1 <= capacity,
        1 <= n,
    ensures
        run(State::<C, H>::initial(capacity, Some(n)), events).0.active.len() <= n,
{
    law_runs_stay_well_formed(capacity, Some(n), events);
}

/// At the cap nothing starts, and the end of any running handler frees the
/// slot for the oldest waiting command.
pub proof fn law_release_frees_a_slot<C, H>(s: State<C, H>, n: nat, t: u64)
    requires
        s.inv(),
        s.limit == Some(n),
        s.active.len() == n,
        s.queue.len() > 0,
        s.active.dom().contains(t),
    ensures
        !s.can_start(),
        step(s, Event::Start).0 == s,
        s.finish(t).can_start(),
        s.finish(t).start().active.dom().contains(s.queue[0]),
{
    s.lemma_finish_inv(t);
}

/// Unlimited mode: without a limit a waiting command can always start,
/// however many handlers are running.
pub proof fn law_unlimited<C, H>(s: State<C, H>)
    requires
        s.inv(),
        s.limit is None,
    ensures
        s.can_start() <==> s.queue.len() > 0,
        s.queue.len() > 0 ==> step(s, Event::Start).0 == s.start(),
{
}

/// Decode failure is isolated: a wire string that does not decode changes
/// nothing in the bridge and makes no answer due; the caller gets the
/// decode error and nothing else.
pub proof fn law_decode_failure_is_isolated<H>(
    before: State<serde_json::Value, H>,
    text: Seq<char>,
    decoded: Result<WireCommand<serde_json::Value>, DecodeError>,
    handle: H,
    after: State<serde_json::Value, H>,
    outcome: Result<Submission<H>, DecodeError>,
)
    requires
        decodes_to(text, decoded),
        decoded is Err,
        dispatch_of(before, decoded, handle, after, outcome),
    ensures
        after == before,
        outcome is Err,
        outcome == Err::<Submission<H>, DecodeError>(decoded->Err_0),
{
}

/// What `Bridge::submit` promises is the `Submit` step.
pub proof fn law_submit_is_a_step<C, H>(
    before: State<C, H>,
    unit: Queued<C, H>,
    after: State<C, H>,
    outcome: Submission<H>,
)
    requires
        submission_of(before, unit, after, outcome),
    ensures
        after == step(before, Event::Submit(unit)).0,
        match step(before, Event::Submit(unit)).1 {
            Some(answer) => outcome matches Submission::Rejected { answer: due } && due.delivery@
                == answer.delivery,
            None => outcome is Enqueued,
        },
{
}

/// What `Bridge::start_next` promises is the `Start` step.
pub proof fn law_start_is_a_step<C, H>(before: State<C, H>, after: State<C, H>, job: Option<Job<C>>)
    requires
        start_of(before, after, job),
    ensures
        after == step(before, Event::<C, H>::Start).0,
        step(before, Event::<C, H>::Start).1 is None,
{
}

/// What `Bridge::finish` promises is the `Finish` step.
pub proof fn law_finish_is_a_step<C, H>(
    before: State<C, H>,
    t: u64,
    result: Result<Seq<char>, Seq<char>>,
    done: Option<Completion<H>>,
)
    requires
        before.inv(),
        completion_in(before, t, result, done),
    ensures
        before.finish(t) == step(before, Event::Finish(t, result)).0,
        match step(before, Event::Finish(t, result)).1 {
            Some(answer) => done matches Some(due) && due.delivery@ == answer.delivery,
            None => done is None,
        },
{
    before.lemma_finish_inv(t);
}

} // verus!
