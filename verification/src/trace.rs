//! What holds of the arbiter over a whole run: a run is a sequence of ticks
//! taken in order from an empty slot.

use crate::arbiter::{
    admits, installed, offer, payload_of, request_view, step, Arbiter, Command, InForce, Request,
    Tick,
};
use crate::heartbeat::Heartbeat;
use vstd::prelude::*;

verus! {

/// The slot after every tick of `trace` has been taken in order, starting
/// from an empty slot.
pub open spec fn run(trace: Seq<Tick>) -> Option<InForce>
    decreases trace.len(),
{
    if trace.len() == 0 {
        None
    } else {
        step(run(trace.drop_last()), trace.last())
    }
}

/// One tick of a schedule: its time in milliseconds, and the request polled
/// at it, if there is one.
#[derive(Debug, Clone, Copy, PartialEq, Eq)]
pub struct ScheduledTick {
    pub now: u64,
    pub request: Option<Command>,
}

impl View for ScheduledTick {
    type V = Tick;

    open spec fn view(&self) -> Tick {
        Tick { now: self.now as int, request: request_view(self.request) }
    }
}

/// A schedule as the rules see it.
pub open spec fn ticks_of(schedule: Seq<ScheduledTick>) -> Seq<Tick> {
    Seq::new(schedule.len(), |i: int| schedule[i]@)
}

/// Takes a fresh arbiter through a whole schedule, tick by tick. What it
/// holds in the end is what the run of the schedule leaves in the slot.
pub fn replay(standby: Heartbeat, schedule: &Vec<ScheduledTick>) -> (arbiter: Arbiter)
    ensures
        arbiter.slot() == run(ticks_of(schedule@)),
        arbiter.standby() == standby,
{
    let mut arbiter = Arbiter::new(standby);
    let ghost trace = ticks_of(schedule@);
    let mut i: usize = 0;
    assert(trace.take(0) =~= Seq::<Tick>::empty());
    while i < schedule.len()
        invariant
            i <= schedule.len(),
            trace == ticks_of(schedule@),
            arbiter.slot() == run(trace.take(i as int)),
            arbiter.standby() == standby,
        decreases schedule.len() - i,
    {
        let tick = schedule[i];
        proof {
            let next = trace.take(i + 1);
            assert(next.drop_last() =~= trace.take(i as int));
            assert(next.last() == tick@);
        }
        arbiter.tick(tick.request, tick.now);
        i += 1;
    }
    assert(trace.take(i as int) =~= trace);
    arbiter
}

/// Tick `j` of the trace brought a request.
pub open spec fn has_request(trace: Seq<Tick>, j: int) -> bool {
    0 <= j < trace.len() && trace[j].request is Some
}

/// The request that tick `j` brought.
pub open spec fn request_at(trace: Seq<Tick>, j: int) -> Request {
    trace[j].request->0
}

/// What the request of tick `j` is once installed.
pub open spec fn entry_at(trace: Seq<Tick>, j: int) -> InForce {
    installed(request_at(trace, j), trace[j].now)
}

/// The request of tick `j` was installed when it arrived, rather than
/// dropped.
pub open spec fn was_installed(trace: Seq<Tick>, j: int) -> bool {
    has_request(trace, j) && admits(run(trace.take(j)), request_at(trace, j))
}

/// After tick `j`, a request of equal or higher priority arrived.
pub open spec fn was_outranked(trace: Seq<Tick>, j: int) -> bool {
    exists|k: int|
        j < k < trace.len() && #[trigger] has_request(trace, k) && request_at(trace, k).priority
            >= request_at(trace, j).priority
}

/// At tick `j` or at a later one, the time of the request of tick `j` was
/// up.
pub open spec fn has_lapsed(trace: Seq<Tick>, j: int) -> bool {
    exists|k: int|
        j <= k < trace.len() && (#[trigger] trace[k]).now >= trace[j].now + request_at(
            trace,
            j,
        ).duration
}

/// The request of tick `j` has arrived, has not lapsed and has not been
/// outranked since.
pub open spec fn is_live(trace: Seq<Tick>, j: int) -> bool {
    has_request(trace, j) && !was_outranked(trace, j) && !has_lapsed(trace, j)
}

/// The request of tick `j` was installed, and has neither lapsed nor been
/// outranked since.
pub open spec fn in_force(trace: Seq<Tick>, j: int) -> bool {
    was_installed(trace, j) && !was_outranked(trace, j) && !has_lapsed(trace, j)
}

/// The times of the trace never go backwards.
pub open spec fn time_ordered(trace: Seq<Tick>) -> bool {
    forall|i: int, j: int| 0 <= i <= j < trace.len() ==> trace[i].now <= trace[j].now
}

/// What held of request `j` before the last tick still holds after it:
/// whether it was installed, and that it was outranked or had lapsed.
proof fn lemma_prefix_facts(trace: Seq<Tick>, j: int)
    requires
        0 <= j < trace.len() - 1,
    ensures
        was_installed(trace.drop_last(), j) == was_installed(trace, j),
        was_outranked(trace.drop_last(), j) ==> was_outranked(trace, j),
        has_lapsed(trace.drop_last(), j) ==> has_lapsed(trace, j),
        request_at(trace.drop_last(), j) == request_at(trace, j),
        entry_at(trace.drop_last(), j) == entry_at(trace, j),
{
    let prev = trace.drop_last();
    assert(prev.take(j) =~= trace.take(j));
    assert(prev[j] == trace[j]);
    if was_outranked(prev, j) {
        let k = choose|k: int|
            j < k < prev.len() && #[trigger] has_request(prev, k) && request_at(prev, k).priority
                >= request_at(prev, j).priority;
        assert(prev[k] == trace[k]);
        assert(has_request(trace, k));
    }
    if has_lapsed(prev, j) {
        let k = choose|k: int|
            j <= k < prev.len() && (#[trigger] prev[k]).now >= prev[j].now + request_at(
                prev,
                j,
            ).duration;
        assert(prev[k] == trace[k]);
    }
}

/// A request that is in force after the last tick was in force before it.
proof fn lemma_prefix_in_force(trace: Seq<Tick>, j: int)
    requires
        0 <= j < trace.len() - 1,
        in_force(trace, j),
    ensures
        in_force(trace.drop_last(), j),
{
    lemma_prefix_facts(trace, j);
}

/// A request that was in force before the last tick is in force after it,
/// unless the request of that tick outranks it or its time is up at that
/// tick.
proof fn lemma_extend_in_force(trace: Seq<Tick>, j: int)
    requires
        0 <= j < trace.len() - 1,
        in_force(trace.drop_last(), j),
        !(has_request(trace, trace.len() - 1) && request_at(trace, trace.len() - 1).priority
            >= request_at(trace, j).priority),
        trace.last().now < trace[j].now + request_at(trace, j).duration,
    ensures
        in_force(trace, j),
{
    let prev = trace.drop_last();
    let n = trace.len() - 1;
    lemma_prefix_facts(trace, j);
    if was_outranked(trace, j) {
        let k = choose|k: int|
            j < k < trace.len() && #[trigger] has_request(trace, k) && request_at(
                trace,
                k,
            ).priority >= request_at(trace, j).priority;
        if k < n {
            assert(prev[k] == trace[k]);
            assert(has_request(prev, k));
            assert(was_outranked(prev, j));
        }
    }
    if has_lapsed(trace, j) {
        let k = choose|k: int|
            j <= k < trace.len() && (#[trigger] trace[k]).now >= trace[j].now + request_at(
                trace,
                j,
            ).duration;
        if k < n {
            assert(prev[k] == trace[k]);
            assert(prev[j] == trace[j]);
            assert(has_lapsed(prev, j));
        }
    }
}

/// Arbitration over a run. The slot holds a command exactly when some
/// request of the run is in force, and then it holds that request as it was
/// installed: with its payload, its priority and its arrival time plus its
/// duration as expiry.
pub proof fn lemma_run_holds_request_in_force(trace: Seq<Tick>)
    ensures
        forall|j: int| #[trigger] in_force(trace, j) ==> run(trace) == Some(entry_at(trace, j)),
        run(trace) is Some ==> exists|j: int| #[trigger] in_force(trace, j),
    decreases trace.len(),
{
    if trace.len() == 0 {
        return ;
    }
    let prev = trace.drop_last();
    let last = trace.last();
    let n = trace.len() - 1;
    lemma_run_holds_request_in_force(prev);
    assert(trace.take(n) =~= prev);
    assert(trace[n] == last);
    assert forall|j: int| #[trigger] in_force(trace, j) implies run(trace) == Some(
        entry_at(trace, j),
    ) by {
        if j == n {
            assert(trace[n].now < trace[n].now + request_at(trace, n).duration);
        } else {
            lemma_prefix_in_force(trace, j);
            lemma_prefix_facts(trace, j);
            assert(run(prev) == Some(entry_at(trace, j)));
            assert(!(has_request(trace, n) && request_at(trace, n).priority >= request_at(
                trace,
                j,
            ).priority));
            assert(trace[n].now < trace[j].now + request_at(trace, j).duration);
        }
    }
    if run(trace) is Some {
        if last.request is Some && admits(run(prev), last.request->0) {
            assert(has_request(trace, n));
            assert(was_installed(trace, n));
            assert(in_force(trace, n));
        } else {
            assert(run(prev) is Some);
            let j = choose|j: int| #[trigger] in_force(prev, j);
            assert(run(prev) == Some(entry_at(prev, j)));
            lemma_prefix_facts(trace, j);
            lemma_extend_in_force(trace, j);
        }
    }
}

/// At most one request is in force.
pub proof fn lemma_in_force_unique(trace: Seq<Tick>, i: int, j: int)
    requires
        in_force(trace, i),
        in_force(trace, j),
    ensures
        i == j,
{
    lemma_run_holds_request_in_force(trace);
    assert(entry_at(trace, i) == entry_at(trace, j));
    if i < j {
        assert(has_request(trace, j));
        assert(was_outranked(trace, i));
    } else if j < i {
        assert(has_request(trace, i));
        assert(was_outranked(trace, j));
    }
}

/// With times that never go backwards, a request has lapsed exactly when
/// its time is up at the last tick.
pub proof fn lemma_lapsed_at_last_tick(trace: Seq<Tick>, j: int)
    requires
        time_ordered(trace),
        0 <= j < trace.len(),
    ensures
        has_lapsed(trace, j) == (trace.last().now >= trace[j].now + request_at(trace, j).duration),
{
    let n = trace.len() - 1;
    assert(trace[n] == trace.last());
    if has_lapsed(trace, j) {
        let k = choose|k: int|
            j <= k < trace.len() && (#[trigger] trace[k]).now >= trace[j].now + request_at(
                trace,
                j,
            ).duration;
        assert(trace[k].now <= trace[n].now);
    }
}

/// Request `s` is live and no live request ranks above it; among live
/// requests of its own priority it is the one that arrived last.
pub open spec fn is_highest_live(trace: Seq<Tick>, s: int) -> bool {
    &&& is_live(trace, s)
    &&& forall|j: int| #[trigger]
        is_live(trace, j) ==> request_at(trace, j).priority < request_at(trace, s).priority || (
        request_at(trace, j).priority == request_at(trace, s).priority && j <= s)
}

/// Every live request that was dropped on arrival came after the request
/// now in force.
pub open spec fn dropped_requests_are_spent(trace: Seq<Tick>) -> bool {
    forall|j: int| #[trigger]
        is_live(trace, j) && !was_installed(trace, j) ==> exists|s: int|
            s < j && #[trigger] in_force(trace, s)
}

/// The command in the slot is the highest live request, the latest one
/// among equals, and the slot is empty when no request is live. This holds
/// of the runs in which no request that was dropped on arrival is still
/// live without the request in force having come before it: a dropped
/// request is never installed later, however long it would have lasted.
pub proof fn lemma_slot_holds_highest_live(trace: Seq<Tick>)
    requires
        dropped_requests_are_spent(trace),
    ensures
        match run(trace) {
            Some(active) => exists|s: int| #[trigger]
                is_highest_live(trace, s) && active == entry_at(trace, s),
            None => forall|j: int| !#[trigger] is_live(trace, j),
        },
{
    lemma_run_holds_request_in_force(trace);
    if run(trace) is Some {
        let s = choose|s: int| #[trigger] in_force(trace, s);
        assert forall|j: int| #[trigger] is_live(trace, j) implies request_at(trace, j).priority
            < request_at(trace, s).priority || (request_at(trace, j).priority == request_at(
            trace,
            s,
        ).priority && j <= s) by {
            if j < s {
                assert(has_request(trace, s));
                if was_installed(trace, j) {
                    lemma_in_force_unique(trace, j, s);
                } else {
                    let t = choose|t: int| t < j && #[trigger] in_force(trace, t);
                    lemma_in_force_unique(trace, t, s);
                }
            } else if s < j {
                assert(has_request(trace, j));
            }
        }
        assert(is_highest_live(trace, s));
    } else {
        assert forall|j: int| !#[trigger] is_live(trace, j) by {
            if is_live(trace, j) {
                if was_installed(trace, j) {
                    assert(in_force(trace, j));
                } else {
                    let t = choose|t: int| t < j && #[trigger] in_force(trace, t);
                }
            }
        }
    }
}

/// Expiry. A request installed at `at` is the payload sent at every quiet
/// tick before `at` plus its duration; at the first quiet tick from then on
/// the slot is empty and the standby payload is sent.
pub proof fn lemma_expiry(
    slot: Option<InForce>,
    request: Request,
    at: int,
    now: int,
    standby: Seq<u8>,
)
    requires
        admits(slot, request),
    ensures
        ({
            let held = offer(slot, request, at);
            let after = step(held, Tick { now, request: None });
            &&& held == Some(installed(request, at))
            &&& now < at + request.duration ==> after == held && payload_of(after, standby)
                == request.payload
            &&& now >= at + request.duration ==> after is None && payload_of(after, standby)
                == standby
        }),
{
}

/// A tick can only empty the slot, keep it or install the request it
/// brought; what is sent is the standby payload or a payload that was
/// requested.
pub proof fn lemma_step_outcomes(slot: Option<InForce>, tick: Tick)
    ensures
        ({
            let after = step(slot, tick);
            ||| after is None
            ||| after == slot
            ||| tick.request is Some && after == Some(installed(tick.request->0, tick.now))
        }),
{
}

} // verus!
