use vstd::prelude::*;
use crate::reactor::{
    begin, first_live, issues, step_spec, stopped_view, Action, Phase, ReactorView,
    RunLoopView,
};
use crate::timer::{earliest, is_earliest, nearest_spec, TimerEntry};
use crate::token::Token;

verus! {

proof fn lemma_count(states: Seq<ReactorView>, tokens: Seq<Token>, k: int)
    requires
        states.len() == tokens.len() + 1,
        states[0].next_token == 0,
        forall|i: int| 0 <= i < tokens.len() ==> issues(states[i], states[i + 1], #[trigger] tokens[i]),
        0 <= k < states.len(),
    ensures
        states[k].next_token == k,
    decreases k,
{
    if k > 0 {
        lemma_count(states, tokens, k - 1);
        assert(issues(states[k - 1], states[k], tokens[k - 1]));
    }
}

/// Successive `issue_token` calls on a fresh reactor hand out 0, 1, 2, ...:
/// a strictly increasing sequence that starts at 0.
pub proof fn law_tokens_count_up(states: Seq<ReactorView>, tokens: Seq<Token>)
    requires
        states.len() == tokens.len() + 1,
        states[0].next_token == 0,
        forall|i: int| 0 <= i < tokens.len() ==> issues(states[i], states[i + 1], #[trigger] tokens[i]),
    ensures
        forall|i: int| 0 <= i < tokens.len() ==> #[trigger] tokens[i].0 == i,
        forall|i: int, j: int| 0 <= i < j < tokens.len() ==> tokens[i].0 < tokens[j].0,
{
    assert forall|i: int| 0 <= i < tokens.len() implies #[trigger] tokens[i].0 == i by {
        lemma_count(states, tokens, i);
        assert(issues(states[i], states[i + 1], tokens[i]));
    }
    assert forall|i: int, j: int| 0 <= i < j < tokens.len() implies tokens[i].0 < tokens[j].0 by {
        assert(tokens[i].0 == i);
        assert(tokens[j].0 == j);
    }
}

proof fn lemma_min_prefix(timers: Seq<TimerEntry>, n: int) -> (m: int)
    requires
        0 < n <= timers.len(),
    ensures
        0 <= m < n,
        forall|j: int| 0 <= j < n ==> timers[m].fire_at <= #[trigger] timers[j].fire_at,
        forall|j: int| 0 <= j < m ==> timers[m].fire_at < #[trigger] timers[j].fire_at,
    decreases n,
{
    if n == 1 {
        0
    } else {
        let k = lemma_min_prefix(timers, n - 1);
        if timers[n - 1].fire_at < timers[k].fire_at {
            n - 1
        } else {
            k
        }
    }
}

/// A non-empty timer list has an earliest entry.
proof fn lemma_earliest_exists(timers: Seq<TimerEntry>)
    requires
        timers.len() > 0,
    ensures
        is_earliest(timers, earliest(timers)),
{
    let m = lemma_min_prefix(timers, timers.len() as int);
    assert(is_earliest(timers, m));
}

/// Facts about the scan for the next live token of a batch.
proof fn lemma_first_live(listeners: Map<usize, u64>, ready: Seq<Token>, from: int)
    requires
        0 <= from,
    ensures
        from <= first_live(listeners, ready, from) <= ready.len() || from > ready.len(),
        first_live(listeners, ready, from) < ready.len() ==> listeners.contains_key(
            ready[first_live(listeners, ready, from)].0,
        ),
        listeners.is_empty() ==> first_live(listeners, ready, from) == ready.len(),
    decreases ready.len() - from,
{
    if from < ready.len() {
        lemma_first_live(listeners, ready, from + 1);
    }
}

/// A timer fires only when it holds the nearest deadline of the queue, as
/// the queue stood when the wait began; every timer still queued after the
/// firing (an interval's next occurrence included) is due no earlier. So
/// timers registered in any order fire in order of their deadlines.
pub proof fn law_timers_fire_in_deadline_order(
    r: ReactorView,
    then: u64,
    now: u64,
    ready: Seq<Token>,
)
    requires
        r.timers.len() <= usize::MAX,
        begin(r, then).2 is Poll,
    ensures
        ({
            let lp = begin(r, then).0;
            let (lp2, r2, a) = step_spec(lp, r, now, ready);
            a is RunTimer ==> {
                let e = r.timers[lp.idx as int];
                &&& is_earliest(r.timers, lp.idx as int)
                &&& now >= e.fire_at
                &&& forall|j: int|
                    0 <= j < r2.timers.len() ==> e.fire_at <= #[trigger] r2.timers[j].fire_at
            }
        }),
{
    let lp = begin(r, then).0;
    let (lp2, r2, a) = step_spec(lp, r, now, ready);
    if a is RunTimer {
        assert(r.timers.len() > 0);
        lemma_earliest_exists(r.timers);
        let n = nearest_spec(r.timers, then);
        assert(lp.idx == n.idx);
        let lp1 = RunLoopView { ready: ready, next: 0, ..lp };
        lemma_first_live(r.listeners, ready, 0);
        lemma_first_live(r.without_timer(lp.idx as int).listeners, ready, 0);
        let e = r.timers[lp.idx as int];
        assert(lp.due == Some(e.fire_at));
        assert forall|j: int| 0 <= j < r2.timers.len() implies e.fire_at <= #[trigger] r2.timers[j].fire_at by {
            let rest = r.timers.remove(lp.idx as int);
            if j < rest.len() {
                if j < lp.idx {
                    assert(rest[j] == r.timers[j]);
                } else {
                    assert(rest[j] == r.timers[j + 1]);
                }
            }
        }
    }
}

/// Stepping never touches an interval's flag.
pub proof fn law_step_keeps_interval_flags(lp: RunLoopView, r: ReactorView, now: u64, ready: Seq<Token>)
    ensures
        step_spec(lp, r, now, ready).1.cancelled == r.cancelled,
{
}

/// When the pending occurrence of a cancelled interval comes due, it runs
/// nothing and queues no further occurrence: the queue just loses it.
pub proof fn law_cancelled_interval_stops(lp: RunLoopView, r: ReactorView, now: u64, ready: Seq<Token>)
    requires
        lp.phase == Phase::Waiting,
        lp.due is Some,
        now >= lp.due->Some_0,
        lp.idx < r.timers.len(),
        r.timers[lp.idx as int].task is Repeat,
        r.cancelled[r.timers[lp.idx as int].task->Repeat_interval as int],
    ensures
        ({
            let (lp2, r2, a) = step_spec(lp, r, now, ready);
            &&& !(a is RunTimer)
            &&& r2 == r.without_timer(lp.idx as int)
        }),
{
}

/// A listener is handed out only for a token of the batch that has one in
/// the registry as the previous callback left it, and it is that one; a
/// token whose listener a callback removed before its turn is skipped.
pub proof fn law_dispatch_uses_current_registry(lp: RunLoopView, r: ReactorView, now: u64, ready: Seq<Token>)
    requires
        lp.ready.len() <= usize::MAX,
        ready.len() <= usize::MAX,
    ensures
        ({
            let (lp2, r2, a) = step_spec(lp, r, now, ready);
            a is RunListener ==> {
                let t = lp2.ready[a->RunListener_event as int];
                &&& a->RunListener_event < lp2.ready.len()
                &&& r.listeners.contains_key(t.0)
                &&& a->RunListener_callback == r.listeners[t.0]
                &&& r2.listeners == r.listeners
            }
        }),
{
    lemma_first_live(r.listeners, lp.ready, lp.next as int);
    lemma_first_live(r.listeners, ready, 0);
    if lp.idx < r.timers.len() {
        lemma_first_live(r.without_timer(lp.idx as int).listeners, ready, 0);
    }
}

/// A quit asked for inside a callback ends the loop at the very next step,
/// before anything else of the pass; a stopped loop hands out nothing more.
pub proof fn law_quit_stops(lp: RunLoopView, r: ReactorView, now: u64, ready: Seq<Token>)
    ensures
        (lp.phase == Phase::AfterTimer || lp.phase == Phase::AfterListener) && r.quit
            ==> step_spec(lp, r, now, ready) == (stopped_view(), r, Action::Stop),
        lp.phase == Phase::Stopped ==> step_spec(lp, r, now, ready) == (lp, r, Action::Stop),
{
}

/// With no listener and no timer left, the loop stops by itself, whatever
/// step it is at and whether or not quit was asked for.
pub proof fn law_idle_stops(lp: RunLoopView, r: ReactorView, now: u64, ready: Seq<Token>)
    requires
        r.idle(),
    ensures
        step_spec(lp, r, now, ready).2 == Action::Stop,
        step_spec(lp, r, now, ready).0.phase == Phase::Stopped,
{
    lemma_first_live(r.listeners, lp.ready, lp.next as int);
    lemma_first_live(r.listeners, ready, 0);
}

} // verus!
