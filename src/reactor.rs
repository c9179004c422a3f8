use vstd::prelude::*;
use std::collections::BTreeMap;
use crate::timer::{deadline, is_earliest, nearest, nearest_spec, CalculateDurationResult, Task, TimerEntry};
use crate::token::Token;

verus! {

broadcast use vstd::std_specs::btree::group_btree_axioms, vstd::laws_cmp::group_laws_cmp;

/// The reactor's state seen as values.
pub struct ReactorView {
    /// Set once some callback asked the loop to stop.
    pub quit: bool,
    /// The value that the next issued token will carry.
    pub next_token: nat,
    /// Token value to the listener callback registered on it.
    pub listeners: Map<usize, u64>,
    /// Pending timers, in order of registration.
    pub timers: Seq<TimerEntry>,
    /// One cancellation flag per interval, indexed by its handle.
    pub cancelled: Seq<bool>,
}

/// The state of a single-threaded event reactor: a quit flag, a token
/// counter, the listener registry, the timer list and the interval flags.
pub struct Reactor {
    quit: bool,
    token_ticker: usize,
    event_listeners: BTreeMap<usize, u64>,
    timeout_listeners: Vec<TimerEntry>,
    intervals: Vec<bool>,
}

impl View for Reactor {
    type V = ReactorView;

    closed spec fn view(&self) -> ReactorView {
        ReactorView {
            quit: self.quit,
            next_token: self.token_ticker as nat,
            listeners: self.event_listeners@,
            timers: self.timeout_listeners@,
            cancelled: self.intervals@,
        }
    }
}

/// Handle of a repeating interval: the index of its cancellation flag.
#[derive(Clone, Copy, Debug, PartialEq, Eq, Structural)]
pub struct IntervalHandle {
    pub index: usize,
}

impl ReactorView {
    /// Every interval named by a pending timer has a flag.
    pub open spec fn wf(self) -> bool {
        forall|i: int|
            0 <= i < self.timers.len() ==> match #[trigger] self.timers[i].task {
                Task::Repeat { interval, .. } => interval < self.cancelled.len(),
                Task::Once { .. } => true,
            }
    }

    /// Nothing is left to wait for.
    pub open spec fn idle(self) -> bool {
        self.listeners.is_empty() && self.timers.len() == 0
    }

    /// `self` with `entry` appended to the timer list.
    pub open spec fn with_timer(self, entry: TimerEntry) -> ReactorView {
        ReactorView { timers: self.timers.push(entry), ..self }
    }

    /// `self` with the timer at `i` taken out.
    pub open spec fn without_timer(self, i: int) -> ReactorView {
        ReactorView { timers: self.timers.remove(i), ..self }
    }
}

/// `t` was issued by a reactor that went from `before` to `after`.
pub open spec fn issues(before: ReactorView, after: ReactorView, t: Token) -> bool {
    &&& t.0 == before.next_token
    &&& after == ReactorView { next_token: before.next_token + 1, ..before }
}

impl Reactor {
    /// The reactor's invariant: see `ReactorView::wf`.
    pub closed spec fn wf(&self) -> bool {
        self@.wf()
    }

    /// A reactor with no listeners, no timers and the quit flag clear.
    pub fn new() -> (r: Reactor)
        ensures
            r.wf(),
            r@ == (ReactorView {
                quit: false,
                next_token: 0,
                listeners: Map::empty(),
                timers: Seq::empty(),
                cancelled: Seq::empty(),
            }),
    {
        Reactor {
            quit: false,
            token_ticker: 0,
            event_listeners: BTreeMap::new(),
            timeout_listeners: Vec::new(),
            intervals: Vec::new(),
        }
    }

    /// Asks the run loop to stop at its next checkpoint.
    pub fn quit(&mut self)
        requires
            old(self).wf(),
        ensures
            final(self).wf(),
            final(self)@ == (ReactorView { quit: true, ..old(self)@ }),
    {
        self.quit = true;
    }

    /// Whether `quit` has been called.
    pub fn is_quit(&self) -> (r: bool)
        ensures
            r == self@.quit,
    {
        self.quit
    }

    /// Binds `callback` to `token`, replacing any listener already bound to it.
    pub fn set_event_listener(&mut self, token: Token, callback: u64)
        requires
            old(self).wf(),
        ensures
            final(self).wf(),
            final(self)@ == (ReactorView {
                listeners: old(self)@.listeners.insert(token.0, callback),
                ..old(self)@
            }),
    {
        self.event_listeners.insert(token.0, callback);
    }

    /// Unbinds whatever listener `token` has; does nothing if it has none.
    pub fn remove_event_listener(&mut self, token: Token)
        requires
            old(self).wf(),
        ensures
            final(self).wf(),
            final(self)@ == (ReactorView {
                listeners: old(self)@.listeners.remove(token.0),
                ..old(self)@
            }),
    {
        self.event_listeners.remove(&token.0);
    }

    /// The listener bound to `token`, if any.
    pub fn listener(&self, token: Token) -> (r: Option<u64>)
        ensures
            r == (if self@.listeners.contains_key(token.0) {
                Some(self@.listeners[token.0])
            } else {
                None
            }),
    {
        match self.event_listeners.get(&token.0) {
            Some(c) => Some(*c),
            None => None,
        }
    }

    fn push_timer(&mut self, entry: TimerEntry)
        requires
            old(self).wf(),
            match entry.task {
                Task::Repeat { interval, .. } => interval < old(self)@.cancelled.len(),
                Task::Once { .. } => true,
            },
        ensures
            final(self).wf(),
            final(self)@ == old(self)@.with_timer(entry),
    {
        self.timeout_listeners.push(entry);
        proof {
            let v = self@;
            assert forall|i: int| 0 <= i < v.timers.len() implies match #[trigger] v.timers[i].task {
                Task::Repeat { interval, .. } => interval < v.cancelled.len(),
                Task::Once { .. } => true,
            } by {
                if i < old(self)@.timers.len() {
                    assert(v.timers[i] == old(self)@.timers[i]);
                }
            }
        }
    }

    /// Schedules `callback` to run once, `timeout` milliseconds after `now`.
    pub fn set_timeout(&mut self, now: u64, timeout: u64, callback: u64)
        requires
            old(self).wf(),
        ensures
            final(self).wf(),
            final(self)@ == old(self)@.with_timer(
                TimerEntry { fire_at: deadline(now, timeout), task: Task::Once { callback } },
            ),
    {
        let fire_at = now.saturating_add(timeout);
        self.push_timer(TimerEntry { fire_at, task: Task::Once { callback } });
    }

    /// Queues the next occurrence of the interval behind `handle`.
    fn reschedule_interval(&mut self, now: u64, interval: u64, handle: IntervalHandle, callback: u64)
        requires
            old(self).wf(),
            handle.index < old(self)@.cancelled.len(),
        ensures
            final(self).wf(),
            final(self)@ == old(self)@.with_timer(
                TimerEntry {
                    fire_at: deadline(now, interval),
                    task: Task::Repeat { interval: handle.index, period: interval, callback },
                },
            ),
    {
        let fire_at = now.saturating_add(interval);
        self.push_timer(
            TimerEntry {
                fire_at,
                task: Task::Repeat { interval: handle.index, period: interval, callback },
            },
        );
    }

    /// Starts an interval that runs `callback` every `interval` milliseconds,
    /// first at `now + interval`, until it is cancelled.
    pub fn set_interval(&mut self, now: u64, interval: u64, callback: u64) -> (h: IntervalHandle)
        requires
            old(self).wf(),
            old(self)@.cancelled.len() < usize::MAX,
        ensures
            final(self).wf(),
            h.index == old(self)@.cancelled.len(),
            final(self)@ == (ReactorView {
                cancelled: old(self)@.cancelled.push(false),
                ..old(self)@
            }).with_timer(
                TimerEntry {
                    fire_at: deadline(now, interval),
                    task: Task::Repeat { interval: h.index, period: interval, callback },
                },
            ),
    {
        let handle = IntervalHandle { index: self.intervals.len() };
        self.intervals.push(false);
        proof {
            let v = self@;
            assert forall|i: int| 0 <= i < v.timers.len() implies match #[trigger] v.timers[i].task {
                Task::Repeat { interval, .. } => interval < v.cancelled.len(),
                Task::Once { .. } => true,
            } by {
                assert(v.timers[i] == old(self)@.timers[i]);
            }
        }
        self.reschedule_interval(now, interval, handle, callback);
        handle
    }

    /// Hands out the next token: 0 first, then one more each time.
    pub fn issue_token(&mut self) -> (t: Token)
        requires
            old(self).wf(),
            old(self)@.next_token < usize::MAX,
        ensures
            final(self).wf(),
            issues(old(self)@, final(self)@, t),
    {
        let mine = self.token_ticker;
        self.token_ticker = mine + 1;
        Token(mine)
    }

    /// The value that the next issued token will carry.
    pub fn next_token(&self) -> (n: usize)
        ensures
            n == self@.next_token,
    {
        self.token_ticker
    }

    /// How many intervals have been started.
    pub fn interval_count(&self) -> (n: usize)
        ensures
            n == self@.cancelled.len(),
    {
        self.intervals.len()
    }

    /// The nearest pending deadline seen from `now`, with its position.
    pub fn calculate_duration(&self, now: u64) -> (r: CalculateDurationResult)
        ensures
            r == nearest_spec(self@.timers, now),
            self@.timers.len() > 0 ==> is_earliest(self@.timers, r.idx as int),
    {
        nearest(&self.timeout_listeners, now)
    }

    /// Whether both the listener registry and the timer list are empty.
    pub fn is_empty(&self) -> (r: bool)
        ensures
            r == self@.idle(),
    {
        self.timeout_listeners.len() == 0 && self.event_listeners.is_empty()
    }
}

impl IntervalHandle {
    /// Sets the interval's flag, so that its next occurrence neither runs nor
    /// queues another. Idempotent; does nothing for a handle that the reactor
    /// never gave out.
    pub fn cancel(&self, reactor: &mut Reactor)
        requires
            old(reactor).wf(),
        ensures
            final(reactor).wf(),
            final(reactor)@ == (if self.index < old(reactor)@.cancelled.len() {
                ReactorView {
                    cancelled: old(reactor)@.cancelled.update(self.index as int, true),
                    ..old(reactor)@
                }
            } else {
                old(reactor)@
            }),
    {
        if self.index < reactor.intervals.len() {
            reactor.intervals.set(self.index, true);
        }
    }

    /// Whether the interval has been cancelled (a handle the reactor never
    /// gave out counts as cancelled).
    pub fn is_cancelled(&self, reactor: &Reactor) -> (r: bool)
        ensures
            r == (self.index >= reactor@.cancelled.len() || reactor@.cancelled[self.index as int]),
    {
        if self.index < reactor.intervals.len() {
            reactor.intervals[self.index]
        } else {
            true
        }
    }
}

/// Where the run loop stands between two calls of `RunLoop::step`.
#[derive(Clone, Copy, Debug, PartialEq, Eq, Structural)]
pub enum Phase {
    /// At the top of an iteration: decide whether to stop, else how long to wait.
    Top,
    /// Waiting for the outcome of a poll.
    Waiting,
    /// A timer callback has been handed out and is running.
    AfterTimer,
    /// A listener callback has been handed out and is running.
    AfterListener,
    /// The loop is over.
    Stopped,
}

/// What the caller of `RunLoop::step` is to do next.
#[derive(Clone, Copy, Debug, PartialEq, Eq, Structural)]
pub enum Action {
    /// Leave the loop.
    Stop,
    /// Block on the multiplexer for at most `timeout` milliseconds (forever
    /// for `None`), then pass the ready tokens to the next step, in order.
    Poll { timeout: Option<u64> },
    /// Run the timer callback `callback`, then step again.
    RunTimer { callback: u64 },
    /// Run listener `callback` on the ready event at position `event` of the
    /// last batch, then step again.
    RunListener { callback: u64, event: usize },
}

/// The run loop's state seen as values.
pub struct RunLoopView {
    pub phase: Phase,
    /// Deadline of the timer that the current wait is bounded by.
    pub due: Option<u64>,
    /// Its position in the timer list.
    pub idx: usize,
    /// The tokens of the batch being dispatched.
    pub ready: Seq<Token>,
    /// The first position of the batch not yet looked at.
    pub next: nat,
}

/// The decisions of the run loop, one step at a time. Its caller performs
/// each action (a poll, a callback) and then steps again, handing the
/// reactor in its present state, so callbacks may change it in between.
pub struct RunLoop {
    phase: Phase,
    due: Option<u64>,
    idx: usize,
    ready: Vec<Token>,
    next: usize,
}

impl View for RunLoop {
    type V = RunLoopView;

    closed spec fn view(&self) -> RunLoopView {
        RunLoopView {
            phase: self.phase,
            due: self.due,
            idx: self.idx,
            ready: self.ready@,
            next: self.next as nat,
        }
    }
}

/// The loop after it has stopped.
pub open spec fn stopped_view() -> RunLoopView {
    RunLoopView { phase: Phase::Stopped, due: None, idx: 0, ready: Seq::empty(), next: 0 }
}

/// The first position at or after `from` whose token has a listener in
/// `listeners`; `ready.len()` when there is none.
pub open spec fn first_live(listeners: Map<usize, u64>, ready: Seq<Token>, from: int) -> int
    decreases ready.len() - from,
{
    if from >= ready.len() {
        ready.len() as int
    } else if listeners.contains_key(ready[from].0) {
        from
    } else {
        first_live(listeners, ready, from + 1)
    }
}

/// Top of an iteration: stop when asked to or when nothing is left to wait
/// for; otherwise poll until the nearest deadline.
pub open spec fn begin(r: ReactorView, now: u64) -> (RunLoopView, ReactorView, Action) {
    if r.quit || r.idle() {
        (stopped_view(), r, Action::Stop)
    } else {
        let n = nearest_spec(r.timers, now);
        (
            RunLoopView { phase: Phase::Waiting, due: n.fire_at, idx: n.idx, ready: Seq::empty(), next: 0 },
            r,
            Action::Poll { timeout: n.duration },
        )
    }
}

/// Hands out the listener of the next ready token that still has one; when
/// the batch is done, goes back to the top.
pub open spec fn dispatch(lp: RunLoopView, r: ReactorView, now: u64) -> (RunLoopView, ReactorView, Action) {
    let i = first_live(r.listeners, lp.ready, lp.next as int);
    if i < lp.ready.len() {
        (
            RunLoopView { phase: Phase::AfterListener, next: (i + 1) as nat, ..lp },
            r,
            Action::RunListener { callback: r.listeners[lp.ready[i].0], event: i as usize },
        )
    } else {
        begin(r, now)
    }
}

/// After a poll: if the deadline waited for has passed, take its timer out
/// and fire it (an interval queues its next occurrence first, or does
/// nothing once cancelled); otherwise dispatch the batch.
pub open spec fn wake(lp: RunLoopView, r: ReactorView, now: u64, ready: Seq<Token>) -> (RunLoopView, ReactorView, Action) {
    let lp1 = RunLoopView { ready: ready, next: 0, ..lp };
    match lp.due {
        Some(fire_at) if now >= fire_at && lp.idx < r.timers.len() => {
            let e = r.timers[lp.idx as int];
            let r1 = r.without_timer(lp.idx as int);
            match e.task {
                Task::Once { callback } => (
                    RunLoopView { phase: Phase::AfterTimer, ..lp1 },
                    r1,
                    Action::RunTimer { callback },
                ),
                Task::Repeat { interval, period, callback } => if !r.cancelled[interval as int] {
                    (
                        RunLoopView { phase: Phase::AfterTimer, ..lp1 },
                        r1.with_timer(TimerEntry { fire_at: deadline(now, period), task: e.task }),
                        Action::RunTimer { callback },
                    )
                } else {
                    dispatch(lp1, r1, now)
                },
            }
        },
        _ => dispatch(lp1, r, now),
    }
}

/// After a callback: stop at once if it asked to quit, else go on.
pub open spec fn resume(lp: RunLoopView, r: ReactorView, now: u64) -> (RunLoopView, ReactorView, Action) {
    if r.quit {
        (stopped_view(), r, Action::Stop)
    } else {
        dispatch(lp, r, now)
    }
}

/// One step of the run loop at time `now`; `ready` is read only after a poll.
pub open spec fn step_spec(lp: RunLoopView, r: ReactorView, now: u64, ready: Seq<Token>) -> (RunLoopView, ReactorView, Action) {
    match lp.phase {
        Phase::Top => begin(r, now),
        Phase::Waiting => wake(lp, r, now, ready),
        Phase::AfterTimer => resume(lp, r, now),
        Phase::AfterListener => resume(lp, r, now),
        Phase::Stopped => (lp, r, Action::Stop),
    }
}

impl RunLoop {
    /// A loop at the top of its first iteration.
    pub fn new() -> (lp: RunLoop)
        ensures
            lp@ == (RunLoopView { phase: Phase::Top, due: None, idx: 0, ready: Seq::empty(), next: 0 }),
    {
        RunLoop { phase: Phase::Top, due: None, idx: 0, ready: Vec::new(), next: 0 }
    }

    /// Whether the loop is over.
    pub fn is_stopped(&self) -> (r: bool)
        ensures
            r == (self@.phase == Phase::Stopped),
    {
        match self.phase {
            Phase::Stopped => true,
            _ => false,
        }
    }

    /// Decides what to do next, given the reactor as the last action left
    /// it, the time `now`, and (after a poll) the ready tokens in the order
    /// that the multiplexer gave them.
    pub fn step(&mut self, reactor: &mut Reactor, now: u64, ready: Vec<Token>) -> (a: Action)
        requires
            old(reactor).wf(),
        ensures
            final(reactor).wf(),
            (final(self)@, final(reactor)@, a) == step_spec(old(self)@, old(reactor)@, now, ready@),
    {
        match self.phase {
            Phase::Top => self.begin(reactor, now),
            Phase::Waiting => self.wake(reactor, now, ready),
            Phase::AfterTimer => self.resume(reactor, now),
            Phase::AfterListener => self.resume(reactor, now),
            Phase::Stopped => Action::Stop,
        }
    }

    fn stop(&mut self)
        ensures
            final(self)@ == stopped_view(),
    {
        self.phase = Phase::Stopped;
        self.due = None;
        self.idx = 0;
        self.ready = Vec::new();
        self.next = 0;
    }

    fn resume(&mut self, reactor: &Reactor, now: u64) -> (a: Action)
        ensures
            (final(self)@, reactor@, a) == resume(old(self)@, reactor@, now),
    {
        if reactor.quit {
            self.stop();
            Action::Stop
        } else {
            self.dispatch(reactor, now)
        }
    }

    fn wake(&mut self, reactor: &mut Reactor, now: u64, ready: Vec<Token>) -> (a: Action)
        requires
            old(reactor).wf(),
        ensures
            final(reactor).wf(),
            (final(self)@, final(reactor)@, a) == wake(old(self)@, old(reactor)@, now, ready@),
    {
        self.ready = ready;
        self.next = 0;
        if let Some(fire_at) = self.due {
            if now >= fire_at && self.idx < reactor.timeout_listeners.len() {
                let ghost r0 = reactor@;
                let entry = reactor.timeout_listeners.remove(self.idx);
                proof {
                    let v = reactor@;
                    assert(v == r0.without_timer(self.idx as int));
                    assert forall|i: int| 0 <= i < v.timers.len() implies match #[trigger] v.timers[i].task {
                        Task::Repeat { interval, .. } => interval < v.cancelled.len(),
                        Task::Once { .. } => true,
                    } by {
                        if i < self.idx {
                            assert(v.timers[i] == r0.timers[i]);
                        } else {
                            assert(v.timers[i] == r0.timers[i + 1]);
                        }
                    }
                    assert(match entry.task {
                        Task::Repeat { interval, .. } => interval < v.cancelled.len(),
                        Task::Once { .. } => true,
                    }) by {
                        assert(entry == r0.timers[self.idx as int]);
                    }
                }
                match entry.task {
                    Task::Once { callback } => {
                        self.phase = Phase::AfterTimer;
                        return Action::RunTimer { callback };
                    },
                    Task::Repeat { interval, period, callback } => {
                        if !reactor.intervals[interval] {
                            reactor.reschedule_interval(now, period, IntervalHandle { index: interval }, callback);
                            self.phase = Phase::AfterTimer;
                            return Action::RunTimer { callback };
                        } else {
                            return self.dispatch(reactor, now);
                        }
                    },
                }
            }
        }
        self.dispatch(reactor, now)
    }

    fn begin(&mut self, reactor: &Reactor, now: u64) -> (a: Action)
        ensures
            (final(self)@, reactor@, a) == begin(reactor@, now),
    {
        self.ready = Vec::new();
        self.next = 0;
        if reactor.quit || reactor.is_empty() {
            self.phase = Phase::Stopped;
            self.due = None;
            self.idx = 0;
            Action::Stop
        } else {
            let n = reactor.calculate_duration(now);
            self.phase = Phase::Waiting;
            self.due = n.fire_at;
            self.idx = n.idx;
            Action::Poll { timeout: n.duration }
        }
    }

    fn dispatch(&mut self, reactor: &Reactor, now: u64) -> (a: Action)
        ensures
            (final(self)@, reactor@, a) == dispatch(old(self)@, reactor@, now),
    {
        let ghost target = first_live(reactor@.listeners, old(self)@.ready, old(self)@.next as int);
        let mut i: usize = self.next;
        while i < self.ready.len()
            invariant
                *self == *old(self),
                target == first_live(reactor@.listeners, old(self)@.ready, old(self)@.next as int),
                first_live(reactor@.listeners, self.ready@, i as int) == target,
            decreases self.ready@.len() - i,
        {
            match reactor.listener(self.ready[i]) {
                Some(callback) => {
                    assert(target == i as int);
                    self.phase = Phase::AfterListener;
                    self.next = i + 1;
                    return Action::RunListener { callback, event: i };
                },
                None => {},
            }
            i = i + 1;
        }
        self.begin(reactor, now)
    }
}

} // verus!
