use vstd::prelude::*;

verus! {

/// What a timer does when it fires.
///
/// Times are whole milliseconds on a clock chosen by the caller; callbacks
/// are named by identifiers that the caller maps to code.
#[derive(Clone, Copy, Debug, PartialEq, Eq, Structural)]
pub enum Task {
    /// Run `callback` once.
    Once { callback: u64 },
    /// One occurrence of a repeating interval: unless the interval's flag is
    /// set, queue the next occurrence `period` later, then run `callback`.
    Repeat { interval: usize, period: u64, callback: u64 },
}

/// A pending deadline and what to do when it passes.
#[derive(Clone, Copy, Debug, PartialEq, Eq, Structural)]
pub struct TimerEntry {
    pub fire_at: u64,
    pub task: Task,
}

/// The nearest deadline of a timer list, as the run loop uses it.
#[derive(Clone, Copy, Debug, PartialEq, Eq, Structural)]
pub struct CalculateDurationResult {
    /// How long to wait for the nearest deadline; `None` means wait forever.
    pub duration: Option<u64>,
    /// The nearest deadline itself.
    pub fire_at: Option<u64>,
    /// The position of the entry that holds it.
    pub idx: usize,
}

/// `now + d`, held at the top of the clock's range.
pub open spec fn deadline(now: u64, d: u64) -> u64 {
    if now + d > u64::MAX {
        u64::MAX
    } else {
        (now + d) as u64
    }
}

/// Time left until `fire_at`, zero once it has passed.
pub open spec fn wait_until(now: u64, fire_at: u64) -> u64 {
    if fire_at > now {
        (fire_at - now) as u64
    } else {
        0
    }
}

/// Entry `i` has the smallest deadline of `timers`, and no earlier entry
/// has the same one.
pub open spec fn is_earliest(timers: Seq<TimerEntry>, i: int) -> bool {
    &&& 0 <= i < timers.len()
    &&& forall|j: int| 0 <= j < timers.len() ==> timers[i].fire_at <= #[trigger] timers[j].fire_at
    &&& forall|j: int| 0 <= j < i ==> timers[i].fire_at < #[trigger] timers[j].fire_at
}

/// The position that `is_earliest` picks (meaningful on a non-empty list).
pub open spec fn earliest(timers: Seq<TimerEntry>) -> int {
    choose|i: int| is_earliest(timers, i)
}

/// What `nearest` returns for `timers` at time `now`.
pub open spec fn nearest_spec(timers: Seq<TimerEntry>, now: u64) -> CalculateDurationResult {
    if timers.len() == 0 {
        CalculateDurationResult { duration: None, fire_at: None, idx: 0 }
    } else {
        let i = earliest(timers);
        CalculateDurationResult {
            duration: Some(wait_until(now, timers[i].fire_at)),
            fire_at: Some(timers[i].fire_at),
            idx: i as usize,
        }
    }
}

/// At most one position is the earliest.
pub proof fn lemma_earliest_unique(timers: Seq<TimerEntry>, i: int, k: int)
    requires
        is_earliest(timers, i),
        is_earliest(timers, k),
    ensures
        i == k,
{
    if i < k {
        assert(timers[k].fire_at < timers[i].fire_at);
    } else if k < i {
        assert(timers[i].fire_at < timers[k].fire_at);
    }
}

/// A position found to be the earliest is the one that `earliest` names.
pub proof fn lemma_earliest_is(timers: Seq<TimerEntry>, i: int)
    requires
        is_earliest(timers, i),
    ensures
        earliest(timers) == i,
{
    let k = earliest(timers);
    lemma_earliest_unique(timers, i, k);
}

/// Scans `timers` for the nearest deadline seen from `now`.
pub fn nearest(timers: &Vec<TimerEntry>, now: u64) -> (r: CalculateDurationResult)
    ensures
        r == nearest_spec(timers@, now),
        timers@.len() > 0 ==> is_earliest(timers@, r.idx as int),
{
    if timers.len() == 0 {
        return CalculateDurationResult { duration: None, fire_at: None, idx: 0 };
    }
    let mut idx: usize = 0;
    let mut i: usize = 1;
    while i < timers.len()
        invariant
            1 <= i <= timers@.len(),
            0 <= idx < i,
            forall|j: int| 0 <= j < i ==> timers@[idx as int].fire_at <= #[trigger] timers@[j].fire_at,
            forall|j: int| 0 <= j < idx ==> timers@[idx as int].fire_at < #[trigger] timers@[j].fire_at,
        decreases timers@.len() - i,
    {
        if timers[i].fire_at < timers[idx].fire_at {
            idx = i;
        }
        i = i + 1;
    }
    let fire_at = timers[idx].fire_at;
    let duration: u64 = if fire_at > now {
        fire_at - now
    } else {
        0
    };
    proof {
        lemma_earliest_is(timers@, idx as int);
    }
    CalculateDurationResult { duration: Some(duration), fire_at: Some(fire_at), idx }
}

} // verus!
