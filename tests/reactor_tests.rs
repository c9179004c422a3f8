use reactor::reactor::{Action, IntervalHandle, Reactor, RunLoop};
use reactor::timer::{nearest, Task, TimerEntry};
use reactor::token::Token;

#[test]
fn tokens_start_at_zero_and_increase() {
    let mut r = Reactor::new();
    let a = r.issue_token();
    let b = r.issue_token();
    let c = r.issue_token();
    assert_eq!(a, Token(0));
    assert_eq!(b, Token(1));
    assert_eq!(c, Token(2));
}

#[test]
fn earlier_timer_fires_first() {
    let mut r = Reactor::new();
    r.set_timeout(0, 100, 1);
    r.set_timeout(0, 50, 2);
    let mut lp = RunLoop::new();
    assert_eq!(lp.step(&mut r, 0, vec![]), Action::Poll { timeout: Some(50) });
    assert_eq!(lp.step(&mut r, 50, vec![]), Action::RunTimer { callback: 2 });
    assert_eq!(lp.step(&mut r, 50, vec![]), Action::Poll { timeout: Some(50) });
    assert_eq!(lp.step(&mut r, 100, vec![]), Action::RunTimer { callback: 1 });
    assert_eq!(lp.step(&mut r, 100, vec![]), Action::Stop);
    assert!(lp.is_stopped());
}

#[test]
fn overdue_timers_fire_by_deadline() {
    let mut r = Reactor::new();
    r.set_timeout(0, 30, 7);
    r.set_timeout(0, 10, 8);
    r.set_timeout(0, 20, 9);
    let mut lp = RunLoop::new();
    assert_eq!(lp.step(&mut r, 100, vec![]), Action::Poll { timeout: Some(0) });
    assert_eq!(lp.step(&mut r, 100, vec![]), Action::RunTimer { callback: 8 });
    assert_eq!(lp.step(&mut r, 100, vec![]), Action::Poll { timeout: Some(0) });
    assert_eq!(lp.step(&mut r, 100, vec![]), Action::RunTimer { callback: 9 });
    assert_eq!(lp.step(&mut r, 100, vec![]), Action::Poll { timeout: Some(0) });
    assert_eq!(lp.step(&mut r, 100, vec![]), Action::RunTimer { callback: 7 });
    assert_eq!(lp.step(&mut r, 100, vec![]), Action::Stop);
}

#[test]
fn timer_waits_when_poll_wakes_early() {
    let mut r = Reactor::new();
    let t = r.issue_token();
    r.set_event_listener(t, 4);
    r.set_timeout(0, 100, 1);
    let mut lp = RunLoop::new();
    assert_eq!(lp.step(&mut r, 0, vec![]), Action::Poll { timeout: Some(100) });
    assert_eq!(lp.step(&mut r, 40, vec![t]), Action::RunListener { callback: 4, event: 0 });
    assert_eq!(lp.step(&mut r, 40, vec![]), Action::Poll { timeout: Some(60) });
}

#[test]
fn cancelled_interval_runs_no_more() {
    let mut r = Reactor::new();
    let h = r.set_interval(0, 10, 5);
    assert!(!h.is_cancelled(&r));
    let mut lp = RunLoop::new();
    let mut runs = 0;
    let mut now: u64 = 0;
    loop {
        match lp.step(&mut r, now, vec![]) {
            Action::Poll { timeout } => now += timeout.unwrap(),
            Action::RunTimer { callback } => {
                assert_eq!(callback, 5);
                runs += 1;
                if runs == 3 {
                    h.cancel(&mut r);
                }
            }
            Action::Stop => break,
            Action::RunListener { .. } => panic!("no listener was registered"),
        }
    }
    assert_eq!(runs, 3);
    assert!(h.is_cancelled(&r));
    assert_eq!(now, 40);
}

#[test]
fn interval_reschedules_before_running() {
    let mut r = Reactor::new();
    r.set_interval(5, 10, 3);
    let mut lp = RunLoop::new();
    assert_eq!(lp.step(&mut r, 5, vec![]), Action::Poll { timeout: Some(10) });
    assert_eq!(lp.step(&mut r, 15, vec![]), Action::RunTimer { callback: 3 });
    let d = r.calculate_duration(15);
    assert_eq!(d.fire_at, Some(25));
    assert_eq!(d.duration, Some(10));
}

#[test]
fn removed_listener_is_skipped_in_batch() {
    let mut r = Reactor::new();
    let a = r.issue_token();
    let b = r.issue_token();
    r.set_event_listener(a, 10);
    r.set_event_listener(b, 11);
    let mut lp = RunLoop::new();
    assert_eq!(lp.step(&mut r, 0, vec![]), Action::Poll { timeout: None });
    assert_eq!(lp.step(&mut r, 0, vec![a, b]), Action::RunListener { callback: 10, event: 0 });
    r.remove_event_listener(b);
    assert_eq!(lp.step(&mut r, 0, vec![]), Action::Poll { timeout: None });
}

#[test]
fn quit_in_listener_drops_rest_of_batch() {
    let mut r = Reactor::new();
    let a = r.issue_token();
    let b = r.issue_token();
    r.set_event_listener(a, 10);
    r.set_event_listener(b, 11);
    let mut lp = RunLoop::new();
    assert_eq!(lp.step(&mut r, 0, vec![]), Action::Poll { timeout: None });
    assert_eq!(lp.step(&mut r, 0, vec![a, b]), Action::RunListener { callback: 10, event: 0 });
    r.quit();
    assert!(r.is_quit());
    assert_eq!(lp.step(&mut r, 0, vec![]), Action::Stop);
    assert!(lp.is_stopped());
    assert_eq!(lp.step(&mut r, 0, vec![a, b]), Action::Stop);
}

#[test]
fn quit_in_timer_skips_batch() {
    let mut r = Reactor::new();
    let a = r.issue_token();
    r.set_event_listener(a, 10);
    r.set_timeout(0, 0, 1);
    let mut lp = RunLoop::new();
    assert_eq!(lp.step(&mut r, 0, vec![]), Action::Poll { timeout: Some(0) });
    assert_eq!(lp.step(&mut r, 0, vec![a]), Action::RunTimer { callback: 1 });
    r.quit();
    assert_eq!(lp.step(&mut r, 0, vec![]), Action::Stop);
}

#[test]
fn idle_loop_stops_without_quit() {
    let mut r = Reactor::new();
    assert!(r.is_empty());
    let mut lp = RunLoop::new();
    assert_eq!(lp.step(&mut r, 0, vec![]), Action::Stop);
    assert!(!r.is_quit());
}

#[test]
fn loop_stops_once_last_listener_removes_itself() {
    let mut r = Reactor::new();
    let a = r.issue_token();
    r.set_event_listener(a, 10);
    let mut lp = RunLoop::new();
    assert_eq!(lp.step(&mut r, 0, vec![]), Action::Poll { timeout: None });
    assert_eq!(lp.step(&mut r, 0, vec![a]), Action::RunListener { callback: 10, event: 0 });
    r.remove_event_listener(a);
    assert_eq!(lp.step(&mut r, 0, vec![]), Action::Stop);
}

#[test]
fn readiness_event_reaches_its_listener_once() {
    let mut r = Reactor::new();
    let t = r.issue_token();
    r.set_event_listener(t, 42);
    let mut lp = RunLoop::new();
    assert_eq!(lp.step(&mut r, 0, vec![]), Action::Poll { timeout: None });
    let batch = vec![t];
    let action = lp.step(&mut r, 3, batch.clone());
    assert_eq!(action, Action::RunListener { callback: 42, event: 0 });
    if let Action::RunListener { event, .. } = action {
        assert_eq!(batch[event], t);
    }
    assert_eq!(lp.step(&mut r, 3, vec![]), Action::Poll { timeout: None });
}

#[test]
fn zero_timeout_runs_next_iteration_then_stops() {
    let mut r = Reactor::new();
    r.set_timeout(7, 0, 9);
    let mut lp = RunLoop::new();
    assert_eq!(lp.step(&mut r, 7, vec![]), Action::Poll { timeout: Some(0) });
    assert_eq!(lp.step(&mut r, 7, vec![]), Action::RunTimer { callback: 9 });
    assert_eq!(lp.step(&mut r, 7, vec![]), Action::Stop);
}

#[test]
fn missing_listener_is_skipped() {
    let mut r = Reactor::new();
    let a = r.issue_token();
    r.set_event_listener(a, 10);
    let mut lp = RunLoop::new();
    assert_eq!(lp.step(&mut r, 0, vec![]), Action::Poll { timeout: None });
    assert_eq!(
        lp.step(&mut r, 0, vec![Token(99), a]),
        Action::RunListener { callback: 10, event: 1 }
    );
}

#[test]
fn listener_replaced_and_removed() {
    let mut r = Reactor::new();
    let t = Token(5);
    assert_eq!(r.listener(t), None);
    r.set_event_listener(t, 1);
    r.set_event_listener(t, 2);
    assert_eq!(r.listener(t), Some(2));
    r.remove_event_listener(t);
    assert_eq!(r.listener(t), None);
    r.remove_event_listener(t);
    assert!(r.is_empty());
}

#[test]
fn nearest_picks_first_of_equal_deadlines() {
    let timers = vec![
        TimerEntry { fire_at: 20, task: Task::Once { callback: 0 } },
        TimerEntry { fire_at: 10, task: Task::Once { callback: 1 } },
        TimerEntry { fire_at: 10, task: Task::Once { callback: 2 } },
    ];
    let n = nearest(&timers, 4);
    assert_eq!(n.idx, 1);
    assert_eq!(n.fire_at, Some(10));
    assert_eq!(n.duration, Some(6));
    let n = nearest(&timers, 15);
    assert_eq!(n.duration, Some(0));
    let empty: Vec<TimerEntry> = Vec::new();
    let n = nearest(&empty, 0);
    assert_eq!(n.duration, None);
    assert_eq!(n.fire_at, None);
}

#[test]
fn timeout_deadline_saturates() {
    let mut r = Reactor::new();
    r.set_timeout(u64::MAX - 1, 10, 1);
    let d = r.calculate_duration(0);
    assert_eq!(d.fire_at, Some(u64::MAX));
}

#[test]
fn cancel_is_idempotent_and_ignores_unknown_handles() {
    let mut r = Reactor::new();
    let h = r.set_interval(0, 10, 1);
    h.cancel(&mut r);
    h.cancel(&mut r);
    assert!(h.is_cancelled(&r));
    let stranger = IntervalHandle { index: 9 };
    stranger.cancel(&mut r);
    assert!(stranger.is_cancelled(&r));
    let mut lp = RunLoop::new();
    assert_eq!(lp.step(&mut r, 0, vec![]), Action::Poll { timeout: Some(10) });
    assert_eq!(lp.step(&mut r, 10, vec![]), Action::Stop);
    assert!(r.is_empty());
}

#[test]
fn new_loop_starts_at_top() {
    let lp = RunLoop::new();
    assert!(!lp.is_stopped());
}

#[test]
fn counters_report_state() {
    let mut r = Reactor::new();
    assert_eq!(r.next_token(), 0);
    r.issue_token();
    assert_eq!(r.next_token(), 1);
    assert_eq!(r.interval_count(), 0);
    let h = r.set_interval(0, 1, 1);
    assert_eq!(h.index, 0);
    assert_eq!(r.interval_count(), 1);
}
