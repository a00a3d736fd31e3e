use dial::stopwatch::{Stopwatch, StopwatchMsg, StopwatchProps, TimerAction};

fn make(start: i32, progress: i32, end: i32, tick_interval_ms: u32) -> Stopwatch {
    Stopwatch::create(&StopwatchProps {
        start,
        progress,
        end,
        tick_interval_ms,
    })
}

#[test]
fn create_is_idle_at_the_given_progress() {
    let w = make(0, 50, 100, 1000);
    assert_eq!(w.progress(), 50);
    assert_eq!(w.end(), 100);
    assert!(!w.is_running());
    assert_eq!(w.toggle_msg(), StopwatchMsg::Start);
}

#[test]
fn start_then_all_ticks_reaches_end_and_idles() {
    let mut w = make(3, 3, 8, 250);
    assert_eq!(
        w.update(StopwatchMsg::Start),
        TimerAction::Schedule {
            interval_ms: 250,
            ticks: 5,
            stop_after_ms: 1500
        }
    );
    assert!(w.is_running());
    for i in 1..5 {
        assert_eq!(w.update(StopwatchMsg::Tick), TimerAction::Keep);
        assert_eq!(w.progress(), 3 + i);
        assert!(w.is_running());
    }
    assert_eq!(w.update(StopwatchMsg::Tick), TimerAction::Cancel);
    assert_eq!(w.progress(), 8);
    assert!(!w.is_running());
    assert_eq!(w.update(StopwatchMsg::Tick), TimerAction::Keep);
    assert_eq!(w.progress(), 8);
}

#[test]
fn start_schedules_remaining_ticks_from_progress() {
    let mut w = make(0, 50, 100, 1000);
    assert_eq!(
        w.update(StopwatchMsg::Start),
        TimerAction::Schedule {
            interval_ms: 1000,
            ticks: 50,
            stop_after_ms: 51000
        }
    );
}

#[test]
fn start_while_running_schedules_nothing() {
    let mut w = make(0, 0, 10, 1000);
    w.update(StopwatchMsg::Start);
    w.update(StopwatchMsg::Tick);
    assert_eq!(w.update(StopwatchMsg::Start), TimerAction::Keep);
    assert_eq!(w.progress(), 1);
    assert!(w.is_running());
}

#[test]
fn start_at_end_stays_idle() {
    let mut w = make(0, 10, 10, 1000);
    assert_eq!(w.update(StopwatchMsg::Start), TimerAction::Keep);
    assert!(!w.is_running());
    let mut v = make(0, 12, 10, 1000);
    assert_eq!(v.update(StopwatchMsg::Start), TimerAction::Keep);
    assert!(!v.is_running());
}

#[test]
fn pause_then_start_resumes_without_skipping() {
    let mut w = make(0, 0, 4, 100);
    w.update(StopwatchMsg::Start);
    w.update(StopwatchMsg::Tick);
    assert_eq!(w.toggle_msg(), StopwatchMsg::Pause);
    assert_eq!(w.update(StopwatchMsg::Pause), TimerAction::Cancel);
    assert_eq!(w.progress(), 1);
    assert_eq!(w.update(StopwatchMsg::Tick), TimerAction::Keep);
    assert_eq!(w.progress(), 1);
    assert_eq!(
        w.update(StopwatchMsg::Start),
        TimerAction::Schedule {
            interval_ms: 100,
            ticks: 3,
            stop_after_ms: 400
        }
    );
    assert_eq!(w.progress(), 1);
    w.update(StopwatchMsg::Tick);
    assert_eq!(w.progress(), 2);
    w.update(StopwatchMsg::Tick);
    assert_eq!(w.progress(), 3);
    assert_eq!(w.update(StopwatchMsg::Tick), TimerAction::Cancel);
    assert_eq!(w.progress(), 4);
    assert!(!w.is_running());
}

#[test]
fn reset_rewinds_and_keeps_running() {
    let mut w = make(2, 2, 10, 1000);
    w.update(StopwatchMsg::Start);
    w.update(StopwatchMsg::Tick);
    w.update(StopwatchMsg::Tick);
    assert_eq!(w.progress(), 4);
    assert_eq!(w.update(StopwatchMsg::Reset), TimerAction::Keep);
    assert_eq!(w.progress(), 2);
    assert!(w.is_running());
    w.update(StopwatchMsg::Tick);
    assert_eq!(w.progress(), 3);
}

#[test]
fn reset_while_idle_stays_idle() {
    let mut w = make(1, 7, 10, 1000);
    assert_eq!(w.update(StopwatchMsg::Reset), TimerAction::Keep);
    assert_eq!(w.progress(), 1);
    assert!(!w.is_running());
}

#[test]
fn reset_while_running_keeps_the_scheduled_tick_count() {
    let mut w = make(0, 0, 3, 1000);
    w.update(StopwatchMsg::Start);
    w.update(StopwatchMsg::Tick);
    w.update(StopwatchMsg::Reset);
    w.update(StopwatchMsg::Tick);
    assert_eq!(w.update(StopwatchMsg::Tick), TimerAction::Cancel);
    assert_eq!(w.progress(), 2);
    assert!(!w.is_running());
}

#[test]
fn pause_while_idle_is_a_no_op() {
    let mut w = make(0, 5, 10, 1000);
    assert_eq!(w.update(StopwatchMsg::Pause), TimerAction::Keep);
    assert_eq!(w.progress(), 5);
    assert!(!w.is_running());
}

#[test]
fn destroy_while_running_cancels_and_silences_ticks() {
    let mut w = make(0, 0, 10, 1000);
    w.update(StopwatchMsg::Start);
    w.update(StopwatchMsg::Tick);
    assert_eq!(w.destroy(), TimerAction::Cancel);
    assert!(!w.is_running());
    assert_eq!(w.update(StopwatchMsg::Tick), TimerAction::Keep);
    assert_eq!(w.progress(), 1);
}

#[test]
fn destroy_while_idle_keeps() {
    let mut w = make(0, 0, 10, 1000);
    assert_eq!(w.destroy(), TimerAction::Keep);
}

#[test]
fn widest_range_schedules_without_overflow() {
    let mut w = make(i32::MIN, i32::MIN, i32::MAX, u32::MAX);
    assert_eq!(
        w.update(StopwatchMsg::Start),
        TimerAction::Schedule {
            interval_ms: u32::MAX,
            ticks: u32::MAX,
            stop_after_ms: (u32::MAX as u64 + 1) * u32::MAX as u64
        }
    );
}

#[test]
fn last_tick_at_i32_max() {
    let mut w = make(i32::MAX - 1, i32::MAX - 1, i32::MAX, 1);
    w.update(StopwatchMsg::Start);
    assert_eq!(w.update(StopwatchMsg::Tick), TimerAction::Cancel);
    assert_eq!(w.progress(), i32::MAX);
}
