use vstd::prelude::*;

verus! {

/// How a stopwatch is configured by the view that hosts it.
#[derive(PartialEq, Eq, Structural, Clone, Copy, Debug)]
pub struct StopwatchProps {
    pub start: i32,
    pub progress: i32,
    pub end: i32,
    pub tick_interval_ms: u32,
}

/// The commands a stopwatch reacts to. `Tick` comes from the timer alone.
#[derive(PartialEq, Eq, Structural, Clone, Copy, Debug)]
pub enum StopwatchMsg {
    Start,
    Pause,
    Reset,
    Tick,
}

/// What the host must do with the one timer that the stopwatch owns.
#[derive(PartialEq, Eq, Structural, Clone, Copy, Debug)]
pub enum TimerAction {
    /// Leave the timer as it is.
    Keep,
    /// Start a timer that ticks every `interval_ms`, and drop it once
    /// `stop_after_ms` have passed: `ticks` ticks are due before then.
    Schedule { interval_ms: u32, ticks: u32, stop_after_ms: u64 },
    /// Drop the timer now, so that no tick fires any more.
    Cancel,
}

/// A progress counter that a repeating timer advances by one per tick.
pub struct Stopwatch {
    start: i32,
    progress: i32,
    end: i32,
    tick_interval_ms: u32,
    ticks_left: u32,
    running: bool,
}

/// The abstract state of a stopwatch.
pub struct StopwatchState {
    pub start: int,
    pub progress: int,
    pub end: int,
    pub tick_interval_ms: nat,
    /// Ticks still due from the timer that runs, fixed when it was scheduled.
    pub ticks_left: nat,
    pub running: bool,
}

impl View for Stopwatch {
    type V = StopwatchState;

    closed spec fn view(&self) -> StopwatchState {
        StopwatchState {
            start: self.start as int,
            progress: self.progress as int,
            end: self.end as int,
            tick_interval_ms: self.tick_interval_ms as nat,
            ticks_left: self.ticks_left as nat,
            running: self.running,
        }
    }
}

/// The values an `i32` holds.
pub open spec fn in_i32(x: int) -> bool {
    i32::MIN <= x <= i32::MAX
}

impl StopwatchState {
    /// The counter never falls below `start`; a timer runs exactly while
    /// ticks are due, and those ticks never carry the counter past `end`.
    pub open spec fn wf(self) -> bool {
        &&& in_i32(self.start) && in_i32(self.progress) && in_i32(self.end)
        &&& self.tick_interval_ms <= u32::MAX
        &&& self.start <= self.progress
        &&& self.running == (self.ticks_left > 0)
        &&& self.progress + self.ticks_left <= self.end || !self.running
    }

    /// Idle means no timer is held.
    pub open spec fn is_idle(self) -> bool {
        !self.running
    }
}

/// The state after `msg`. A start schedules the ticks that take the counter
/// to `end`, once; at or past `end` there is nothing to count and it does
/// nothing. A reset rewinds the counter and leaves the timer running.
pub open spec fn next(s: StopwatchState, msg: StopwatchMsg) -> StopwatchState {
    match msg {
        StopwatchMsg::Start => if s.running || s.progress >= s.end {
            s
        } else {
            StopwatchState { ticks_left: (s.end - s.progress) as nat, running: true, ..s }
        },
        StopwatchMsg::Pause => StopwatchState { ticks_left: 0, running: false, ..s },
        StopwatchMsg::Reset => StopwatchState { progress: s.start, ..s },
        StopwatchMsg::Tick => if s.running {
            StopwatchState {
                progress: s.progress + 1,
                ticks_left: (s.ticks_left - 1) as nat,
                running: s.ticks_left > 1,
                ..s
            }
        } else {
            s
        },
    }
}

/// What the host must do with the timer on `msg`.
pub open spec fn action(s: StopwatchState, msg: StopwatchMsg) -> TimerAction {
    match msg {
        StopwatchMsg::Start => if s.running || s.progress >= s.end {
            TimerAction::Keep
        } else {
            schedule_for(s.tick_interval_ms, (s.end - s.progress) as nat)
        },
        StopwatchMsg::Pause => if s.running {
            TimerAction::Cancel
        } else {
            TimerAction::Keep
        },
        StopwatchMsg::Reset => TimerAction::Keep,
        StopwatchMsg::Tick => if s.running && s.ticks_left == 1 {
            TimerAction::Cancel
        } else {
            TimerAction::Keep
        },
    }
}

/// A timer for `ticks` ticks, dropped one interval after the last of them.
pub open spec fn schedule_for(interval_ms: nat, ticks: nat) -> TimerAction {
    TimerAction::Schedule {
        interval_ms: interval_ms as u32,
        ticks: ticks as u32,
        stop_after_ms: ((ticks + 1) * interval_ms) as u64,
    }
}

/// The state after the view that owns the stopwatch is torn down.
pub open spec fn torn_down(s: StopwatchState) -> StopwatchState {
    StopwatchState { ticks_left: 0, running: false, ..s }
}

/// The state after `n` ticks.
pub open spec fn after_ticks(s: StopwatchState, n: nat) -> StopwatchState
    decreases n,
{
    if n == 0 {
        s
    } else {
        after_ticks(next(s, StopwatchMsg::Tick), (n - 1) as nat)
    }
}

/// While a timer runs, each of the next `k` ticks adds exactly one to the
/// counter, until the ticks fixed at scheduling time are spent.
pub proof fn lemma_ticks_advance(s: StopwatchState, k: nat)
    requires
        s.running,
        0 < s.ticks_left,
        k <= s.ticks_left,
    ensures
        after_ticks(s, k) == (StopwatchState {
            progress: s.progress + k,
            ticks_left: (s.ticks_left - k) as nat,
            running: k < s.ticks_left,
            ..s
        }),
    decreases k,
{
    if k > 0 {
        let t = next(s, StopwatchMsg::Tick);
        assert(after_ticks(s, k) == after_ticks(t, (k - 1) as nat));
        if k > 1 {
            lemma_ticks_advance(t, (k - 1) as nat);
        } else {
            assert(after_ticks(t, 0) == t);
        }
    }
}

/// Ticks that come while no timer runs change nothing.
pub proof fn lemma_idle_ignores_ticks(s: StopwatchState, n: nat)
    requires
        s.is_idle(),
    ensures
        after_ticks(s, n) == s,
    decreases n,
{
    if n > 0 {
        lemma_idle_ignores_ticks(s, (n - 1) as nat);
    }
}

/// Started from `start` below `end`, the stopwatch schedules one timer, and
/// after `end - start` ticks the counter stands at `end` and the stopwatch is
/// idle again.
pub proof fn lemma_start_runs_to_end(s: StopwatchState)
    requires
        s.wf(),
        s.is_idle(),
        s.progress == s.start,
        s.start < s.end,
    ensures
        action(s, StopwatchMsg::Start) == schedule_for(
            s.tick_interval_ms,
            (s.end - s.start) as nat,
        ),
        after_ticks(next(s, StopwatchMsg::Start), (s.end - s.start) as nat).progress == s.end,
        after_ticks(next(s, StopwatchMsg::Start), (s.end - s.start) as nat).is_idle(),
{
    lemma_ticks_advance(next(s, StopwatchMsg::Start), (s.end - s.start) as nat);
}

/// A pause then a start keeps the counter where it stood, and from there each
/// tick adds exactly one until `end`: none is skipped or counted twice. The
/// old timer is dropped, one new timer is scheduled, and a further start while
/// it runs schedules no second one.
pub proof fn lemma_pause_then_start_resumes(s: StopwatchState, k: nat)
    requires
        s.wf(),
        s.running,
        k <= s.end - s.progress,
    ensures
        action(s, StopwatchMsg::Pause) == TimerAction::Cancel,
        action(next(s, StopwatchMsg::Pause), StopwatchMsg::Start) == schedule_for(
            s.tick_interval_ms,
            (s.end - s.progress) as nat,
        ),
        next(next(s, StopwatchMsg::Pause), StopwatchMsg::Start).progress == s.progress,
        action(
            next(next(s, StopwatchMsg::Pause), StopwatchMsg::Start),
            StopwatchMsg::Start,
        ) == TimerAction::Keep,
        after_ticks(next(next(s, StopwatchMsg::Pause), StopwatchMsg::Start), k).progress
            == s.progress + k,
{
    lemma_ticks_advance(next(next(s, StopwatchMsg::Pause), StopwatchMsg::Start), k);
}

/// A reset puts the counter back at `start` from any state, and leaves the
/// timer as it is.
pub proof fn lemma_reset_rewinds(s: StopwatchState)
    ensures
        next(s, StopwatchMsg::Reset).progress == s.start,
        next(s, StopwatchMsg::Reset).running == s.running,
        next(s, StopwatchMsg::Reset).ticks_left == s.ticks_left,
        action(s, StopwatchMsg::Reset) == TimerAction::Keep,
        s.wf() ==> next(s, StopwatchMsg::Reset).wf(),
{
}

/// A pause while idle changes nothing and touches no timer.
pub proof fn lemma_pause_when_idle(s: StopwatchState)
    requires
        s.wf(),
        s.is_idle(),
    ensures
        next(s, StopwatchMsg::Pause) == s,
        action(s, StopwatchMsg::Pause) == TimerAction::Keep,
{
}

/// Once the view is torn down no timer is held, and no tick that still
/// arrives changes the state.
pub proof fn lemma_teardown_silences(s: StopwatchState, n: nat)
    requires
        s.wf(),
    ensures
        torn_down(s).wf(),
        torn_down(s).is_idle(),
        after_ticks(torn_down(s), n) == torn_down(s),
{
    lemma_idle_ignores_ticks(torn_down(s), n);
}

impl Stopwatch {
    /// A stopwatch at rest, with the counter where `props` puts it.
    pub fn create(props: &StopwatchProps) -> (r: Stopwatch)
        requires
            props.start <= props.progress,
        ensures
            r@.wf(),
            r@.start == props.start,
            r@.progress == props.progress,
            r@.end == props.end,
            r@.tick_interval_ms == props.tick_interval_ms,
            r@.is_idle(),
            r@.ticks_left == 0,
    {
        Stopwatch {
            start: props.start,
            progress: props.progress,
            end: props.end,
            tick_interval_ms: props.tick_interval_ms,
            ticks_left: 0,
            running: false,
        }
    }

    /// Holds `wf` of the stopwatch's state at all times.
    #[verifier::type_invariant]
    spec fn inv(self) -> bool {
        self@.wf()
    }

    /// Applies `msg` and says what to do with the timer.
    pub fn update(&mut self, msg: StopwatchMsg) -> (r: TimerAction)
        ensures
            final(self)@.wf(),
            final(self)@ == next(old(self)@, msg),
            r == action(old(self)@, msg),
    {
        proof {
            use_type_invariant(&*self);
        }
        match msg {
            StopwatchMsg::Start => {
                if self.running || self.progress >= self.end {
                    TimerAction::Keep
                } else {
                    let ticks = (self.end as i64 - self.progress as i64) as u32;
                    let interval = self.tick_interval_ms;
                    assert((ticks as int + 1) * (interval as int) <= u64::MAX) by (nonlinear_arith)
                        requires
                            ticks <= u32::MAX,
                            interval <= u32::MAX,
                    ;
                    *self = Stopwatch { ticks_left: ticks, running: true, ..*self };
                    TimerAction::Schedule {
                        interval_ms: interval,
                        ticks,
                        stop_after_ms: (ticks as u64 + 1) * interval as u64,
                    }
                }
            },
            StopwatchMsg::Pause => self.destroy(),
            StopwatchMsg::Reset => {
                *self = Stopwatch { progress: self.start, ..*self };
                TimerAction::Keep
            },
            StopwatchMsg::Tick => {
                if self.running {
                    let ticks_left = self.ticks_left - 1;
                    *self = Stopwatch {
                        progress: self.progress + 1,
                        ticks_left,
                        running: ticks_left > 0,
                        ..*self
                    };
                    if ticks_left > 0 {
                        TimerAction::Keep
                    } else {
                        TimerAction::Cancel
                    }
                } else {
                    TimerAction::Keep
                }
            },
        }
    }

    /// Drops the timer, if one runs, so that no tick comes any more: what a
    /// pause does, and what the view must do when it is torn down.
    pub fn destroy(&mut self) -> (r: TimerAction)
        ensures
            final(self)@.wf(),
            final(self)@ == torn_down(old(self)@),
            r == (if old(self)@.running {
                TimerAction::Cancel
            } else {
                TimerAction::Keep
            }),
    {
        proof {
            use_type_invariant(&*self);
        }
        let was_running = self.running;
        *self = Stopwatch { ticks_left: 0, running: false, ..*self };
        if was_running {
            TimerAction::Cancel
        } else {
            TimerAction::Keep
        }
    }

    /// The command that the dial's button sends: pause a running stopwatch,
    /// start an idle one.
    pub fn toggle_msg(&self) -> (r: StopwatchMsg)
        ensures
            r == (if self@.running {
                StopwatchMsg::Pause
            } else {
                StopwatchMsg::Start
            }),
    {
        if self.running {
            StopwatchMsg::Pause
        } else {
            StopwatchMsg::Start
        }
    }

    pub fn progress(&self) -> (r: i32)
        ensures
            r == self@.progress,
    {
        self.progress
    }

    pub fn end(&self) -> (r: i32)
        ensures
            r == self@.end,
    {
        self.end
    }

    pub fn is_running(&self) -> (r: bool)
        ensures
            r == self@.running,
    {
        self.running
    }
}

} // verus!
