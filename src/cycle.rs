//! The break-cycle state machine and the rest escalation policy.
use vstd::prelude::*;

verus! {

/// The coarse phase of the cycle.
#[derive(Clone, Copy, Debug, PartialEq, Eq, Structural)]
pub enum Mode {
    Work,
    Rest,
}

/// The escalation category of one rest occurrence.
#[derive(Clone, Copy, Debug, PartialEq, Eq, Structural)]
pub enum RestType {
    EyeRest,
    Water,
    Walk,
}

/// Which reminder applies to the rest numbered `count`: walking takes
/// priority over drinking water, which takes priority over a plain eye rest.
pub open spec fn rest_type_for(count: int, water_interval: int, walk_interval: int) -> RestType {
    if count % walk_interval == 0 {
        RestType::Walk
    } else if count % water_interval == 0 {
        RestType::Water
    } else {
        RestType::EyeRest
    }
}

/// Resolves the reminder category for the rest numbered `eye_rest_count`.
pub fn resolve_rest_type(eye_rest_count: u32, water_interval: u32, walk_interval: u32) -> (r: RestType)
    requires
        water_interval > 0,
        walk_interval > 0,
    ensures
        r == rest_type_for(eye_rest_count as int, water_interval as int, walk_interval as int),
{
    if eye_rest_count % walk_interval == 0 {
        RestType::Walk
    } else if eye_rest_count % water_interval == 0 {
        RestType::Water
    } else {
        RestType::EyeRest
    }
}

/// Walking takes priority: a rest whose number is a multiple of the walking
/// interval is a walking rest, whatever the water interval.
pub proof fn lemma_walk_takes_priority(count: int, water_interval: int, walk_interval: int)
    requires
        walk_interval > 0,
        count % walk_interval == 0,
    ensures
        rest_type_for(count, water_interval, walk_interval) == RestType::Walk,
{
}

/// The first rest is a plain eye rest whenever both intervals are at least
/// two.
pub proof fn lemma_first_rest_is_plain(water_interval: int, walk_interval: int)
    requires
        water_interval >= 2,
        walk_interval >= 2,
    ensures
        rest_type_for(1, water_interval, walk_interval) == RestType::EyeRest,
{
    assert(1int % walk_interval == 1) by (nonlinear_arith)
        requires
            walk_interval >= 2,
    ;
    assert(1int % water_interval == 1) by (nonlinear_arith)
        requires
            water_interval >= 2,
    ;
}

/// Milliseconds in one minute and in one second.
pub const MS_PER_MINUTE: u64 = 60_000;
pub const MS_PER_SECOND: u64 = 1_000;

/// Valid ranges of the user-facing settings.
pub const WORK_MINUTES_MIN: i32 = 1;
pub const WORK_MINUTES_MAX: i32 = 180;
pub const REST_SECONDS_MIN: i32 = 5;
pub const REST_SECONDS_MAX: i32 = 300;
pub const INTERVAL_MIN: i32 = 1;
pub const INTERVAL_MAX: i32 = 20;

/// Settings at startup.
pub const DEFAULT_WORK_MINUTES: u64 = 20;
pub const DEFAULT_REST_SECONDS: u64 = 20;
pub const DEFAULT_WATER_INTERVAL: u32 = 2;
pub const DEFAULT_WALK_INTERVAL: u32 = 3;

/// `v` moved to the nearest point of `[lo, hi]`.
pub open spec fn clamp_to(v: int, lo: int, hi: int) -> int {
    if v < lo {
        lo
    } else if v > hi {
        hi
    } else {
        v
    }
}

/// Clamps a setting to its valid range.
pub fn clamp_setting(v: i32, lo: i32, hi: i32) -> (r: i32)
    requires
        lo <= hi,
    ensures
        r == clamp_to(v as int, lo as int, hi as int),
{
    if v < lo {
        lo
    } else if v > hi {
        hi
    } else {
        v
    }
}

/// The mathematical state of the cycle. Instants are milliseconds of a
/// monotonic clock; durations are milliseconds.
pub struct CycleView {
    pub mode: Mode,
    pub start: int,
    pub last_tick: int,
    pub paused: bool,
    pub work: int,
    pub rest: int,
    pub water_interval: int,
    pub walk_interval: int,
    pub eye_rest_count: int,
    pub rest_type: RestType,
}

impl CycleView {
    /// The length of the current mode.
    pub open spec fn limit(self) -> int {
        match self.mode {
            Mode::Work => self.work,
            Mode::Rest => self.rest,
        }
    }

    /// Time spent in the current mode as of the instant `now`.
    pub open spec fn elapsed_at(self, now: int) -> int {
        now - self.start
    }

    /// The invariant of a live cycle: the mode began no later than the last
    /// tick, and every setting lies in its valid range.
    pub open spec fn wf(self) -> bool {
        &&& 0 <= self.start <= self.last_tick <= u64::MAX
        &&& WORK_MINUTES_MIN * MS_PER_MINUTE <= self.work <= WORK_MINUTES_MAX * MS_PER_MINUTE
        &&& REST_SECONDS_MIN * MS_PER_SECOND <= self.rest <= REST_SECONDS_MAX * MS_PER_SECOND
        &&& INTERVAL_MIN <= self.water_interval <= INTERVAL_MAX
        &&& INTERVAL_MIN <= self.walk_interval <= INTERVAL_MAX
        &&& 0 <= self.eye_rest_count <= u32::MAX
    }
}

/// What one clock tick asks of the surroundings.
#[derive(Clone, Copy, Debug, PartialEq, Eq, Structural)]
pub enum TickOutcome {
    /// The cycle is paused: time stands still, nothing to show.
    Paused,
    /// Work ended: a rest of `rest_ms` begins, with the given reminder.
    RestBegins { rest_type: RestType, rest_ms: u64 },
    /// Rest ended: a work period of `work_ms` begins.
    WorkBegins { work_ms: u64 },
    /// No transition: `remaining_ms` of the current mode's `limit_ms` are left.
    Countdown { mode: Mode, remaining_ms: u64, limit_ms: u64 },
}

/// The state at startup, working from the instant `now`.
pub open spec fn initial_cycle(now: int) -> CycleView {
    CycleView {
        mode: Mode::Work,
        start: now,
        last_tick: now,
        paused: false,
        work: DEFAULT_WORK_MINUTES * MS_PER_MINUTE,
        rest: DEFAULT_REST_SECONDS * MS_PER_SECOND,
        water_interval: DEFAULT_WATER_INTERVAL as int,
        walk_interval: DEFAULT_WALK_INTERVAL as int,
        eye_rest_count: 0,
        rest_type: RestType::EyeRest,
    }
}

/// The state after a clock tick at `now`.
pub open spec fn tick_step(s: CycleView, now: int) -> CycleView {
    if s.paused {
        CycleView { start: s.start + (now - s.last_tick), last_tick: now, ..s }
    } else if s.elapsed_at(now) >= s.limit() {
        match s.mode {
            Mode::Work => CycleView {
                mode: Mode::Rest,
                start: now,
                last_tick: now,
                eye_rest_count: s.eye_rest_count + 1,
                rest_type: rest_type_for(
                    s.eye_rest_count + 1,
                    s.water_interval,
                    s.walk_interval,
                ),
                ..s
            },
            Mode::Rest => CycleView { mode: Mode::Work, start: now, last_tick: now, ..s },
        }
    } else {
        CycleView { last_tick: now, ..s }
    }
}

/// What a clock tick at `now` reports.
pub open spec fn tick_outcome(s: CycleView, now: int) -> TickOutcome {
    if s.paused {
        TickOutcome::Paused
    } else if s.elapsed_at(now) >= s.limit() {
        match s.mode {
            Mode::Work => TickOutcome::RestBegins {
                rest_type: rest_type_for(
                    s.eye_rest_count + 1,
                    s.water_interval,
                    s.walk_interval,
                ),
                rest_ms: s.rest as u64,
            },
            Mode::Rest => TickOutcome::WorkBegins { work_ms: s.work as u64 },
        }
    } else {
        TickOutcome::Countdown {
            mode: s.mode,
            remaining_ms: (s.limit() - s.elapsed_at(now)) as u64,
            limit_ms: s.limit() as u64,
        }
    }
}

/// The state after the secondary (skip/reset) action at `now`: the current
/// countdown restarts, and a rest ends at once.
pub open spec fn skip_step(s: CycleView, now: int) -> CycleView {
    CycleView { mode: Mode::Work, start: now, last_tick: now, ..s }
}

/// The state after the pause switch is flipped.
pub open spec fn toggle_pause_step(s: CycleView) -> CycleView {
    CycleView { paused: !s.paused, ..s }
}

/// The state after clock ticks at each of `times`, in order.
pub open spec fn tick_all(s: CycleView, times: Seq<int>) -> CycleView
    decreases times.len(),
{
    if times.len() == 0 {
        s
    } else {
        tick_all(tick_step(s, times[0]), times.drop_first())
    }
}

/// The break-cycle state machine: mode, timing, pause, settings and the
/// rest counter.
pub struct BreakCycle {
    mode: Mode,
    start_ms: u64,
    last_tick_ms: u64,
    is_paused: bool,
    work_ms: u64,
    rest_ms: u64,
    water_interval: u32,
    walk_interval: u32,
    eye_rest_count: u32,
    current_rest_type: RestType,
}

impl View for BreakCycle {
    type V = CycleView;

    closed spec fn view(&self) -> CycleView {
        CycleView {
            mode: self.mode,
            start: self.start_ms as int,
            last_tick: self.last_tick_ms as int,
            paused: self.is_paused,
            work: self.work_ms as int,
            rest: self.rest_ms as int,
            water_interval: self.water_interval as int,
            walk_interval: self.walk_interval as int,
            eye_rest_count: self.eye_rest_count as int,
            rest_type: self.current_rest_type,
        }
    }
}

impl BreakCycle {
    /// A cycle with the startup settings, working from the instant `now`.
    pub fn new(now: u64) -> (r: BreakCycle)
        ensures
            r@.wf(),
            r@ == initial_cycle(now as int),
    {
        BreakCycle {
            mode: Mode::Work,
            start_ms: now,
            last_tick_ms: now,
            is_paused: false,
            work_ms: DEFAULT_WORK_MINUTES * MS_PER_MINUTE,
            rest_ms: DEFAULT_REST_SECONDS * MS_PER_SECOND,
            water_interval: DEFAULT_WATER_INTERVAL,
            walk_interval: DEFAULT_WALK_INTERVAL,
            eye_rest_count: 0,
            current_rest_type: RestType::EyeRest,
        }
    }

    /// Advances the cycle to the instant `now` of the monotonic clock.
    pub fn tick(&mut self, now: u64) -> (r: TickOutcome)
        requires
            old(self)@.wf(),
            old(self)@.last_tick <= now,
            old(self)@.eye_rest_count < u32::MAX,
        ensures
            final(self)@ == tick_step(old(self)@, now as int),
            final(self)@.wf(),
            r == tick_outcome(old(self)@, now as int),
    {
        if self.is_paused {
            let paused_for = now - self.last_tick_ms;
            self.start_ms = self.start_ms + paused_for;
            self.last_tick_ms = now;
            return TickOutcome::Paused;
        }
        self.last_tick_ms = now;
        let elapsed = now - self.start_ms;
        let limit = match self.mode {
            Mode::Work => self.work_ms,
            Mode::Rest => self.rest_ms,
        };
        if elapsed >= limit {
            self.start_ms = now;
            match self.mode {
                Mode::Work => {
                    self.mode = Mode::Rest;
                    self.eye_rest_count = self.eye_rest_count + 1;
                    self.current_rest_type = resolve_rest_type(
                        self.eye_rest_count,
                        self.water_interval,
                        self.walk_interval,
                    );
                    TickOutcome::RestBegins {
                        rest_type: self.current_rest_type,
                        rest_ms: self.rest_ms,
                    }
                },
                Mode::Rest => {
                    self.mode = Mode::Work;
                    TickOutcome::WorkBegins { work_ms: self.work_ms }
                },
            }
        } else {
            TickOutcome::Countdown { mode: self.mode, remaining_ms: limit - elapsed, limit_ms: limit }
        }
    }

    /// The current mode.
    pub fn mode(&self) -> (r: Mode)
        ensures
            r == self@.mode,
    {
        self.mode
    }

    /// Whether the cycle is paused.
    pub fn is_paused(&self) -> (r: bool)
        ensures
            r == self@.paused,
    {
        self.is_paused
    }

    /// How many rests have begun since startup.
    pub fn eye_rest_count(&self) -> (r: u32)
        ensures
            r == self@.eye_rest_count,
    {
        self.eye_rest_count
    }

    /// The reminder category of the latest rest.
    pub fn current_rest_type(&self) -> (r: RestType)
        ensures
            r == self@.rest_type,
    {
        self.current_rest_type
    }

    /// The instant the current mode began, moved on by the time spent
    /// paused.
    pub fn start_ms(&self) -> (r: u64)
        ensures
            r == self@.start,
    {
        self.start_ms
    }

    /// The instant of the latest tick.
    pub fn last_tick_ms(&self) -> (r: u64)
        ensures
            r == self@.last_tick,
    {
        self.last_tick_ms
    }

    /// The work length in milliseconds.
    pub fn work_ms(&self) -> (r: u64)
        ensures
            r == self@.work,
    {
        self.work_ms
    }

    /// The rest length in milliseconds.
    pub fn rest_ms(&self) -> (r: u64)
        ensures
            r == self@.rest,
    {
        self.rest_ms
    }

    /// The work length in whole minutes.
    pub fn work_minutes(&self) -> (r: u64)
        ensures
            r == self@.work / (MS_PER_MINUTE as int),
    {
        self.work_ms / MS_PER_MINUTE
    }

    /// The rest length in whole seconds.
    pub fn rest_seconds(&self) -> (r: u64)
        ensures
            r == self@.rest / (MS_PER_SECOND as int),
    {
        self.rest_ms / MS_PER_SECOND
    }

    /// How many rests apart the water reminder comes.
    pub fn water_interval(&self) -> (r: u32)
        ensures
            r == self@.water_interval,
    {
        self.water_interval
    }

    /// How many rests apart the walking reminder comes.
    pub fn walk_interval(&self) -> (r: u32)
        ensures
            r == self@.walk_interval,
    {
        self.walk_interval
    }

    /// Flips the pause switch and returns its new position.
    pub fn toggle_pause(&mut self) -> (paused: bool)
        requires
            old(self)@.wf(),
        ensures
            final(self)@ == toggle_pause_step(old(self)@),
            final(self)@.wf(),
            paused == final(self)@.paused,
    {
        self.is_paused = !self.is_paused;
        self.is_paused
    }

    /// The secondary (skip/reset) action at `now`: during work the countdown
    /// restarts; during a rest the rest ends at once. Returns whether a rest
    /// was ended.
    pub fn secondary_action(&mut self, now: u64) -> (ended_rest: bool)
        requires
            old(self)@.wf(),
            old(self)@.last_tick <= now,
        ensures
            final(self)@ == skip_step(old(self)@, now as int),
            final(self)@.wf(),
            ended_rest == (old(self)@.mode == Mode::Rest),
    {
        let ended_rest = self.mode == Mode::Rest;
        self.start_ms = now;
        self.last_tick_ms = now;
        self.mode = Mode::Work;
        ended_rest
    }

    /// Sets the work length to `minutes`, clamped to its valid range, and
    /// returns the minutes applied. During work the countdown restarts at
    /// `now` so that the new length takes effect at once.
    pub fn apply_work_minutes(&mut self, minutes: i32, now: u64) -> (applied: i32)
        requires
            old(self)@.wf(),
            old(self)@.last_tick <= now,
        ensures
            applied == clamp_to(minutes as int, WORK_MINUTES_MIN as int, WORK_MINUTES_MAX as int),
            final(self)@.wf(),
            old(self)@.mode == Mode::Work ==> final(self)@ == (CycleView {
                work: applied * MS_PER_MINUTE,
                start: now as int,
                last_tick: now as int,
                ..old(self)@
            }),
            old(self)@.mode == Mode::Rest ==> final(self)@ == (CycleView {
                work: applied * MS_PER_MINUTE,
                ..old(self)@
            }),
    {
        let applied = clamp_setting(minutes, WORK_MINUTES_MIN, WORK_MINUTES_MAX);
        self.work_ms = applied as u64 * MS_PER_MINUTE;
        if self.mode == Mode::Work {
            self.start_ms = now;
            self.last_tick_ms = now;
        }
        applied
    }

    /// Sets the rest length to `seconds`, clamped to its valid range, and
    /// returns the seconds applied.
    pub fn apply_rest_seconds(&mut self, seconds: i32) -> (applied: i32)
        requires
            old(self)@.wf(),
        ensures
            applied == clamp_to(seconds as int, REST_SECONDS_MIN as int, REST_SECONDS_MAX as int),
            final(self)@.wf(),
            final(self)@ == (CycleView { rest: applied * MS_PER_SECOND, ..old(self)@ }),
    {
        let applied = clamp_setting(seconds, REST_SECONDS_MIN, REST_SECONDS_MAX);
        self.rest_ms = applied as u64 * MS_PER_SECOND;
        applied
    }

    /// Sets how many rests apart the water reminder comes, clamped to its
    /// valid range, and returns the interval applied.
    pub fn apply_water_interval(&mut self, interval: i32) -> (applied: i32)
        requires
            old(self)@.wf(),
        ensures
            applied == clamp_to(interval as int, INTERVAL_MIN as int, INTERVAL_MAX as int),
            final(self)@.wf(),
            final(self)@ == (CycleView { water_interval: applied as int, ..old(self)@ }),
    {
        let applied = clamp_setting(interval, INTERVAL_MIN, INTERVAL_MAX);
        self.water_interval = applied as u32;
        applied
    }

    /// Sets how many rests apart the walking reminder comes, clamped to its
    /// valid range, and returns the interval applied.
    pub fn apply_walk_interval(&mut self, interval: i32) -> (applied: i32)
        requires
            old(self)@.wf(),
        ensures
            applied == clamp_to(interval as int, INTERVAL_MIN as int, INTERVAL_MAX as int),
            final(self)@.wf(),
            final(self)@ == (CycleView { walk_interval: applied as int, ..old(self)@ }),
    {
        let applied = clamp_setting(interval, INTERVAL_MIN, INTERVAL_MAX);
        self.walk_interval = applied as u32;
        applied
    }
}

/// A work period of any positive length ends exactly when that length has
/// elapsed: a tick that finds the whole work length elapsed begins a rest,
/// and a tick before that leaves the cycle at work.
pub proof fn lemma_work_ends_on_time(s: CycleView, now: int)
    requires
        s.mode == Mode::Work,
        !s.paused,
        s.work > 0,
    ensures
        tick_step(s, now).mode == Mode::Rest <==> now - s.start >= s.work,
        now == s.start + s.work ==> tick_outcome(s, now) is RestBegins,
        now == s.start + s.work ==> tick_step(s, now).eye_rest_count == s.eye_rest_count + 1,
{
}

/// The rest counter moves only when a rest begins, and then by exactly one;
/// neither the pause switch nor the secondary action moves it.
pub proof fn lemma_rest_counter_counts_rests(s: CycleView, now: int)
    ensures
        tick_step(s, now).eye_rest_count == s.eye_rest_count + if tick_outcome(s, now) is RestBegins {
            1int
        } else {
            0int
        },
        toggle_pause_step(s).eye_rest_count == s.eye_rest_count,
        skip_step(s, now).eye_rest_count == s.eye_rest_count,
{
}

/// Within a mode, the share of the mode still ahead (`remaining / limit`)
/// is whole when the mode begins and strictly falls towards zero as the
/// elapsed time grows.
pub proof fn lemma_progress_decreases(s: CycleView, t1: int, t2: int)
    requires
        s.wf(),
        !s.paused,
        s.start <= t1 < t2,
        t2 - s.start < s.limit(),
    ensures
        tick_outcome(s, s.start) == (TickOutcome::Countdown {
            mode: s.mode,
            remaining_ms: s.limit() as u64,
            limit_ms: s.limit() as u64,
        }),
        tick_outcome(s, t1) matches TickOutcome::Countdown { remaining_ms: r1, limit_ms: l1, .. }
            && tick_outcome(s, t2) matches TickOutcome::Countdown { remaining_ms: r2, limit_ms: l2, .. }
            && l1 == s.limit() && l2 == s.limit() && 0 < r2 < r1 <= l1,
{
}

/// Pausing for any length of time and resuming does not advance the
/// elapsed time: after the pause switch is flipped, any ticks while paused,
/// and the switch flipped back, the time elapsed as of the latest tick is
/// what it was as of the tick before the pause.
pub proof fn lemma_pause_freezes_elapsed(s: CycleView, times: Seq<int>)
    requires
        !s.paused,
    ensures
        ({
            let r = toggle_pause_step(tick_all(toggle_pause_step(s), times));
            &&& !r.paused
            &&& r.mode == s.mode
            &&& r.elapsed_at(r.last_tick) == s.elapsed_at(s.last_tick)
        }),
{
    lemma_paused_ticks_keep_elapsed(toggle_pause_step(s), times);
}

/// A tick while paused reports only the pause and freezes the elapsed time:
/// the start moves on by the time since the last tick, and the mode, the
/// rest counter and the settings stay as they are.
pub proof fn lemma_paused_tick(s: CycleView, now: int)
    requires
        s.paused,
    ensures
        tick_outcome(s, now) == TickOutcome::Paused,
        tick_step(s, now) == (CycleView { start: s.start + (now - s.last_tick), last_tick: now, ..s }),
        tick_step(s, now).elapsed_at(now) == s.elapsed_at(s.last_tick),
{
}

/// The secondary action ends a rest at once, whatever time is left: the
/// cycle is at work from `now`, and the rest counter, the settings and the
/// pause switch are kept.
pub proof fn lemma_skip_ends_rest(s: CycleView, now: int)
    requires
        s.mode == Mode::Rest,
    ensures
        skip_step(s, now) == (CycleView { mode: Mode::Work, start: now, last_tick: now, ..s }),
        skip_step(s, now).elapsed_at(now) == 0,
{
}

/// Ticks while paused keep the mode, the pause and the elapsed time as of
/// the latest tick.
pub proof fn lemma_paused_ticks_keep_elapsed(s: CycleView, times: Seq<int>)
    requires
        s.paused,
    ensures
        tick_all(s, times).paused,
        tick_all(s, times).mode == s.mode,
        tick_all(s, times).elapsed_at(tick_all(s, times).last_tick) == s.elapsed_at(s.last_tick),
    decreases times.len(),
{
    if times.len() > 0 {
        lemma_paused_ticks_keep_elapsed(tick_step(s, times[0]), times.drop_first());
    }
}

} // verus!
