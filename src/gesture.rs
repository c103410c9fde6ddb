use vstd::prelude::*;
use crate::corner::{Corner, history_touches, history_touches_corner, touches};
use crate::history::{HistoryBuffer, MAX_HISTORY_CAPACITY, last_n, lemma_pushed_all_keeps_last, pushed, pushed_all};
use crate::position::{MousePosition, ScreenSize};

verus! {

/// Which half of the two-step gesture an instance listens for.
#[derive(Clone, Copy, Debug, PartialEq, Eq, Structural)]
pub enum Role {
    /// The long-lived instance that recognises the first command.
    Primary,
    /// The instance spawned by the first command; it waits for the second one.
    Confirming,
}

#[derive(Clone, Copy, Debug, PartialEq, Eq, Structural)]
pub enum Stage {
    Listening,
    Triggered,
    Expired,
}

/// What the owner of an instance must do after one tick.
#[derive(Clone, Copy, Debug, PartialEq, Eq, Structural)]
pub enum TickAction {
    /// Nothing resolved: sleep until the next sample.
    Continue,
    /// The first command was recognised: notify, spawn a confirming instance, keep sampling.
    FirstCommand,
    /// The second command was recognised: notify, run the backup, stop this instance.
    Backup,
    /// The confirmation window has passed: stop this instance.
    Expired,
}

/// The mathematical state of one gesture instance.
pub struct GestureModel {
    pub role: Role,
    pub stage: Stage,
    pub bounds: ScreenSize,
    pub tolerance: u32,
    pub window_sec: u64,
    pub started_at_ms: u64,
    pub capacity: nat,
    pub history: Seq<MousePosition>,
}

/// The three non-origin corners have each been touched somewhere in `h`.
pub open spec fn corners_touched(h: Seq<MousePosition>, b: ScreenSize, t: u32) -> bool {
    &&& history_touches(h, Corner::LowerLeft, b, t)
    &&& history_touches(h, Corner::LowerRight, b, t)
    &&& history_touches(h, Corner::UpperRight, b, t)
}

/// The whole gesture is present in `h`: the exact origin and the three other corners.
pub open spec fn arms(h: Seq<MousePosition>, b: ScreenSize, t: u32) -> bool {
    history_touches(h, Corner::UpperLeft, b, t) && corners_touched(h, b, t)
}

pub open spec fn elapsed_ms(started: u64, now: u64) -> int {
    if now >= started {
        now - started
    } else {
        0
    }
}

/// More than `window_sec` seconds have passed since the instance started.
pub open spec fn window_passed(m: GestureModel, now: u64) -> bool {
    elapsed_ms(m.started_at_ms, now) > m.window_sec * 1000
}

/// One tick: the new state and the action, for the sample `pos` taken at `now` (ms).
pub open spec fn step(m: GestureModel, pos: MousePosition, now: u64) -> (GestureModel, TickAction) {
    if m.role == Role::Confirming && window_passed(m, now) {
        (GestureModel { stage: Stage::Expired, history: Seq::empty(), ..m }, TickAction::Expired)
    } else if pos.is_origin() || history_touches(m.history, Corner::UpperLeft, m.bounds, m.tolerance) {
        let h = pushed(m.history, m.capacity, pos);
        if corners_touched(h, m.bounds, m.tolerance) {
            match m.role {
                Role::Primary => (GestureModel { history: Seq::empty(), ..m }, TickAction::FirstCommand),
                Role::Confirming => (
                    GestureModel { stage: Stage::Triggered, history: Seq::empty(), ..m },
                    TickAction::Backup,
                ),
            }
        } else {
            (GestureModel { history: h, ..m }, TickAction::Continue)
        }
    } else {
        (m, TickAction::Continue)
    }
}

proof fn lemma_touches_same_positions(h1: Seq<MousePosition>, h2: Seq<MousePosition>, c: Corner, b: ScreenSize, t: u32)
    requires
        forall|p: MousePosition| h1.contains(p) <==> h2.contains(p),
    ensures
        history_touches(h1, c, b, t) == history_touches(h2, c, b, t),
{
    if history_touches(h1, c, b, t) {
        let i = choose|i: int| 0 <= i < h1.len() && #[trigger] touches(h1[i], c, b, t);
        assert(h1.contains(h1[i]));
        let j = choose|j: int| 0 <= j < h2.len() && h2[j] == h1[i];
        assert(touches(h2[j], c, b, t));
    }
    if history_touches(h2, c, b, t) {
        let i = choose|i: int| 0 <= i < h2.len() && #[trigger] touches(h2[i], c, b, t);
        assert(h2.contains(h2[i]));
        let j = choose|j: int| 0 <= j < h1.len() && h1[j] == h2[i];
        assert(touches(h1[j], c, b, t));
    }
}

/// Whether a history completes the gesture depends only on which positions it holds, not
/// on the order in which they arrived (the lower-right corner may come before the lower-left).
pub proof fn lemma_arming_ignores_order(h1: Seq<MousePosition>, h2: Seq<MousePosition>, b: ScreenSize, t: u32)
    requires
        forall|p: MousePosition| h1.contains(p) <==> h2.contains(p),
    ensures
        corners_touched(h1, b, t) == corners_touched(h2, b, t),
        arms(h1, b, t) == arms(h2, b, t),
{
    lemma_touches_same_positions(h1, h2, Corner::UpperLeft, b, t);
    lemma_touches_same_positions(h1, h2, Corner::LowerLeft, b, t);
    lemma_touches_same_positions(h1, h2, Corner::LowerRight, b, t);
    lemma_touches_same_positions(h1, h2, Corner::UpperRight, b, t);
}

/// A tick resolves a command exactly when the window is still open, the origin is the
/// current sample or already in the history, and the history with the sample added holds a
/// position in each of the three other corner regions.
pub proof fn lemma_resolves_only_on_full_gesture(m: GestureModel, pos: MousePosition, now: u64)
    ensures
        (step(m, pos, now).1 == TickAction::FirstCommand || step(m, pos, now).1 == TickAction::Backup) <==> (
        !(m.role == Role::Confirming && window_passed(m, now)) && (pos.is_origin() || history_touches(
            m.history,
            Corner::UpperLeft,
            m.bounds,
            m.tolerance,
        )) && corners_touched(pushed(m.history, m.capacity, pos), m.bounds, m.tolerance)),
        step(m, pos, now).1 == TickAction::FirstCommand ==> m.role == Role::Primary,
        step(m, pos, now).1 == TickAction::Backup ==> m.role == Role::Confirming,
{
}

/// A confirming instance started at `t0` triggers the backup when the confirming gesture
/// completes `window_sec - 1` seconds later, and one second after the window it expires
/// without triggering, whatever the sample.
pub proof fn lemma_confirmation_window(m: GestureModel, pos: MousePosition)
    requires
        m.role == Role::Confirming,
        m.window_sec >= 1,
        m.started_at_ms + (m.window_sec + 1) * 1000 <= u64::MAX,
    ensures
        (pos.is_origin() || history_touches(m.history, Corner::UpperLeft, m.bounds, m.tolerance))
            && corners_touched(pushed(m.history, m.capacity, pos), m.bounds, m.tolerance) ==> step(
            m,
            pos,
            (m.started_at_ms + (m.window_sec - 1) * 1000) as u64,
        ).1 == TickAction::Backup,
        step(m, pos, (m.started_at_ms + (m.window_sec + 1) * 1000) as u64).1 == TickAction::Expired,
{
}

/// The state after ticking the samples of `xs` at the times of `ts`, in order.
pub open spec fn run(m: GestureModel, xs: Seq<MousePosition>, ts: Seq<u64>) -> GestureModel
    decreases xs.len(),
{
    if xs.len() == 0 || ts.len() == 0 {
        m
    } else {
        run(step(m, xs[0], ts[0]).0, xs.drop_first(), ts.drop_first())
    }
}

/// A tick of `m` with history `h` that records the sample `x` taken at `t` and resolves
/// nothing: the window is open, the origin has been seen, and the corners are incomplete.
pub open spec fn quiet_tick(m: GestureModel, h: Seq<MousePosition>, x: MousePosition, t: u64) -> bool {
    &&& !(m.role == Role::Confirming && window_passed(m, t))
    &&& (x.is_origin() || history_touches(h, Corner::UpperLeft, m.bounds, m.tolerance))
    &&& !corners_touched(pushed(h, m.capacity, x), m.bounds, m.tolerance)
}

/// Every tick of the run records its sample and resolves nothing.
pub open spec fn quiet_run(m: GestureModel, xs: Seq<MousePosition>, ts: Seq<u64>) -> bool {
    forall|i: int|
        0 <= i < xs.len() ==> #[trigger] quiet_tick(m, pushed_all(m.history, m.capacity, xs.take(i)), xs[i], ts[i])
}

/// Over a run of ticks that each record their sample and resolve nothing, the instance's
/// history is its old contents followed by the samples, cut to the last `capacity`
/// positions, oldest first.
pub proof fn lemma_run_keeps_last_samples(m: GestureModel, xs: Seq<MousePosition>, ts: Seq<u64>)
    requires
        m.capacity >= 1,
        m.history.len() <= m.capacity,
        xs.len() == ts.len(),
        quiet_run(m, xs, ts),
    ensures
        run(m, xs, ts).history == pushed_all(m.history, m.capacity, xs),
        run(m, xs, ts).history == last_n(m.history + xs, m.capacity),
    decreases xs.len(),
{
    lemma_pushed_all_keeps_last(m.history, m.capacity, xs);
    if xs.len() > 0 {
        assert(xs.take(0) =~= Seq::<MousePosition>::empty());
        assert(quiet_tick(m, pushed_all(m.history, m.capacity, xs.take(0)), xs[0], ts[0]));
        let m1 = step(m, xs[0], ts[0]).0;
        assert(m1 == GestureModel { history: pushed(m.history, m.capacity, xs[0]), ..m });
        let rest = xs.drop_first();
        assert forall|i: int| 0 <= i < rest.len() implies #[trigger] quiet_tick(
            m1,
            pushed_all(m1.history, m1.capacity, rest.take(i)),
            rest[i],
            ts.drop_first()[i],
        ) by {
            assert(xs.take(i + 1).drop_first() =~= rest.take(i));
            assert(quiet_tick(m, pushed_all(m.history, m.capacity, xs.take(i + 1)), xs[i + 1], ts[i + 1]));
        }
        lemma_run_keeps_last_samples(m1, rest, ts.drop_first());
    }
}

/// One instance of the gesture state machine; it owns its history and timestamps.
pub struct GestureMachine {
    role: Role,
    stage: Stage,
    bounds: ScreenSize,
    tolerance: u32,
    window_sec: u64,
    started_at_ms: u64,
    history: HistoryBuffer,
}

impl View for GestureMachine {
    type V = GestureModel;

    closed spec fn view(&self) -> GestureModel {
        GestureModel {
            role: self.role,
            stage: self.stage,
            bounds: self.bounds,
            tolerance: self.tolerance,
            window_sec: self.window_sec,
            started_at_ms: self.started_at_ms,
            capacity: self.history.capacity(),
            history: self.history@,
        }
    }
}

impl GestureMachine {
    pub closed spec fn wf(&self) -> bool {
        self.history.wf()
    }

    /// A fresh instance with an empty history of `capacity` positions, started at `now_ms`.
    pub fn new(role: Role, bounds: ScreenSize, tolerance: u32, window_sec: u64, capacity: usize, now_ms: u64) -> (r:
        GestureMachine)
        requires
            1 <= capacity <= MAX_HISTORY_CAPACITY,
        ensures
            r.wf(),
            r@ == (GestureModel {
                role,
                stage: Stage::Listening,
                bounds,
                tolerance,
                window_sec,
                started_at_ms: now_ms,
                capacity: capacity as nat,
                history: Seq::empty(),
            }),
    {
        GestureMachine {
            role,
            stage: Stage::Listening,
            bounds,
            tolerance,
            window_sec,
            started_at_ms: now_ms,
            history: HistoryBuffer::new(capacity),
        }
    }

    /// The confirming instance that the first command spawns at `now_ms`: same
    /// configuration, fresh history.
    pub fn spawn_confirming(&self, now_ms: u64) -> (r: GestureMachine)
        requires
            self.wf(),
        ensures
            r.wf(),
            r@ == (GestureModel {
                role: Role::Confirming,
                stage: Stage::Listening,
                started_at_ms: now_ms,
                history: Seq::empty(),
                ..self@
            }),
    {
        GestureMachine::new(
            Role::Confirming,
            self.bounds,
            self.tolerance,
            self.window_sec,
            self.history.capacity_exec(),
            now_ms,
        )
    }

    pub fn role(&self) -> (r: Role)
        ensures
            r == self@.role,
    {
        self.role
    }

    pub fn stage(&self) -> (r: Stage)
        ensures
            r == self@.stage,
    {
        self.stage
    }

    /// A copy of the positions the instance currently remembers, oldest first.
    pub fn history(&self) -> (r: Vec<MousePosition>)
        ensures
            r@ == self@.history,
    {
        self.history.snapshot()
    }

    fn window_passed(&self, now_ms: u64) -> (r: bool)
        ensures
            r == window_passed(self@, now_ms),
    {
        let elapsed: u64 = if now_ms >= self.started_at_ms {
            now_ms - self.started_at_ms
        } else {
            0
        };
        match self.window_sec.checked_mul(1000) {
            Some(limit) => elapsed > limit,
            None => false,
        }
    }

    /// Processes the sample `pos` taken at `now_ms` milliseconds. A confirming instance
    /// whose window has passed expires without looking at the sample. Otherwise, once the
    /// origin has been seen the sample joins the history, and a history that then touches
    /// the three other corners resolves the command and is cleared.
    pub fn tick(&mut self, pos: MousePosition, now_ms: u64) -> (r: TickAction)
        requires
            old(self).wf(),
            old(self)@.stage == Stage::Listening,
        ensures
            final(self).wf(),
            (final(self)@, r) == step(old(self)@, pos, now_ms),
    {
        if self.role == Role::Confirming && self.window_passed(now_ms) {
            self.stage = Stage::Expired;
            self.history.clear();
            return TickAction::Expired;
        }
        let before = self.history.snapshot();
        let origin_seen = (pos.x == 0 && pos.y == 0) || history_touches_corner(
            &before,
            Corner::UpperLeft,
            &self.bounds,
            self.tolerance,
        );
        if !origin_seen {
            return TickAction::Continue;
        }
        self.history.push(pos);
        let after = self.history.snapshot();
        let complete = history_touches_corner(&after, Corner::LowerLeft, &self.bounds, self.tolerance)
            && history_touches_corner(&after, Corner::LowerRight, &self.bounds, self.tolerance)
            && history_touches_corner(&after, Corner::UpperRight, &self.bounds, self.tolerance);
        if !complete {
            return TickAction::Continue;
        }
        self.history.clear();
        match self.role {
            Role::Primary => TickAction::FirstCommand,
            Role::Confirming => {
                self.stage = Stage::Triggered;
                TickAction::Backup
            },
        }
    }
}

/// When the periodic CPU-usage record is due; independent of the gesture.
pub struct CpuLogSchedule {
    pub last_ms: u64,
    pub interval_ms: u64,
}

impl CpuLogSchedule {
    pub fn new(interval_ms: u64, now_ms: u64) -> (r: CpuLogSchedule)
        ensures
            r.last_ms == now_ms,
            r.interval_ms == interval_ms,
    {
        CpuLogSchedule { last_ms: now_ms, interval_ms }
    }

    /// Whether more than the interval has passed since the last record; if so the
    /// record is taken now, and the clock restarts.
    pub fn due(&mut self, now_ms: u64) -> (r: bool)
        ensures
            r == (elapsed_ms(old(self).last_ms, now_ms) > old(self).interval_ms),
            final(self).interval_ms == old(self).interval_ms,
            final(self).last_ms == if r {
                now_ms
            } else {
                old(self).last_ms
            },
    {
        let elapsed: u64 = if now_ms >= self.last_ms {
            now_ms - self.last_ms
        } else {
            0
        };
        if elapsed > self.interval_ms {
            self.last_ms = now_ms;
            true
        } else {
            false
        }
    }
}

} // verus!
