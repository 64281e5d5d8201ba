use vstd::prelude::*;

verus! {

/// Reporting interval in microseconds (one second).
pub const FPS_UPDATE_INTERVAL_US: u64 = 1_000_000;

/// Number of computed rates kept for the rolling average.
pub const FPS_HISTORY_SIZE: usize = 5;

/// Rates are given in thousandths of a frame per second: a rate is the tick
/// count times this factor over the elapsed microseconds.
pub const MILLI_FPS_PER_TICK_PER_US: u64 = 1_000_000_000;

/// One report: the rate of the last interval and the rolling average, both in
/// thousandths of a frame per second, and the mean frame time in
/// microseconds (none when no frame was counted).
#[derive(Clone, Copy, Debug, PartialEq, Eq)]
pub struct FpsStats {
    pub current_mfps: u64,
    pub average_mfps: u64,
    pub frame_time_us: Option<u64>,
}

/// Abstract state of a counter: ticks of the current interval, the time the
/// interval started (microseconds) and the retained rates, oldest first.
pub struct FpsModel {
    pub frame_count: nat,
    pub last_update: int,
    pub history: Seq<u64>,
}

pub open spec fn seq_sum(h: Seq<u64>) -> int
    decreases h.len(),
{
    if h.len() == 0 {
        0
    } else {
        seq_sum(h.drop_last()) + h.last() as int
    }
}

/// Mean of the retained rates, rounded down; zero for an empty history.
pub open spec fn average(h: Seq<u64>) -> int {
    if h.len() == 0 {
        0
    } else {
        seq_sum(h) / h.len() as int
    }
}

/// Appends a rate, evicting the oldest once more than `FPS_HISTORY_SIZE` are held.
pub open spec fn push_bounded(h: Seq<u64>, x: u64) -> Seq<u64> {
    let p = h.push(x);
    if p.len() > FPS_HISTORY_SIZE {
        p.drop_first()
    } else {
        p
    }
}

/// Rate of `count` ticks over `elapsed_us` microseconds, in thousandths of a
/// frame per second, rounded down.
pub open spec fn rate(count: nat, elapsed_us: int) -> int {
    (count * MILLI_FPS_PER_TICK_PER_US) as int / elapsed_us
}

/// What a report at time `now` does: with no elapsed time it is skipped and
/// nothing changes; otherwise the rate is recorded and a new interval starts.
pub open spec fn report_model(m: FpsModel, now: u64) -> (FpsModel, Option<FpsStats>) {
    if now <= m.last_update {
        (m, None)
    } else {
        let e = now - m.last_update;
        let c = rate(m.frame_count, e) as u64;
        let h = push_bounded(m.history, c);
        (
            FpsModel { frame_count: 0, last_update: now as int, history: h },
            Some(
                FpsStats {
                    current_mfps: c,
                    average_mfps: average(h) as u64,
                    frame_time_us: if m.frame_count == 0 {
                        None
                    } else {
                        Some((e / m.frame_count as int) as u64)
                    },
                },
            ),
        )
    }
}

/// The history after recording the rates `xs` in turn, starting from `h`.
pub open spec fn history_after(h: Seq<u64>, xs: Seq<u64>) -> Seq<u64>
    decreases xs.len(),
{
    if xs.len() == 0 {
        h
    } else {
        history_after(push_bounded(h, xs[0]), xs.drop_first())
    }
}

/// The newest `FPS_HISTORY_SIZE` entries of `t`, oldest first.
pub open spec fn latest(t: Seq<u64>) -> Seq<u64> {
    if t.len() > FPS_HISTORY_SIZE {
        t.subrange(t.len() - FPS_HISTORY_SIZE, t.len() as int)
    } else {
        t
    }
}

/// A report never lets the history grow past `FPS_HISTORY_SIZE` entries.
pub proof fn lemma_report_keeps_history_bounded(m: FpsModel, now: u64)
    requires
        m.history.len() <= FPS_HISTORY_SIZE,
    ensures
        report_model(m, now).0.history.len() <= FPS_HISTORY_SIZE,
{
}

/// The history is a first-in, first-out window: after any run of reports it
/// holds exactly the newest `FPS_HISTORY_SIZE` rates, in the order computed.
pub proof fn lemma_history_keeps_latest(h: Seq<u64>, xs: Seq<u64>)
    requires
        h.len() <= FPS_HISTORY_SIZE,
    ensures
        history_after(h, xs) == latest(h + xs),
    decreases xs.len(),
{
    if xs.len() > 0 {
        let p = h.push(xs[0]);
        let h1 = push_bounded(h, xs[0]);
        assert(h1 =~= latest(p));
        lemma_history_keeps_latest(h1, xs.drop_first());
        assert(h + xs =~= p + xs.drop_first());
        assert(latest(h1 + xs.drop_first()) =~= latest(p + xs.drop_first()));
    } else {
        assert(h + xs =~= h);
    }
}

/// Six reports from an empty history: the first rate has been evicted and
/// the other five remain, oldest first.
pub proof fn lemma_sixth_report_evicts_first(xs: Seq<u64>)
    requires
        xs.len() == FPS_HISTORY_SIZE + 1,
    ensures
        history_after(Seq::empty(), xs) == xs.drop_first(),
{
    lemma_history_keeps_latest(Seq::empty(), xs);
    assert(Seq::<u64>::empty() + xs =~= xs);
    assert(latest(xs) =~= xs.drop_first());
}

/// Reporting twice with no time elapsed in between: the second report is
/// skipped and changes nothing, so no rate is ever divided by zero time.
pub proof fn lemma_report_twice_without_elapsed_time(m: FpsModel, now: u64)
    ensures
        report_model(report_model(m, now).0, now) == (report_model(m, now).0, None::<FpsStats>),
{
}

/// Counts frames and turns them, once per interval, into rates.
pub struct FPSCounter {
    pub frame_count: u32,
    last_update_us: u64,
    fps_history: Vec<u64>,
    avg_fps: u64,
}

impl View for FPSCounter {
    type V = FpsModel;

    closed spec fn view(&self) -> FpsModel {
        FpsModel {
            frame_count: self.frame_count as nat,
            last_update: self.last_update_us as int,
            history: self.fps_history@,
        }
    }
}

proof fn lemma_sum_bound(h: Seq<u64>)
    ensures
        0 <= seq_sum(h) <= h.len() * 0xffff_ffff_ffff_ffff,
    decreases h.len(),
{
    if h.len() > 0 {
        lemma_sum_bound(h.drop_last());
    }
}

impl FPSCounter {
    pub closed spec fn wf(&self) -> bool {
        &&& self.fps_history@.len() <= FPS_HISTORY_SIZE
        &&& self.avg_fps as int == average(self.fps_history@)
    }

    /// A counter with no ticks and no history whose first interval starts at `now_us`.
    pub fn new(now_us: u64) -> (r: Self)
        ensures
            r.wf(),
            r@ == (FpsModel { frame_count: 0, last_update: now_us as int, history: Seq::empty() }),
    {
        FPSCounter {
            frame_count: 0,
            last_update_us: now_us,
            fps_history: Vec::with_capacity(FPS_HISTORY_SIZE),
            avg_fps: 0,
        }
    }

    /// Counts one frame.
    pub fn increment(&mut self)
        requires
            old(self)@.frame_count < u32::MAX,
        ensures
            final(self).wf() == old(self).wf(),
            final(self)@ == (FpsModel { frame_count: old(self)@.frame_count + 1, ..old(self)@ }),
    {
        self.frame_count = self.frame_count + 1;
    }

    /// Whether a full reporting interval has passed since the last report.
    pub fn should_update(&self, now_us: u64) -> (r: bool)
        ensures
            r == (now_us as int - self@.last_update >= FPS_UPDATE_INTERVAL_US as int),
    {
        now_us >= self.last_update_us && now_us - self.last_update_us >= FPS_UPDATE_INTERVAL_US
    }

    /// Rolling average of the retained rates, in thousandths of a frame per second.
    pub fn average_fps(&self) -> (r: u64)
        requires
            self.wf(),
        ensures
            r as int == average(self@.history),
    {
        self.avg_fps
    }

    /// Closes the current interval at `now_us`: computes its rate, records it
    /// in the bounded history and recomputes the average. Skipped, with
    /// nothing changed, when no time has elapsed.
    pub fn update(&mut self, now_us: u64) -> (r: Option<FpsStats>)
        requires
            old(self).wf(),
        ensures
            final(self).wf(),
            (final(self)@, r) == report_model(old(self)@, now_us),
    {
        if now_us <= self.last_update_us {
            return None;
        }
        let elapsed: u64 = now_us - self.last_update_us;
        let count: u64 = self.frame_count as u64;
        proof {
            assert(count * MILLI_FPS_PER_TICK_PER_US <= 0xffff_ffff * 1_000_000_000) by (nonlinear_arith)
                requires
                    count <= 0xffff_ffff,
            ;
            assert((count * MILLI_FPS_PER_TICK_PER_US) as int / elapsed as int <= (count * MILLI_FPS_PER_TICK_PER_US) as int)
                by (nonlinear_arith)
                requires
                    elapsed >= 1,
                    count * MILLI_FPS_PER_TICK_PER_US >= 0,
            ;
        }
        let current: u64 = count * MILLI_FPS_PER_TICK_PER_US / elapsed;
        let ghost h0 = self.fps_history@;
        self.fps_history.push(current);
        if self.fps_history.len() > FPS_HISTORY_SIZE {
            self.fps_history.remove(0);
            proof {
                assert(self.fps_history@ =~= h0.push(current).drop_first());
            }
        }
        let ghost h = self.fps_history@;
        assert(h == push_bounded(h0, current));
        let mut sum: u128 = 0;
        let mut i: usize = 0;
        let len = self.fps_history.len();
        while i < len
            invariant
                len == h.len(),
                self.fps_history@ == h,
                h.len() <= FPS_HISTORY_SIZE,
                i <= len,
                sum as int == seq_sum(h.subrange(0, i as int)),
            decreases len - i,
        {
            proof {
                lemma_sum_bound(h.subrange(0, i as int));
                assert(h.subrange(0, i as int + 1).drop_last() =~= h.subrange(0, i as int));
            }
            sum = sum + self.fps_history[i] as u128;
            i = i + 1;
        }
        proof {
            assert(h.subrange(0, len as int) =~= h);
            lemma_sum_bound(h);
            assert(sum as int / len as int <= 0xffff_ffff_ffff_ffff) by (nonlinear_arith)
                requires
                    len >= 1,
                    0 <= sum as int <= len * 0xffff_ffff_ffff_ffff,
            ;
        }
        self.avg_fps = (sum / len as u128) as u64;
        let frame_time_us = if count == 0 {
            None
        } else {
            Some(elapsed / count)
        };
        self.frame_count = 0;
        self.last_update_us = now_us;
        Some(FpsStats { current_mfps: current, average_mfps: self.avg_fps, frame_time_us })
    }
}

} // verus!
