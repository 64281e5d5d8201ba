use vstd::prelude::*;

verus! {

/// Default displacement of one actuation event, in pixels down.
pub const DEFAULT_RECOIL_AMOUNT: u32 = 1;

/// Default pause between two cycles of the loop, in milliseconds.
pub const DEFAULT_DELAY_MS: u64 = 20;

/// Outer state of the loop: it runs until it has seen the stop request, and
/// never runs again after that.
#[derive(Clone, Copy, Debug, PartialEq, Eq, Structural)]
pub enum LoopState {
    Running,
    Stopped,
}

/// What the loop does in one cycle.
#[derive(Clone, Copy, Debug, PartialEq, Eq, Structural)]
pub enum LoopAction {
    /// Leave the loop.
    Exit,
    /// Emit one relative move of `dy` pixels down, then sleep `sleep_ms`.
    Actuate { dy: u32, sleep_ms: u64 },
    /// Emit nothing, then sleep `sleep_ms`.
    Wait { sleep_ms: u64 },
}

/// Periodic actuation driven by two shared flags: while `running`, each cycle
/// emits one fixed move if `active`, then sleeps for a fixed interval.
pub struct RecoilControlSystem {
    recoil_amount: u32,
    delay_ms: u64,
}

/// The loop's decision in one cycle, from its state and the flags it read.
pub open spec fn step_spec(amount: u32, delay: u64, state: LoopState, running: bool, active: bool) -> (
    LoopState,
    LoopAction,
) {
    if state == LoopState::Stopped || !running {
        (LoopState::Stopped, LoopAction::Exit)
    } else if active {
        (LoopState::Running, LoopAction::Actuate { dy: amount, sleep_ms: delay })
    } else {
        (LoopState::Running, LoopAction::Wait { sleep_ms: delay })
    }
}

/// The actions of the loop started in `state` over the flag readings `obs`
/// (`running`, `active`), one reading per cycle, up to and including its exit.
pub open spec fn trace_actions(amount: u32, delay: u64, state: LoopState, obs: Seq<(bool, bool)>) -> Seq<
    LoopAction,
>
    decreases obs.len(),
{
    if obs.len() == 0 {
        Seq::empty()
    } else {
        let (s1, a) = step_spec(amount, delay, state, obs[0].0, obs[0].1);
        if a == LoopAction::Exit {
            seq![a]
        } else {
            seq![a] + trace_actions(amount, delay, s1, obs.drop_first())
        }
    }
}

/// The number of actuation events among `acts`.
pub open spec fn actuations(acts: Seq<LoopAction>) -> nat
    decreases acts.len(),
{
    if acts.len() == 0 {
        0
    } else {
        (if acts[0] is Actuate { 1nat } else { 0nat }) + actuations(acts.drop_first())
    }
}

/// Time the loop spends asleep over `acts`, in milliseconds.
pub open spec fn sleep_time(acts: Seq<LoopAction>) -> nat
    decreases acts.len(),
{
    if acts.len() == 0 {
        0
    } else {
        (match acts[0] {
            LoopAction::Exit => 0nat,
            LoopAction::Actuate { sleep_ms, .. } => sleep_ms as nat,
            LoopAction::Wait { sleep_ms } => sleep_ms as nat,
        }) + sleep_time(acts.drop_first())
    }
}

impl RecoilControlSystem {
    pub closed spec fn amount(&self) -> u32 {
        self.recoil_amount
    }

    pub closed spec fn delay(&self) -> u64 {
        self.delay_ms
    }

    /// Moves one pixel down every 20 milliseconds while active.
    pub fn new() -> (r: Self)
        ensures
            r.amount() == DEFAULT_RECOIL_AMOUNT,
            r.delay() == DEFAULT_DELAY_MS,
    {
        Self { recoil_amount: DEFAULT_RECOIL_AMOUNT, delay_ms: DEFAULT_DELAY_MS }
    }

    /// Pause between two cycles, in milliseconds.
    pub fn delay_ms(&self) -> (r: u64)
        ensures
            r == self.delay(),
    {
        self.delay_ms
    }

    /// One cycle of the loop: exits once `running` has been seen false, and
    /// otherwise actuates if `active`, sleeping the fixed interval either way.
    pub fn step(&self, state: LoopState, running: bool, active: bool) -> (r: (LoopState, LoopAction))
        ensures
            r == step_spec(self.amount(), self.delay(), state, running, active),
    {
        if state == LoopState::Stopped || !running {
            (LoopState::Stopped, LoopAction::Exit)
        } else if active {
            (LoopState::Running, LoopAction::Actuate { dy: self.recoil_amount, sleep_ms: self.delay_ms })
        } else {
            (LoopState::Running, LoopAction::Wait { sleep_ms: self.delay_ms })
        }
    }
}

/// While running and inactive the loop emits nothing, and while running and
/// active it emits exactly one event per cycle; either way each cycle sleeps
/// the fixed interval, so `n` cycles take `n * delay` milliseconds.
pub proof fn lemma_events_follow_active(amount: u32, delay: u64, obs: Seq<(bool, bool)>, active: bool)
    requires
        forall|i: int| 0 <= i < obs.len() ==> obs[i] == (true, active),
    ensures
        trace_actions(amount, delay, LoopState::Running, obs).len() == obs.len(),
        actuations(trace_actions(amount, delay, LoopState::Running, obs)) == if active {
            obs.len()
        } else {
            0
        },
        sleep_time(trace_actions(amount, delay, LoopState::Running, obs)) == obs.len() * delay,
    decreases obs.len(),
{
    if obs.len() > 0 {
        let rest = obs.drop_first();
        lemma_events_follow_active(amount, delay, rest, active);
        let acts = trace_actions(amount, delay, LoopState::Running, obs);
        let tail = trace_actions(amount, delay, LoopState::Running, rest);
        assert(acts == seq![acts[0]] + tail);
        assert(acts.drop_first() =~= tail);
        assert(obs.len() * delay == delay + rest.len() * delay) by (nonlinear_arith)
            requires
                obs.len() == rest.len() + 1,
        ;
    }
}

/// Stopping is prompt and final: the first cycle that reads `running` false
/// exits without sleeping, so at most the sleep already under way separates
/// the write from the exit; and a stopped loop never actuates or sleeps again.
pub proof fn lemma_stop_exits_within_one_interval(
    amount: u32,
    delay: u64,
    state: LoopState,
    active: bool,
    obs: Seq<(bool, bool)>,
)
    requires
        obs.len() > 0,
        !obs[0].0,
    ensures
        step_spec(amount, delay, state, false, active) == (LoopState::Stopped, LoopAction::Exit),
        trace_actions(amount, delay, state, obs) == seq![LoopAction::Exit],
        sleep_time(trace_actions(amount, delay, state, obs)) == 0,
        forall|r: bool, a: bool|
            step_spec(amount, delay, LoopState::Stopped, r, a) == (LoopState::Stopped, LoopAction::Exit),
{
    let acts = trace_actions(amount, delay, state, obs);
    assert(acts == seq![LoopAction::Exit]);
    assert(acts.drop_first() =~= Seq::<LoopAction>::empty());
    assert(acts[0] == LoopAction::Exit);
    assert(sleep_time(acts.drop_first()) == 0);
}

} // verus!
