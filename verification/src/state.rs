//! Game states: units of per-frame behaviour with a name, per-instance
//! counters, and an edge-triggered transition-request flag.
//!
//! Two variants exist. `MainState` counts update ticks and, on a configurable
//! frame policy, raises its transition flag. `GameState` is a terminal state:
//! it never requests a transition. Drawing only advances a cosmetic draw
//! counter and produces a `DrawCommand`; it never touches transition logic.

use vstd::prelude::*;

verus! {

/// What one frame of a state should show: the text to render and the index of
/// this draw call, from which the host derives the position offset.
pub struct DrawCommand {
    pub text: &'static str,
    pub frame: u64,
}

/// A state that counts update ticks: every `period` ticks its secondary
/// counter grows, and once that counter exceeds `threshold` the state raises
/// its transition flag and resets the counter.
pub struct MainState {
    /// Update ticks seen so far; drives the transition policy.
    pub frames: u64,
    /// Draw calls seen so far; drives only the render offset.
    pub draws: u64,
    /// Secondary counter, bumped every `period` update ticks.
    pub count: u32,
    /// The transition-request flag, consumed (cleared) by `wants_transition`.
    pub to_next_state: bool,
    /// Every how many update ticks `count` grows. At least 1.
    pub period: u32,
    /// `count` values above this raise the flag.
    pub threshold: u32,
}

/// A terminal state: it draws and ticks but never requests a transition.
pub struct GameState {
    /// Draw calls seen so far; drives only the render offset.
    pub draws: u64,
    /// Present for uniformity with the state interface; never set.
    pub to_next_state: bool,
}

impl MainState {
    /// Configuration is sane: a nonzero period, and a threshold the secondary
    /// counter can exceed without overflowing. The counter itself never rests
    /// above the threshold.
    pub open spec fn wf(self) -> bool {
        &&& 1 <= self.period
        &&& self.threshold < u32::MAX
        &&& self.count <= self.threshold
    }

    /// The state after one update tick: the frame counter grows; every
    /// `period` frames the secondary counter grows; once it exceeds
    /// `threshold` the transition flag is raised and the counter resets.
    pub open spec fn spec_update(self) -> MainState {
        let frames2 = (self.frames + 1) as u64;
        let count1 = if frames2 as int % (self.period as int) == 0 {
            (self.count + 1) as u32
        } else {
            self.count
        };
        if count1 > self.threshold {
            MainState {
                frames: frames2,
                draws: self.draws,
                count: 0,
                to_next_state: true,
                period: self.period,
                threshold: self.threshold,
            }
        } else {
            MainState {
                frames: frames2,
                draws: self.draws,
                count: count1,
                to_next_state: self.to_next_state,
                period: self.period,
                threshold: self.threshold,
            }
        }
    }

    /// The state after its transition flag has been consumed.
    pub open spec fn spec_cleared(self) -> MainState {
        MainState {
            frames: self.frames,
            draws: self.draws,
            count: self.count,
            to_next_state: false,
            period: self.period,
            threshold: self.threshold,
        }
    }

    /// The state after one draw call: only the draw counter moves.
    pub open spec fn spec_after_draw(self) -> MainState {
        MainState {
            frames: self.frames,
            draws: (self.draws + 1) as u64,
            count: self.count,
            to_next_state: self.to_next_state,
            period: self.period,
            threshold: self.threshold,
        }
    }

    /// A fresh state with the default policy: the secondary counter grows
    /// every 100 ticks and the flag rises once it exceeds 10.
    pub fn new() -> (s: MainState)
        ensures
            s.frames == 0,
            s.draws == 0,
            s.count == 0,
            !s.to_next_state,
            s.period == 100,
            s.threshold == 10,
            s.wf(),
    {
        MainState { frames: 0, draws: 0, count: 0, to_next_state: false, period: 100, threshold: 10 }
    }

    /// A fresh state with a chosen policy.
    pub fn with_policy(period: u32, threshold: u32) -> (s: MainState)
        requires
            1 <= period,
            threshold < u32::MAX,
        ensures
            s.frames == 0,
            s.draws == 0,
            s.count == 0,
            !s.to_next_state,
            s.period == period,
            s.threshold == threshold,
            s.wf(),
    {
        MainState { frames: 0, draws: 0, count: 0, to_next_state: false, period, threshold }
    }
}

impl MainState {
    /// Returns the flag and consumes it: a raised flag yields `true` exactly
    /// once, and the flag is down afterwards until the state re-arms it.
    pub fn wants_transition(&mut self) -> (r: bool)
        ensures
            r == old(self).to_next_state,
            *final(self) == old(self).spec_cleared(),
    {
        if self.to_next_state {
            self.to_next_state = false;
            return true;
        }
        false
    }

    /// One logical tick: advance the counters and, per the policy, possibly
    /// raise the transition flag.
    pub fn update(&mut self)
        requires
            old(self).wf(),
            old(self).frames < u64::MAX,
        ensures
            *final(self) == old(self).spec_update(),
            final(self).wf(),
    {
        self.frames = self.frames + 1;
        if self.frames % (self.period as u64) == 0 {
            self.count = self.count + 1;
        }
        if self.count > self.threshold {
            self.to_next_state = true;
            self.count = 0;
        }
    }

    /// One frame of output: report what to show and advance the draw counter.
    /// Transition-relevant fields are untouched.
    pub fn draw(&mut self) -> (r: DrawCommand)
        requires
            old(self).draws < u64::MAX,
        ensures
            *final(self) == old(self).spec_after_draw(),
            r.text@ == "Hello world!"@,
            r.frame == old(self).draws,
    {
        let r = DrawCommand { text: "Hello world!", frame: self.draws };
        self.draws = self.draws + 1;
        r
    }
}

impl GameState {
    /// The state after one draw call: only the draw counter moves.
    pub open spec fn spec_after_draw(self) -> GameState {
        GameState { draws: (self.draws + 1) as u64, to_next_state: self.to_next_state }
    }

    /// A fresh terminal state.
    pub fn new() -> (s: GameState)
        ensures
            s.draws == 0,
            !s.to_next_state,
    {
        GameState { draws: 0, to_next_state: false }
    }

    /// Returns the flag and consumes it. A `GameState` never raises its flag,
    /// so this is `false` whenever only this crate's constructors and methods
    /// have touched the state.
    pub fn wants_transition(&mut self) -> (r: bool)
        ensures
            r == old(self).to_next_state,
            !final(self).to_next_state,
            final(self).draws == old(self).draws,
    {
        if self.to_next_state {
            self.to_next_state = false;
            return true;
        }
        false
    }

    /// One logical tick: a terminal state has no update-driven policy.
    pub fn update(&mut self)
        ensures
            *final(self) == *old(self),
    {
    }

    /// One frame of output: report what to show and advance the draw counter.
    /// Transition-relevant fields are untouched.
    pub fn draw(&mut self) -> (r: DrawCommand)
        requires
            old(self).draws < u64::MAX,
        ensures
            *final(self) == old(self).spec_after_draw(),
            r.text@ == "Game State!"@,
            r.frame == old(self).draws,
    {
        let r = DrawCommand { text: "Game State!", frame: self.draws };
        self.draws = self.draws + 1;
        r
    }
}

/// A game state, one of the closed set of variants the manager can own.
pub enum State {
    Main(MainState),
    Game(GameState),
}

impl State {
    /// The state's well-formedness: its variant's configuration is sane.
    pub open spec fn wf(self) -> bool {
        match self {
            State::Main(m) => m.wf(),
            State::Game(_) => true,
        }
    }

    /// The state's stable display name.
    pub open spec fn spec_name(self) -> Seq<char> {
        match self {
            State::Main(_) => "Main"@,
            State::Game(_) => "Game"@,
        }
    }

    /// The text this state's frames show.
    pub open spec fn spec_text(self) -> Seq<char> {
        match self {
            State::Main(_) => "Hello world!"@,
            State::Game(_) => "Game State!"@,
        }
    }

    /// Whether the transition-request flag is currently raised.
    pub open spec fn wants(self) -> bool {
        match self {
            State::Main(m) => m.to_next_state,
            State::Game(g) => g.to_next_state,
        }
    }

    /// How many draw calls this state has seen.
    pub open spec fn spec_draws(self) -> u64 {
        match self {
            State::Main(m) => m.draws,
            State::Game(g) => g.draws,
        }
    }

    /// The state after one update tick.
    pub open spec fn spec_update(self) -> State {
        match self {
            State::Main(m) => State::Main(m.spec_update()),
            State::Game(g) => State::Game(g),
        }
    }

    /// The state after its transition flag has been consumed.
    pub open spec fn spec_cleared(self) -> State {
        match self {
            State::Main(m) => State::Main(m.spec_cleared()),
            State::Game(g) => State::Game(GameState { draws: g.draws, to_next_state: false }),
        }
    }

    /// The state after one draw call: only the draw counter moves.
    pub open spec fn spec_after_draw(self) -> State {
        match self {
            State::Main(m) => State::Main(m.spec_after_draw()),
            State::Game(g) => State::Game(g.spec_after_draw()),
        }
    }

    /// Whether another update tick stays within the counters' machine limits.
    pub open spec fn can_update(self) -> bool {
        match self {
            State::Main(m) => m.frames < u64::MAX,
            State::Game(_) => true,
        }
    }

    /// Whether another draw call stays within the draw counter's machine limit.
    pub open spec fn can_draw(self) -> bool {
        self.spec_draws() < u64::MAX
    }

    /// The stable display name, for diagnostics. Side-effect free.
    pub fn get_name(&self) -> (r: &'static str)
        ensures
            r@ == self.spec_name(),
    {
        match self {
            State::Main(_) => "Main",
            State::Game(_) => "Game",
        }
    }

    /// Returns whether this state requests a transition, and consumes the
    /// request: edge-triggered, so a single raised flag yields `true` exactly
    /// once.
    pub fn wants_transition(&mut self) -> (r: bool)
        ensures
            r == old(self).wants(),
            *final(self) == old(self).spec_cleared(),
    {
        match self {
            State::Main(m) => m.wants_transition(),
            State::Game(g) => g.wants_transition(),
        }
    }

    /// One logical tick: counters advance and the variant's policy may raise
    /// the transition flag. Never draws.
    pub fn update(&mut self)
        requires
            old(self).wf(),
            old(self).can_update(),
        ensures
            *final(self) == old(self).spec_update(),
            final(self).wf(),
    {
        match self {
            State::Main(m) => m.update(),
            State::Game(g) => g.update(),
        }
    }

    /// One frame of output: what to show, and at which draw index. Only the
    /// draw counter moves; in particular the transition flag is never set.
    pub fn draw(&mut self) -> (r: DrawCommand)
        requires
            old(self).can_draw(),
        ensures
            *final(self) == old(self).spec_after_draw(),
            r.text@ == old(self).spec_text(),
            r.frame == old(self).spec_draws(),
    {
        match self {
            State::Main(m) => m.draw(),
            State::Game(g) => g.draw(),
        }
    }
}

/// The state after `n` consecutive draw calls with nothing in between.
pub open spec fn spec_after_draws(s: State, n: nat) -> State
    decreases n,
{
    if n == 0 {
        s
    } else {
        spec_after_draws(s, (n - 1) as nat).spec_after_draw()
    }
}

/// The transition request is edge-triggered: whatever `wants_transition`
/// returned, an immediate second call — with no state-internal re-arm in
/// between — returns `false`.
pub proof fn lemma_wants_transition_edge_triggered(s: State)
    ensures
        !s.spec_cleared().wants(),
        !s.spec_cleared().spec_cleared().wants(),
{
}

/// Drawing never requests a transition: any number of consecutive draw calls,
/// with no update in between, leaves the transition flag and the state's
/// identity exactly as they were.
pub proof fn lemma_draw_never_requests_transition(s: State, n: nat)
    ensures
        spec_after_draws(s, n).wants() == s.wants(),
        spec_after_draws(s, n).spec_name() == s.spec_name(),
    decreases n,
{
    if n > 0 {
        lemma_draw_never_requests_transition(s, (n - 1) as nat);
    }
}

} // verus!
