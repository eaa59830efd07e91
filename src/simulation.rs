use vstd::prelude::*;

use crate::collection::{collect, spec_collect};
use crate::config::RuntimeConfig;
use crate::policy::{heap_limit, spec_heap_limit};

verus! {

/// The state carried from one simulated call to the next.
#[derive(Clone, Copy, Debug, PartialEq, Eq, Structural)]
pub struct SimState {
    /// Heap pointer right after the most recent collection.
    pub last_hp: u32,
    /// Current heap pointer.
    pub hp: u32,
    /// Largest memory use seen so far.
    pub last_high_water: u32,
}

impl SimState {
    /// The empty heap before the first call.
    pub open spec fn initial() -> SimState {
        SimState { last_hp: 0, hp: 0, last_high_water: 0 }
    }

    /// The heap pointer never falls below where the last collection left it.
    pub open spec fn wf(&self) -> bool {
        self.last_hp <= self.hp
    }

    /// The empty heap before the first call.
    pub fn new() -> (r: SimState)
        ensures
            r == SimState::initial(),
    {
        SimState { last_hp: 0, hp: 0, last_high_water: 0 }
    }
}

/// Whether the call made in state `s` triggers a collection: the heap pointer after the
/// call's allocation reaches the heap limit.
pub open spec fn collects(c: RuntimeConfig, s: SimState) -> bool {
    s.hp + c.allocation_rate >= spec_heap_limit(c, s.last_hp as int)
}

/// The state after one call made in state `s`, or `None` when the call cannot be modelled
/// in 32 bits (the simulated memory is exhausted).
pub open spec fn spec_step(c: RuntimeConfig, s: SimState) -> Option<SimState> {
    let hp_pre = s.hp + c.allocation_rate;
    if hp_pre > u32::MAX {
        None
    } else if collects(c, s) {
        match spec_collect(c.gc_strategy, hp_pre as u32, s.last_hp, c.survival_rate) {
            Some(g) => Some(
                SimState {
                    last_hp: g.post_hp,
                    hp: g.post_hp,
                    last_high_water: if g.peak >= s.last_high_water {
                        g.peak
                    } else {
                        s.last_high_water
                    },
                },
            ),
            None => None,
        }
    } else {
        Some(
            SimState {
                last_hp: s.last_hp,
                hp: hp_pre as u32,
                last_high_water: if hp_pre >= s.last_high_water {
                    hp_pre as u32
                } else {
                    s.last_high_water
                },
            },
        )
    }
}

/// The state after `n` calls, or `None` when the memory ran out at or before call `n`.
pub open spec fn run(c: RuntimeConfig, n: nat) -> Option<SimState>
    decreases n,
{
    if n == 0 {
        Some(SimState::initial())
    } else {
        match run(c, (n - 1) as nat) {
            Some(s) => spec_step(c, s),
            None => None,
        }
    }
}

/// Number of collections among the first `n` calls.
pub open spec fn gc_count(c: RuntimeConfig, n: nat) -> nat
    decreases n,
{
    if n == 0 {
        0
    } else {
        let before = gc_count(c, (n - 1) as nat);
        match run(c, (n - 1) as nat) {
            Some(s) => if collects(c, s) {
                before + 1
            } else {
                before
            },
            None => before,
        }
    }
}

/// The two traces of a run: heap pointer and high-water mark, one entry before the first
/// call and one after each call.
#[derive(Debug)]
pub struct Points {
    pub hp: Vec<u32>,
    pub high_water: Vec<u32>,
}

/// How a run ended.
#[derive(Clone, Copy, Debug, PartialEq, Eq, Structural)]
pub enum Outcome {
    /// All calls were simulated.
    Completed,
    /// The call with this zero-based index could not be modelled in 32 bits.
    Exhausted { at_call: u32 },
}

/// The result of a run.
#[derive(Debug)]
pub struct Simulation {
    pub points: Points,
    pub outcome: Outcome,
    /// Number of collections performed.
    pub num_gcs: u32,
    /// Number of calls simulated.
    pub calls_made: u32,
}

/// `r` is the result of running `c`: the traces follow `run` for as long as it lasts, and the
/// outcome says whether it lasted all the calls.
pub open spec fn simulates(c: RuntimeConfig, r: Simulation) -> bool {
    let k = r.calls_made as nat;
    &&& r.points.hp@.len() == k + 1
    &&& r.points.high_water@.len() == k + 1
    &&& forall|i: nat|
        i <= k ==> (#[trigger] run(c, i) matches Some(s) && r.points.hp@[i as int] == s.hp
            && r.points.high_water@[i as int] == s.last_high_water)
    &&& r.num_gcs == gc_count(c, k)
    &&& match r.outcome {
        Outcome::Completed => k == c.num_calls,
        Outcome::Exhausted { at_call } => at_call == k && k < c.num_calls && run(c, k + 1) is None,
    }
}

/// Once the memory has run out, the run stays out of memory.
pub proof fn lemma_run_exhausted_stays(c: RuntimeConfig, i: nat, j: nat)
    requires
        i <= j,
        run(c, i) is None,
    ensures
        run(c, j) is None,
    decreases j - i,
{
    if i < j {
        lemma_run_exhausted_stays(c, i, (j - 1) as nat);
    }
}

/// Every state a run reaches is well formed.
pub proof fn lemma_run_wf(c: RuntimeConfig, n: nat)
    requires
        run(c, n) is Some,
    ensures
        run(c, n)->Some_0.wf(),
    decreases n,
{
    if n > 0 {
        lemma_run_wf(c, (n - 1) as nat);
    }
}

/// Simulates one call made in state `state`. Returns the next state and whether the call
/// triggered a collection, or `None` when the call cannot be modelled in 32 bits.
pub fn step(config: &RuntimeConfig, state: SimState) -> (r: Option<(SimState, bool)>)
    requires
        config.wf(),
        state.wf(),
    ensures
        r is None <==> spec_step(*config, state) is None,
        r matches Some((t, collected)) ==> spec_step(*config, state) == Some(t) && collected
            == collects(*config, state) && t.wf(),
{
    let limit: u64 = heap_limit(config, state.last_hp);
    let hp_pre: u64 = state.hp as u64 + config.allocation_rate as u64;
    if hp_pre > u32::MAX as u64 {
        return None;
    }
    let hp_pre: u32 = hp_pre as u32;
    if hp_pre as u64 >= limit {
        match collect(config.gc_strategy, hp_pre, state.last_hp, config.survival_rate) {
            Some(g) => {
                let high_water: u32 = if g.peak >= state.last_high_water {
                    g.peak
                } else {
                    state.last_high_water
                };
                Some((SimState { last_hp: g.post_hp, hp: g.post_hp, last_high_water: high_water }, true))
            },
            None => None,
        }
    } else {
        let high_water: u32 = if hp_pre >= state.last_high_water {
            hp_pre
        } else {
            state.last_high_water
        };
        Some((SimState { last_hp: state.last_hp, hp: hp_pre, last_high_water: high_water }, false))
    }
}

/// Runs the simulation for `config.num_calls` calls, or until the memory runs out.
pub fn generate_points(config: RuntimeConfig) -> (r: Simulation)
    requires
        config.wf(),
    ensures
        simulates(config, r),
        r.outcome is Completed <==> run(config, config.num_calls as nat) is Some,
        r.points.hp@.len() == r.points.high_water@.len(),
        r.points.hp@[0] == 0,
        r.points.high_water@[0] == 0,
        forall|i: int, j: int|
            0 <= i <= j < r.points.high_water@.len() ==> #[trigger] r.points.high_water@[i]
                <= #[trigger] r.points.high_water@[j],
{
    let mut hp: Vec<u32> = Vec::new();
    hp.push(0);
    let mut high_water: Vec<u32> = Vec::new();
    high_water.push(0);
    let mut state: SimState = SimState::new();
    let mut num_gcs: u32 = 0;
    let mut i: u32 = 0;
    while i < config.num_calls
        invariant
            config.wf(),
            i <= config.num_calls,
            run(config, i as nat) == Some(state),
            state.wf(),
            hp@.len() == i + 1,
            high_water@.len() == i + 1,
            forall|j: nat|
                j <= i ==> (#[trigger] run(config, j) matches Some(s) && hp@[j as int] == s.hp
                    && high_water@[j as int] == s.last_high_water),
            forall|a: int, b: int|
                0 <= a <= b < high_water@.len() ==> #[trigger] high_water@[a] <= #[trigger] high_water@[b],
            high_water@[i as int] == state.last_high_water,
            num_gcs == gc_count(config, i as nat),
            num_gcs <= i,
        decreases config.num_calls - i,
    {
        match step(&config, state) {
            None => {
                let r = Simulation {
                    points: Points { hp, high_water },
                    outcome: Outcome::Exhausted { at_call: i },
                    num_gcs,
                    calls_made: i,
                };
                proof {
                    assert(run(config, (i + 1) as nat) is None);
                    lemma_run_exhausted_stays(config, (i + 1) as nat, config.num_calls as nat);
                    assert(run(config, 0) is Some);
                }
                return r;
            },
            Some((next, collected)) => {
                if collected {
                    num_gcs = num_gcs + 1;
                }
                hp.push(next.hp);
                high_water.push(next.last_high_water);
                state = next;
                i = i + 1;
                assert(run(config, i as nat) == Some(state));
            },
        }
    }
    let r = Simulation {
        points: Points { hp, high_water },
        outcome: Outcome::Completed,
        num_gcs,
        calls_made: i,
    };
    proof {
        assert(run(config, 0) is Some);
    }
    r
}

} // verus!
