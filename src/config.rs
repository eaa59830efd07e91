use vstd::prelude::*;

verus! {

/// How a collection reclaims memory.
#[derive(Clone, Copy, Debug, PartialEq, Eq, Structural)]
pub enum GcStrategy {
    /// Marks live data in a side bitmap, then compacts in place.
    MarkCompact,
    /// Copies the live data to a second space and back.
    Copying,
}

/// How the heap limit for the next collection is chosen.
#[derive(Clone, Copy, Debug, PartialEq, Eq, Structural)]
pub enum Scheduler {
    /// Grows by a factor or a fixed delta, whichever is larger, under a hard ceiling.
    Old,
    /// Grows by a factor, bounded by what the strategy can still collect.
    New,
}

/// A non-negative rational multiplier `numerator / denominator`.
#[derive(Clone, Copy, Debug, PartialEq, Eq, Structural)]
pub struct GrowthFactor {
    pub numerator: u64,
    pub denominator: u64,
}

impl GrowthFactor {
    /// The factor is usable when its denominator is non-zero.
    pub open spec fn wf(&self) -> bool {
        self.denominator > 0
    }

    /// `x` scaled by the factor, truncated towards zero.
    pub open spec fn spec_scale(&self, x: int) -> int {
        x * self.numerator / self.denominator as int
    }

    /// Builds the factor `numerator / denominator`; `None` when the denominator is zero.
    pub fn new(numerator: u64, denominator: u64) -> (r: Option<GrowthFactor>)
        ensures
            denominator == 0 <==> r is None,
            r matches Some(g) ==> g.wf() && g.numerator == numerator && g.denominator
                == denominator,
    {
        if denominator == 0 {
            None
        } else {
            Some(GrowthFactor { numerator, denominator })
        }
    }

    /// The whole number `n` as a factor.
    pub fn whole(n: u64) -> (r: GrowthFactor)
        ensures
            r.wf(),
            r.numerator == n,
            r.denominator == 1,
    {
        GrowthFactor { numerator: n, denominator: 1 }
    }

    /// `x` scaled by the factor, truncated towards zero.
    pub fn scale(&self, x: u32) -> (r: u128)
        requires
            self.wf(),
        ensures
            r == self.spec_scale(x as int),
    {
        let num: u128 = self.numerator as u128;
        let den: u128 = self.denominator as u128;
        let xx: u128 = x as u128;
        assert(xx * num <= 0xffff_ffffu128 * 0xffff_ffff_ffff_ffffu128) by (nonlinear_arith)
            requires
                xx <= 0xffff_ffffu128,
                num <= 0xffff_ffff_ffff_ffffu128,
        ;
        let prod: u128 = xx * num;
        prod / den
    }
}

/// The parameters of one simulation run.
#[derive(Clone, Copy, Debug)]
pub struct RuntimeConfig {
    pub gc_strategy: GcStrategy,
    pub scheduler: Scheduler,
    /// Number of simulated calls.
    pub num_calls: u32,
    /// Bytes allocated by each call.
    pub allocation_rate: u32,
    /// Percentage of the bytes allocated since the last collection that survive the next one.
    pub survival_rate: u32,
    /// Multiplier applied to the heap size after a collection to get the next limit.
    pub growth_factor: GrowthFactor,
    /// Least growth of the heap between collections (old scheduler only).
    pub small_heap_delta: u64,
    /// Ceiling on the heap limit (old scheduler only).
    pub max_hp_for_gc: u64,
}

impl RuntimeConfig {
    /// The configuration is usable when its growth factor is.
    pub open spec fn wf(&self) -> bool {
        self.growth_factor.wf()
    }
}

impl Default for RuntimeConfig {
    fn default() -> (r: RuntimeConfig)
        ensures
            r.wf(),
            r.gc_strategy == GcStrategy::MarkCompact,
            r.scheduler == Scheduler::New,
            r.num_calls == 100_000,
            r.allocation_rate == 100_000,
            r.survival_rate == 50,
            r.growth_factor == (GrowthFactor { numerator: 3, denominator: 2 }),
            r.small_heap_delta == 10 * 1024 * 1024,
            r.max_hp_for_gc == 2 * 1024 * 1024 * 1024,
    {
        RuntimeConfig {
            gc_strategy: GcStrategy::MarkCompact,
            scheduler: Scheduler::New,
            num_calls: 100_000,
            allocation_rate: 100_000,
            survival_rate: 50,
            growth_factor: GrowthFactor { numerator: 3, denominator: 2 },
            small_heap_delta: 10 * 1024 * 1024,
            max_hp_for_gc: 2 * 1024 * 1024 * 1024,
        }
    }
}

} // verus!
