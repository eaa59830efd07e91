use vstd::prelude::*;

use crate::config::{GcStrategy, RuntimeConfig, Scheduler};

verus! {

/// Largest live set a copying collection can handle: 2 GiB.
pub const COPYING_GC_MAX_LIVE: u64 = 2 * 1024 * 1024 * 1024;

/// Largest live set a mark-compact collection can handle: the `x` with `x + x / 32 = 4 GiB`,
/// leaving room for the mark bitmap.
pub const MARK_COMPACT_GC_MAX_LIVE: u64 = 4_164_816_771;

/// Size of the mark bitmap for the largest live set (`MARK_COMPACT_GC_MAX_LIVE / 32`).
pub const MARK_COMPACT_GC_MAX_BITMAP_SIZE: u32 = 130_150_524;

/// The largest live set the strategy can collect.
pub open spec fn spec_max_live(strategy: GcStrategy) -> int {
    match strategy {
        GcStrategy::MarkCompact => MARK_COMPACT_GC_MAX_LIVE as int,
        GcStrategy::Copying => COPYING_GC_MAX_LIVE as int,
    }
}

/// The heap pointer value at which the next collection is due, given the heap size
/// `last_hp` after the previous collection.
///
/// Old scheduler: the larger of `last_hp` scaled by the growth factor and
/// `last_hp + small_heap_delta`, capped at `max_hp_for_gc`.
/// New scheduler: the smaller of `last_hp` scaled by the growth factor and the midpoint
/// of `last_hp` and the strategy's largest collectable live set.
pub open spec fn spec_heap_limit(c: RuntimeConfig, last_hp: int) -> int {
    let scaled = c.growth_factor.spec_scale(last_hp);
    match c.scheduler {
        Scheduler::Old => {
            let grown = if scaled >= last_hp + c.small_heap_delta {
                scaled
            } else {
                last_hp + c.small_heap_delta
            };
            if grown <= c.max_hp_for_gc {
                grown
            } else {
                c.max_hp_for_gc as int
            }
        },
        Scheduler::New => {
            let cap = (last_hp + spec_max_live(c.gc_strategy)) / 2;
            if scaled <= cap {
                scaled
            } else {
                cap
            }
        },
    }
}

impl GcStrategy {
    /// The largest live set this strategy can collect.
    pub fn max_live(&self) -> (r: u64)
        ensures
            r == spec_max_live(*self),
    {
        match self {
            GcStrategy::MarkCompact => MARK_COMPACT_GC_MAX_LIVE,
            GcStrategy::Copying => COPYING_GC_MAX_LIVE,
        }
    }
}

/// The heap pointer value at which the next collection is due.
pub fn heap_limit(config: &RuntimeConfig, last_hp: u32) -> (r: u64)
    requires
        config.wf(),
    ensures
        r == spec_heap_limit(*config, last_hp as int),
{
    let scaled: u128 = config.growth_factor.scale(last_hp);
    match config.scheduler {
        Scheduler::Old => {
            let floor: u128 = last_hp as u128 + config.small_heap_delta as u128;
            let grown: u128 = if scaled >= floor {
                scaled
            } else {
                floor
            };
            if grown <= config.max_hp_for_gc as u128 {
                grown as u64
            } else {
                config.max_hp_for_gc
            }
        },
        Scheduler::New => {
            let cap: u64 = (last_hp as u64 + config.gc_strategy.max_live()) / 2;
            if scaled <= cap as u128 {
                scaled as u64
            } else {
                cap
            }
        },
    }
}

} // verus!
