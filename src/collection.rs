use vstd::prelude::*;

use crate::config::GcStrategy;
use crate::policy::MARK_COMPACT_GC_MAX_BITMAP_SIZE;

verus! {

/// What one collection costs and leaves behind.
#[derive(Clone, Copy, Debug, PartialEq, Eq, Structural)]
pub struct Collection {
    /// Memory in use at the height of the collection, overhead included.
    pub peak: u32,
    /// Heap pointer once the collection is over.
    pub post_hp: u32,
}

/// Bytes allocated since the last collection that survive this one:
/// `floor((hp_pre - last_hp) * survival_rate / 100)`.
pub open spec fn spec_new_live(hp_pre: int, last_hp: int, survival_rate: int) -> int {
    (hp_pre - last_hp) * survival_rate / 100
}

/// Memory in use while collecting. Mark-compact adds its worst-case bitmap to the heap;
/// copying adds a second copy of the live heap.
pub open spec fn spec_peak(strategy: GcStrategy, hp_pre: int, last_hp: int, survival_rate: int) -> int {
    match strategy {
        GcStrategy::MarkCompact => hp_pre + MARK_COMPACT_GC_MAX_BITMAP_SIZE,
        GcStrategy::Copying => hp_pre + (last_hp + spec_new_live(hp_pre, last_hp, survival_rate)),
    }
}

/// The collection that starts at heap pointer `hp_pre`, or `None` when its peak or the heap
/// left behind does not fit in 32 bits.
pub open spec fn spec_collect(strategy: GcStrategy, hp_pre: u32, last_hp: u32, survival_rate: u32) -> Option<Collection> {
    let peak = spec_peak(strategy, hp_pre as int, last_hp as int, survival_rate as int);
    let post = last_hp + spec_new_live(hp_pre as int, last_hp as int, survival_rate as int);
    if peak <= u32::MAX && post <= u32::MAX {
        Some(Collection { peak: peak as u32, post_hp: post as u32 })
    } else {
        None
    }
}

/// Models a collection that starts at heap pointer `hp_pre`, when the previous one left the
/// heap at `last_hp`.
pub fn collect(strategy: GcStrategy, hp_pre: u32, last_hp: u32, survival_rate: u32) -> (r: Option<Collection>)
    requires
        last_hp <= hp_pre,
    ensures
        r == spec_collect(strategy, hp_pre, last_hp, survival_rate),
{
    let new_allocs: u64 = (hp_pre - last_hp) as u64;
    let rate: u64 = survival_rate as u64;
    assert(new_allocs * rate <= 0xffff_ffffu64 * 0xffff_ffffu64) by (nonlinear_arith)
        requires
            new_allocs <= 0xffff_ffffu64,
            rate <= 0xffff_ffffu64,
    ;
    let new_live: u64 = new_allocs * rate / 100;
    let post: u64 = last_hp as u64 + new_live;
    let peak: u64 = match strategy {
        GcStrategy::MarkCompact => hp_pre as u64 + MARK_COMPACT_GC_MAX_BITMAP_SIZE as u64,
        GcStrategy::Copying => hp_pre as u64 + post,
    };
    if peak <= u32::MAX as u64 && post <= u32::MAX as u64 {
        Some(Collection { peak: peak as u32, post_hp: post as u32 })
    } else {
        None
    }
}

} // verus!
