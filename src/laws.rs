use vstd::prelude::*;

use crate::config::{RuntimeConfig, Scheduler};
use crate::policy::spec_heap_limit;
use crate::simulation::{
    gc_count, lemma_run_exhausted_stays, lemma_run_wf, run, simulates, Simulation,
};

verus! {

/// A call collects exactly when the heap pointer after its allocation reaches the limit
/// computed from the heap left by the previous collection. A collection leaves the heap at
/// `last_hp + floor((hp_pre - last_hp) * survival_rate / 100)`, and that becomes the new
/// `last_hp`; a call without one only adds its allocation.
pub proof fn lemma_collection_trigger(c: RuntimeConfig, i: nat)
    requires
        c.wf(),
        run(c, i + 1) is Some,
    ensures
        run(c, i) is Some,
        ({
            let s = run(c, i)->Some_0;
            let t = run(c, i + 1)->Some_0;
            let hp_pre = s.hp + c.allocation_rate;
            let limit = spec_heap_limit(c, s.last_hp as int);
            &&& hp_pre >= limit <==> gc_count(c, i + 1) == gc_count(c, i) + 1
            &&& hp_pre < limit <==> gc_count(c, i + 1) == gc_count(c, i)
            &&& hp_pre >= limit ==> t.hp == s.last_hp + (hp_pre - s.last_hp) * c.survival_rate
                / 100 && t.last_hp == t.hp
            &&& hp_pre < limit ==> t.hp == hp_pre && t.last_hp == s.last_hp
        }),
{
    lemma_run_wf(c, i);
    let hp_pre = run(c, i)->Some_0.hp + c.allocation_rate;
    if hp_pre <= u32::MAX {
        assert((hp_pre as u32) as int == hp_pre);
    }
}

/// Two results of the same configuration agree in every respect: the simulation depends on
/// its configuration alone.
pub proof fn lemma_deterministic(c: RuntimeConfig, a: Simulation, b: Simulation)
    requires
        simulates(c, a),
        simulates(c, b),
    ensures
        a.points.hp@ == b.points.hp@,
        a.points.high_water@ == b.points.high_water@,
        a.outcome == b.outcome,
        a.num_gcs == b.num_gcs,
        a.calls_made == b.calls_made,
{
    let ka = a.calls_made as nat;
    let kb = b.calls_made as nat;
    assert(run(c, ka) is Some);
    assert(run(c, kb) is Some);
    if ka < kb {
        lemma_run_exhausted_stays(c, ka + 1, kb);
    }
    if kb < ka {
        lemma_run_exhausted_stays(c, kb + 1, ka);
    }
    assert(ka == kb);
    assert forall|i: int| 0 <= i < a.points.hp@.len() implies a.points.hp@[i] == b.points.hp@[i]
        && a.points.high_water@[i] == b.points.high_water@[i] by {
        assert(run(c, i as nat) is Some);
    }
    assert(a.points.hp@ =~= b.points.hp@);
    assert(a.points.high_water@ =~= b.points.high_water@);
}

/// With a survival rate of zero, every collection puts the heap pointer back to where the
/// previous collection left it.
pub proof fn lemma_zero_survival_resets(c: RuntimeConfig, i: nat)
    requires
        c.wf(),
        c.survival_rate == 0,
        run(c, i + 1) is Some,
        gc_count(c, i + 1) == gc_count(c, i) + 1,
    ensures
        run(c, i + 1)->Some_0.hp == run(c, i)->Some_0.last_hp,
{
    lemma_collection_trigger(c, i);
}

/// With the old scheduler, a growth factor of one and no minimum growth, the heap limit never
/// exceeds the heap left by the last collection, so every call collects.
pub proof fn lemma_unit_growth_collects_every_call(c: RuntimeConfig, i: nat)
    requires
        c.wf(),
        c.scheduler == Scheduler::Old,
        c.growth_factor.numerator == c.growth_factor.denominator,
        c.small_heap_delta == 0,
        run(c, i + 1) is Some,
    ensures
        forall|x: int| 0 <= x ==> #[trigger] spec_heap_limit(c, x) <= x,
        gc_count(c, i + 1) == gc_count(c, i) + 1,
{
    assert forall|x: int| 0 <= x implies #[trigger] spec_heap_limit(c, x) <= x by {
        let d = c.growth_factor.denominator as int;
        assert(x * d / d == x) by (nonlinear_arith)
            requires
                d > 0,
        ;
    }
    lemma_collection_trigger(c, i);
    lemma_run_wf(c, i);
}

} // verus!
