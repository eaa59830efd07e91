use mmsim::collection::{collect, Collection};
use mmsim::config::{GcStrategy, GrowthFactor, RuntimeConfig, Scheduler};
use mmsim::policy::heap_limit;
use mmsim::simulation::{generate_points, step, Outcome, SimState};

fn config(
    gc_strategy: GcStrategy,
    scheduler: Scheduler,
    num_calls: u32,
    allocation_rate: u32,
    survival_rate: u32,
    growth_factor: GrowthFactor,
    small_heap_delta: u64,
    max_hp_for_gc: u64,
) -> RuntimeConfig {
    RuntimeConfig {
        gc_strategy,
        scheduler,
        num_calls,
        allocation_rate,
        survival_rate,
        growth_factor,
        small_heap_delta,
        max_hp_for_gc,
    }
}

fn doubling_old(num_calls: u32) -> RuntimeConfig {
    config(
        GcStrategy::MarkCompact,
        Scheduler::Old,
        num_calls,
        100,
        50,
        GrowthFactor::whole(2),
        50,
        10_000,
    )
}

#[test]
fn default_config_values() {
    let c = RuntimeConfig::default();
    assert_eq!(c.gc_strategy, GcStrategy::MarkCompact);
    assert_eq!(c.scheduler, Scheduler::New);
    assert_eq!(c.num_calls, 100_000);
    assert_eq!(c.allocation_rate, 100_000);
    assert_eq!(c.survival_rate, 50);
    assert_eq!(c.growth_factor, GrowthFactor { numerator: 3, denominator: 2 });
    assert_eq!(c.small_heap_delta, 10 * 1024 * 1024);
    assert_eq!(c.max_hp_for_gc, 2 * 1024 * 1024 * 1024);
}

#[test]
fn growth_factor_rejects_zero_denominator() {
    assert_eq!(GrowthFactor::new(1, 0), None);
    assert_eq!(
        GrowthFactor::new(3, 2),
        Some(GrowthFactor { numerator: 3, denominator: 2 })
    );
}

#[test]
fn growth_factor_scales_and_truncates() {
    let g = GrowthFactor::new(3, 2).unwrap();
    assert_eq!(g.scale(101), 151);
    assert_eq!(g.scale(0), 0);
    let big = GrowthFactor::whole(u64::MAX);
    assert_eq!(big.scale(u32::MAX), u32::MAX as u128 * u64::MAX as u128);
}

#[test]
fn old_scheduler_limits_of_the_worked_example() {
    let c = doubling_old(2);
    assert_eq!(heap_limit(&c, 0), 50);
    assert_eq!(heap_limit(&c, 50), 100);
    // capped by max_hp_for_gc
    assert_eq!(heap_limit(&c, 9_000), 10_000);
}

#[test]
fn old_scheduler_huge_delta_does_not_overflow() {
    let c = config(
        GcStrategy::MarkCompact,
        Scheduler::Old,
        1,
        1,
        50,
        GrowthFactor::whole(1),
        u64::MAX,
        u64::MAX,
    );
    assert_eq!(heap_limit(&c, 10), u64::MAX);
}

#[test]
fn new_scheduler_caps_by_max_live() {
    let mc = config(
        GcStrategy::MarkCompact,
        Scheduler::New,
        1,
        1,
        50,
        GrowthFactor::whole(1000),
        0,
        0,
    );
    assert_eq!(heap_limit(&mc, 1_000_000_000), 2_582_408_385);
    assert_eq!(heap_limit(&mc, 1_000), 1_000_000);
    let cp = config(
        GcStrategy::Copying,
        Scheduler::New,
        1,
        1,
        50,
        GrowthFactor::whole(1000),
        0,
        0,
    );
    assert_eq!(heap_limit(&cp, 1_000_000_000), 1_573_741_824);
    assert_eq!(heap_limit(&cp, 0), 0);
}

#[test]
fn mark_compact_collection_costs_the_bitmap() {
    assert_eq!(
        collect(GcStrategy::MarkCompact, 100, 0, 50),
        Some(Collection { peak: 130_150_624, post_hp: 50 })
    );
}

#[test]
fn copying_collection_costs_the_live_heap() {
    assert_eq!(
        collect(GcStrategy::Copying, 150, 50, 50),
        Some(Collection { peak: 250, post_hp: 100 })
    );
    // floor of 33 * 33 / 100 = 10.89
    assert_eq!(
        collect(GcStrategy::Copying, 33, 0, 33),
        Some(Collection { peak: 43, post_hp: 10 })
    );
}

#[test]
fn collection_peak_overflow_is_none() {
    assert_eq!(collect(GcStrategy::MarkCompact, 4_200_000_000, 0, 50), None);
    assert_eq!(collect(GcStrategy::Copying, 3_000_000_000, 0, 50), None);
}

#[test]
fn collection_post_heap_overflow_is_none() {
    assert_eq!(collect(GcStrategy::MarkCompact, 3_000_000_000, 0, 200), None);
}

#[test]
fn step_reports_collection() {
    let c = doubling_old(2);
    let s = SimState::new();
    let (t, collected) = step(&c, s).unwrap();
    assert!(collected);
    assert_eq!(t, SimState { last_hp: 50, hp: 50, last_high_water: 130_150_624 });
    let quiet = config(
        GcStrategy::MarkCompact,
        Scheduler::Old,
        1,
        10,
        50,
        GrowthFactor::whole(2),
        50,
        10_000,
    );
    let (u, collected) = step(&quiet, s).unwrap();
    assert!(!collected);
    assert_eq!(u, SimState { last_hp: 0, hp: 10, last_high_water: 10 });
}

#[test]
fn step_pointer_overflow_is_none() {
    let c = config(
        GcStrategy::Copying,
        Scheduler::New,
        1,
        u32::MAX,
        50,
        GrowthFactor::whole(2),
        0,
        0,
    );
    let s = SimState { last_hp: 0, hp: 1, last_high_water: 1 };
    assert_eq!(step(&c, s), None);
}

#[test]
fn worked_example_two_calls() {
    let r = generate_points(doubling_old(2));
    assert_eq!(r.points.hp, vec![0, 50, 100]);
    assert_eq!(r.points.high_water, vec![0, 130_150_624, 130_150_674]);
    assert_eq!(r.outcome, Outcome::Completed);
    assert_eq!(r.num_gcs, 2);
    assert_eq!(r.calls_made, 2);
}

#[test]
fn zero_calls_gives_the_seed_only() {
    let r = generate_points(doubling_old(0));
    assert_eq!(r.points.hp, vec![0]);
    assert_eq!(r.points.high_water, vec![0]);
    assert_eq!(r.outcome, Outcome::Completed);
    assert_eq!(r.num_gcs, 0);
}

#[test]
fn traces_have_equal_length_and_start_at_zero() {
    let r = generate_points(RuntimeConfig::default());
    assert_eq!(r.points.hp.len(), r.points.high_water.len());
    assert_eq!(r.points.hp[0], 0);
    assert_eq!(r.points.high_water[0], 0);
}

#[test]
fn high_water_never_decreases() {
    let mut c = RuntimeConfig::default();
    c.gc_strategy = GcStrategy::Copying;
    c.num_calls = 5_000;
    let r = generate_points(c);
    for w in r.points.high_water.windows(2) {
        assert!(w[0] <= w[1]);
    }
    assert!(r.num_gcs > 0);
}

#[test]
fn same_config_same_result() {
    let a = generate_points(RuntimeConfig::default());
    let b = generate_points(RuntimeConfig::default());
    assert_eq!(a.points.hp, b.points.hp);
    assert_eq!(a.points.high_water, b.points.high_water);
    assert_eq!(a.outcome, b.outcome);
    assert_eq!(a.num_gcs, b.num_gcs);
    assert_eq!(a.calls_made, b.calls_made);
}

#[test]
fn collection_follows_limit_and_survival_formula() {
    // limit 250 is reached on the third call; 300 - 0 bytes, 40% survive
    let c = config(
        GcStrategy::Copying,
        Scheduler::Old,
        4,
        100,
        40,
        GrowthFactor::whole(2),
        250,
        10_000,
    );
    let r = generate_points(c);
    assert_eq!(r.points.hp, vec![0, 100, 200, 120, 220]);
    assert_eq!(r.points.high_water, vec![0, 100, 200, 420, 420]);
    assert_eq!(r.num_gcs, 1);
}

#[test]
fn zero_survival_resets_to_last_hp() {
    let c = config(
        GcStrategy::Copying,
        Scheduler::Old,
        6,
        100,
        0,
        GrowthFactor::whole(2),
        250,
        10_000,
    );
    let r = generate_points(c);
    assert_eq!(r.points.hp, vec![0, 100, 200, 0, 100, 200, 0]);
    assert_eq!(r.points.high_water, vec![0, 100, 200, 300, 300, 300, 300]);
    assert_eq!(r.num_gcs, 2);
}

#[test]
fn unit_growth_collects_every_call() {
    let c = config(
        GcStrategy::MarkCompact,
        Scheduler::Old,
        5,
        100,
        50,
        GrowthFactor::whole(1),
        0,
        u64::MAX,
    );
    for last_hp in [0u32, 1, 50, 1_000_000, u32::MAX] {
        assert!(heap_limit(&c, last_hp) <= last_hp as u64);
    }
    let r = generate_points(c);
    assert_eq!(r.points.hp, vec![0, 50, 100, 150, 200, 250]);
    assert_eq!(r.num_gcs, 5);
    assert_eq!(r.outcome, Outcome::Completed);
}

#[test]
fn exhausted_on_first_call_when_bitmap_does_not_fit() {
    let c = config(
        GcStrategy::MarkCompact,
        Scheduler::Old,
        10,
        4_200_000_000,
        50,
        GrowthFactor::new(3, 2).unwrap(),
        10 * 1024 * 1024,
        2 * 1024 * 1024 * 1024,
    );
    let r = generate_points(c);
    assert_eq!(r.outcome, Outcome::Exhausted { at_call: 0 });
    assert_eq!(r.points.hp, vec![0]);
    assert_eq!(r.points.high_water, vec![0]);
    assert_eq!(r.num_gcs, 0);
    assert_eq!(r.calls_made, 0);
}

#[test]
fn exhausted_when_accumulated_heap_and_bitmap_overflow() {
    let c = config(
        GcStrategy::MarkCompact,
        Scheduler::Old,
        10,
        2_100_000_000,
        100,
        GrowthFactor::whole(1),
        0,
        u64::MAX,
    );
    let r = generate_points(c);
    assert_eq!(r.outcome, Outcome::Exhausted { at_call: 1 });
    assert_eq!(r.points.hp, vec![0, 2_100_000_000]);
    assert_eq!(r.points.high_water, vec![0, 2_230_150_524]);
    assert!(r.points.hp.len() < 11);
    assert_eq!(r.num_gcs, 1);
    assert_eq!(r.calls_made, 1);
}

#[test]
fn exhausted_when_pointer_overflows() {
    let c = config(
        GcStrategy::MarkCompact,
        Scheduler::New,
        10,
        1_000_000_000,
        100,
        GrowthFactor::new(3, 2).unwrap(),
        0,
        0,
    );
    let r = generate_points(c);
    assert_eq!(r.outcome, Outcome::Exhausted { at_call: 4 });
    assert_eq!(
        r.points.hp,
        vec![0, 1_000_000_000, 2_000_000_000, 3_000_000_000, 4_000_000_000]
    );
    assert_eq!(r.points.high_water[4], 4_130_150_524);
    assert_eq!(r.num_gcs, 4);
}
