use inflation_sim::sim::{
    effective_inflation, initial_period, redelegate, simulate, simulate_default, Period,
    INITIAL_DEV_SLICE_RATE_PPM, INITIAL_INFLATION_RATE_PPM, INITIAL_TOTAL_TOKENS_MICRO,
    TOTAL_STEPS,
};

const MICRO: i128 = 1_000_000;

#[test]
fn effective_inflation_starts_at_nominal_rate() {
    assert_eq!(effective_inflation(0, 150_000), 150_000);
}

#[test]
fn effective_inflation_decays_linearly() {
    for i in 0..20u64 {
        assert_eq!(
            effective_inflation(i, 150_000),
            150_000 - (i as i128) * 10_000
        );
    }
}

#[test]
fn effective_inflation_hits_zero_at_step_fifteen() {
    assert_eq!(effective_inflation(15, 150_000), 0);
}

#[test]
fn effective_inflation_goes_negative_after_step_fifteen() {
    assert_eq!(effective_inflation(16, 150_000), -10_000);
    assert_eq!(effective_inflation(19, 150_000), -40_000);
}

#[test]
fn initial_period_holds_the_fixed_constants() {
    let p = initial_period();
    assert_eq!(p.total_tokens, 10_000_000 * MICRO);
    assert_eq!(p.inflation_rate, 150_000);
    assert_eq!(p.dev_slice_rate, 200_000);
    assert_eq!(p.total_tokens_created, 0);
    assert_eq!(p.total_tokens_created_dev_slice, 0);
    assert_eq!(p.total_tokens_created_from_delegated_dev_slice, 0);
    assert_eq!(p.total_tokens, INITIAL_TOTAL_TOKENS_MICRO);
    assert_eq!(p.inflation_rate, INITIAL_INFLATION_RATE_PPM);
    assert_eq!(p.dev_slice_rate, INITIAL_DEV_SLICE_RATE_PPM);
}

#[test]
fn first_step_mints_the_expected_rewards() {
    let p1 = redelegate(0, initial_period());
    // 10_000_000 * 0.7 * 0.15 = 1_050_000 tokens minted
    assert_eq!(p1.total_tokens, 11_050_000 * MICRO);
    assert_eq!(p1.total_tokens_created, 1_050_000 * MICRO);
    // 1_050_000 * 0.2 = 210_000 tokens into the dev slice
    assert_eq!(p1.total_tokens_created_dev_slice, 210_000 * MICRO);
    assert_eq!(p1.total_tokens_created_from_delegated_dev_slice, 0);
    assert_eq!(p1.inflation_rate, 150_000);
    assert_eq!(p1.dev_slice_rate, 200_000);
}

#[test]
fn second_step_compounds_the_dev_slice() {
    let p1 = redelegate(0, initial_period());
    let p2 = redelegate(1, p1);
    // 11_050_000 * 0.7 * 0.14 = 1_082_900 tokens minted
    assert_eq!(p2.total_tokens, 12_132_900 * MICRO);
    assert_eq!(p2.total_tokens_created, 2_132_900 * MICRO);
    // dev slice gains 1_082_900 * 0.2 = 216_580 tokens
    assert_eq!(p2.total_tokens_created_dev_slice, 426_580 * MICRO);
    // the 210_000 dev-slice tokens earn 210_000 * 0.7 * 0.14 = 20_580
    assert_eq!(p2.total_tokens_created_from_delegated_dev_slice, 20_580 * MICRO);
}

#[test]
fn negative_effective_inflation_shrinks_the_supply() {
    let p = Period {
        total_tokens: 1_000_000 * MICRO,
        inflation_rate: -100_000,
        dev_slice_rate: 200_000,
        total_tokens_created: 0,
        total_tokens_created_dev_slice: 0,
        total_tokens_created_from_delegated_dev_slice: 0,
    };
    let next = redelegate(0, p);
    // 1_000_000 * 0.7 * -0.1 = -70_000 tokens
    assert_eq!(next.total_tokens, 930_000 * MICRO);
    assert_eq!(next.total_tokens_created, -70_000 * MICRO);
    assert_eq!(next.total_tokens_created_dev_slice, -14_000 * MICRO);
}

#[test]
fn full_run_has_one_snapshot_per_step() {
    let history = simulate_default();
    assert_eq!(history.len(), TOTAL_STEPS as usize);
    assert_eq!(history[0].total_tokens, 11_050_000 * MICRO);
}

#[test]
fn simulate_matches_simulate_default_on_the_initial_period() {
    let a = simulate(initial_period());
    let b = simulate_default();
    assert_eq!(a.len(), b.len());
    for k in 0..a.len() {
        assert_eq!(a[k], b[k]);
    }
}

#[test]
fn created_total_tracks_supply_over_the_whole_run() {
    let history = simulate_default();
    for p in &history {
        assert_eq!(
            p.total_tokens - INITIAL_TOTAL_TOKENS_MICRO,
            p.total_tokens_created
        );
    }
}

#[test]
fn dev_slice_never_exceeds_total_creation() {
    let history = simulate_default();
    for p in &history {
        assert!(p.total_tokens_created_dev_slice <= p.total_tokens_created);
        assert!(p.total_tokens_created_dev_slice >= 0);
    }
}

#[test]
fn creation_series_are_nondecreasing_while_inflation_is_nonnegative() {
    let history = simulate_default();
    for k in 0..15 {
        assert!(history[k + 1].total_tokens >= history[k].total_tokens);
        assert!(history[k + 1].total_tokens_created >= history[k].total_tokens_created);
        assert!(
            history[k + 1].total_tokens_created_dev_slice
                >= history[k].total_tokens_created_dev_slice
        );
        assert!(
            history[k + 1].total_tokens_created_from_delegated_dev_slice
                >= history[k].total_tokens_created_from_delegated_dev_slice
        );
    }
}

#[test]
fn creation_total_shrinks_once_inflation_is_negative() {
    let history = simulate_default();
    for k in 15..19 {
        assert!(history[k + 1].total_tokens_created < history[k].total_tokens_created);
        assert!(history[k + 1].total_tokens < history[k].total_tokens);
    }
}

#[test]
fn final_snapshot_holds_the_expected_totals() {
    let history = simulate_default();
    let last = history[history.len() - 1];
    assert_eq!(last.total_tokens, 20_968_157_690_096);
    assert_eq!(last.total_tokens_created, 10_968_157_690_096);
    assert_eq!(last.total_tokens_created_dev_slice, 2_193_631_538_015);
    assert_eq!(
        last.total_tokens_created_from_delegated_dev_slice,
        793_413_646_108
    );
}

#[test]
fn rates_never_change_across_the_run() {
    let history = simulate_default();
    for p in &history {
        assert_eq!(p.inflation_rate, INITIAL_INFLATION_RATE_PPM);
        assert_eq!(p.dev_slice_rate, INITIAL_DEV_SLICE_RATE_PPM);
    }
}
