use inflation_sim::chart::{chart_layout, micro_to_tokens, series_color, LineColor, SeriesKind};
use inflation_sim::sim::{
    simulate_default, total_tokens_created_dev_slice_series,
    total_tokens_created_from_delegated_dev_slice_series, total_tokens_created_series,
    total_tokens_series, TOTAL_STEPS,
};

#[test]
fn chart_layout_fixes_the_canvas_and_axes() {
    let c = chart_layout();
    assert_eq!(c.width, 640);
    assert_eq!(c.height, 480);
    assert_eq!(c.margin, 10);
    assert_eq!(c.x_label_area_size, 100);
    assert_eq!(c.y_label_area_size, 100);
    assert_eq!(c.x_min_steps, 0);
    assert_eq!(c.x_max_steps, 20);
    assert_eq!(c.y_min_tokens, 0);
    assert_eq!(c.y_max_tokens, 100_000_000);
    assert_eq!(c.x_label_count, 20);
    assert_eq!(c.y_label_count, 15);
}

#[test]
fn each_series_keeps_its_color() {
    assert_eq!(series_color(&SeriesKind::TotalTokens), LineColor::Red);
    assert_eq!(series_color(&SeriesKind::TotalTokensCreated), LineColor::Blue);
    assert_eq!(
        series_color(&SeriesKind::TotalTokensCreatedDevSlice),
        LineColor::Blue
    );
    assert_eq!(
        series_color(&SeriesKind::TotalTokensCreatedFromDelegatedDevSlice),
        LineColor::Green
    );
}

#[test]
fn micro_to_tokens_floors_toward_negative_infinity() {
    assert_eq!(micro_to_tokens(0), 0);
    assert_eq!(micro_to_tokens(1_500_000), 1);
    assert_eq!(micro_to_tokens(2_000_000), 2);
    assert_eq!(micro_to_tokens(-1), -1);
    assert_eq!(micro_to_tokens(-1_500_000), -2);
    assert_eq!(micro_to_tokens(-2_000_000), -2);
}

#[test]
fn series_carry_the_step_index_and_the_field_values() {
    let history = simulate_default();
    let totals = total_tokens_series(&history);
    let created = total_tokens_created_series(&history);
    let dev = total_tokens_created_dev_slice_series(&history);
    let delegated = total_tokens_created_from_delegated_dev_slice_series(&history);
    assert_eq!(totals.len(), TOTAL_STEPS as usize);
    assert_eq!(created.len(), TOTAL_STEPS as usize);
    assert_eq!(dev.len(), TOTAL_STEPS as usize);
    assert_eq!(delegated.len(), TOTAL_STEPS as usize);
    for k in 0..history.len() {
        assert_eq!(totals[k], (k as u64, history[k].total_tokens));
        assert_eq!(created[k], (k as u64, history[k].total_tokens_created));
        assert_eq!(dev[k], (k as u64, history[k].total_tokens_created_dev_slice));
        assert_eq!(
            delegated[k],
            (
                k as u64,
                history[k].total_tokens_created_from_delegated_dev_slice
            )
        );
    }
}

#[test]
fn first_series_point_is_the_first_snapshot() {
    let history = simulate_default();
    let totals = total_tokens_series(&history);
    assert_eq!(totals[0], (0, 11_050_000 * 1_000_000));
}
