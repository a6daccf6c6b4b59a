use crate::arith::div_floor;
use crate::sim::{MICRO_PER_TOKEN, REDELEGATIONS_PER_YEAR, YEARS};
use vstd::prelude::*;

verus! {

/// Everything that fixes the rendered chart: canvas, margin, label areas,
/// axis ranges and label counts. The drawing itself happens outside the
/// library, driven by this description.
#[derive(Clone, Copy, Debug, PartialEq, Eq, Structural)]
pub struct ChartLayout {
    pub width: u32,
    pub height: u32,
    pub margin: u32,
    pub x_label_area_size: u32,
    pub y_label_area_size: u32,
    pub x_min_steps: u64,
    pub x_max_steps: u64,
    pub y_min_tokens: i128,
    pub y_max_tokens: i128,
    pub x_label_count: u64,
    pub y_label_count: u64,
}

/// The four time series of a run, in the order they are drawn.
#[derive(Clone, Copy, Debug, PartialEq, Eq, Structural)]
pub enum SeriesKind {
    TotalTokens,
    TotalTokensCreated,
    TotalTokensCreatedDevSlice,
    TotalTokensCreatedFromDelegatedDevSlice,
}

#[derive(Clone, Copy, Debug, PartialEq, Eq, Structural)]
pub enum LineColor {
    Red,
    Blue,
    Green,
}

/// The fixed 640x480 canvas with a 10-unit margin, 100-unit label areas,
/// the x axis spanning the whole run with one label per year, and the
/// y axis spanning 0 to 100 million tokens with 15 labels.
pub fn chart_layout() -> (c: ChartLayout)
    ensures
        c.width == 640,
        c.height == 480,
        c.margin == 10,
        c.x_label_area_size == 100,
        c.y_label_area_size == 100,
        c.x_min_steps == 0,
        c.x_max_steps == YEARS * REDELEGATIONS_PER_YEAR,
        c.y_min_tokens == 0,
        c.y_max_tokens == 100_000_000,
        c.x_label_count == YEARS,
        c.y_label_count == 15,
{
    ChartLayout {
        width: 640,
        height: 480,
        margin: 10,
        x_label_area_size: 100,
        y_label_area_size: 100,
        x_min_steps: 0,
        x_max_steps: YEARS * REDELEGATIONS_PER_YEAR,
        y_min_tokens: 0,
        y_max_tokens: 100_000_000,
        x_label_count: YEARS,
        y_label_count: 15,
    }
}

/// The line color of each series: supply in red, the two creation totals in
/// blue, the delegated dev-slice total in green.
pub fn series_color(kind: &SeriesKind) -> (c: LineColor)
    ensures
        kind is TotalTokens ==> c is Red,
        kind is TotalTokensCreated ==> c is Blue,
        kind is TotalTokensCreatedDevSlice ==> c is Blue,
        kind is TotalTokensCreatedFromDelegatedDevSlice ==> c is Green,
{
    match kind {
        SeriesKind::TotalTokens => LineColor::Red,
        SeriesKind::TotalTokensCreated => LineColor::Blue,
        SeriesKind::TotalTokensCreatedDevSlice => LineColor::Blue,
        SeriesKind::TotalTokensCreatedFromDelegatedDevSlice => LineColor::Green,
    }
}

/// A micro-token amount in whole tokens, floored; the unit the chart's
/// y axis is ranged in.
pub fn micro_to_tokens(amount: i128) -> (t: i128)
    requires
        i128::MIN < amount,
    ensures
        t == amount as int / (MICRO_PER_TOKEN as int),
{
    div_floor(amount, MICRO_PER_TOKEN)
}

} // verus!
