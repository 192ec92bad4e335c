use vstd::prelude::*;

use crate::solar::{Availability, SolarData};

verus! {

/// What the widget shows where a reading is unavailable or failed.
pub const NOT_AVAILABLE: &'static str = "--";

/// One of the yield blocks under the power reading: a label with its value
/// and, when shown, the previous completed cycle's total under it.
pub struct StatLine<'a, T> {
    pub label: &'static str,
    pub value: &'a Availability<T>,
    pub sub: Option<(&'static str, &'a Availability<T>)>,
}

/// The three yield blocks: today; this month, with last month under it;
/// this year, with last year under it. The totals of the previous cycles
/// are left out unless `show_sub`.
pub fn stat_lines<'a, T>(data: &'a SolarData<T>, show_sub: bool) -> (lines: Vec<StatLine<'a, T>>)
    ensures
        lines@.len() == 3,
        lines@[0].label@ == "Today"@,
        *lines@[0].value == data.today_kwh,
        lines@[0].sub is None,
        lines@[1].label@ == "This month"@,
        *lines@[1].value == data.month_kwh,
        lines@[1].sub is Some <==> show_sub,
        lines@[1].sub matches Some((l, v)) ==> l@ == "Last month:"@ && *v == data.last_month_kwh,
        lines@[2].label@ == "This year"@,
        *lines@[2].value == data.year_kwh,
        lines@[2].sub is Some <==> show_sub,
        lines@[2].sub matches Some((l, v)) ==> l@ == "Last year:"@ && *v == data.last_year_kwh,
{
    let month_sub = if show_sub {
        Some(("Last month:", &data.last_month_kwh))
    } else {
        None
    };
    let year_sub = if show_sub {
        Some(("Last year:", &data.last_year_kwh))
    } else {
        None
    };
    let mut lines: Vec<StatLine<'a, T>> = Vec::new();
    lines.push(StatLine { label: "Today", value: &data.today_kwh, sub: None });
    lines.push(StatLine { label: "This month", value: &data.month_kwh, sub: month_sub });
    lines.push(StatLine { label: "This year", value: &data.year_kwh, sub: year_sub });
    lines
}

} // verus!
