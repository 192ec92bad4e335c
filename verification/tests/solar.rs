use victron_solar::{merge_field, reply_fields, Availability, Reply, ReplyAction, ReplyField, SolarData};

fn is_value(a: &Availability<i64>, v: i64) -> bool {
    matches!(a, Availability::Available(x) if *x == v)
}

fn is_failed(a: &Availability<i64>) -> bool {
    matches!(a, Availability::Failed)
}

fn values(p: Option<i64>, t: Option<i64>, m: Option<i64>, lm: Option<i64>, y: Option<i64>, ly: Option<i64>) -> SolarData<i64> {
    let f = |o: Option<i64>| match o {
        Some(v) => Availability::Available(v),
        None => Availability::Unavailable,
    };
    SolarData {
        pv_power_w: f(p),
        today_kwh: f(t),
        month_kwh: f(m),
        last_month_kwh: f(lm),
        year_kwh: f(y),
        last_year_kwh: f(ly),
    }
}

#[test]
fn merge_replaces_with_fresh_value() {
    let mut a = Availability::Available(1i64);
    merge_field(&mut a, Availability::Available(2));
    assert!(is_value(&a, 2));
    let mut b: Availability<i64> = Availability::Failed;
    merge_field(&mut b, Availability::Available(3));
    assert!(is_value(&b, 3));
}

#[test]
fn merge_of_missing_value_keeps_held_value_and_marks_others_failed() {
    let mut a = Availability::Available(1i64);
    merge_field(&mut a, Availability::Unavailable);
    assert!(is_value(&a, 1));
    merge_field(&mut a, Availability::Failed);
    assert!(is_value(&a, 1));
    let mut b: Availability<i64> = Availability::Unavailable;
    merge_field(&mut b, Availability::Unavailable);
    assert!(is_failed(&b));
}

#[test]
fn blank_data_is_unavailable_everywhere() {
    let d: SolarData<i64> = SolarData::default();
    for a in [&d.pv_power_w, &d.today_kwh, &d.month_kwh, &d.last_month_kwh, &d.year_kwh, &d.last_year_kwh] {
        assert!(matches!(a, Availability::Unavailable));
        assert!(a.reading().is_none());
    }
}

#[test]
fn failed_fetch_marks_every_field_failed_but_keeps_values() {
    let mut d = values(Some(100), None, Some(3), None, None, None);
    let action = d.apply_reply(Reply::FetchFailed);
    assert!(matches!(action, ReplyAction::Redraw));
    assert!(is_value(&d.pv_power_w, 100));
    assert!(is_failed(&d.today_kwh));
    assert!(is_value(&d.month_kwh, 3));
    assert!(is_failed(&d.last_month_kwh));
    assert!(is_failed(&d.year_kwh));
    assert!(is_failed(&d.last_year_kwh));
}

#[test]
fn malformed_reply_asks_for_retry_and_changes_nothing() {
    let mut d = values(Some(1), None, None, None, None, Some(6));
    let action = d.apply_reply(Reply::Malformed);
    assert!(matches!(action, ReplyAction::RetryAndRedraw));
    assert!(is_value(&d.pv_power_w, 1));
    assert!(matches!(d.today_kwh, Availability::Unavailable));
    assert!(is_value(&d.last_year_kwh, 6));
}

#[test]
fn json_reply_merges_each_field_on_its_own() {
    let mut d = values(Some(1), Some(2), None, None, None, None);
    let action = d.apply_reply(Reply::Values(values(Some(10), None, Some(30), None, Some(50), Some(60))));
    assert!(matches!(action, ReplyAction::Redraw));
    assert!(is_value(&d.pv_power_w, 10));
    assert!(is_value(&d.today_kwh, 2));
    assert!(is_value(&d.month_kwh, 30));
    assert!(is_failed(&d.last_month_kwh));
    assert!(is_value(&d.year_kwh, 50));
    assert!(is_value(&d.last_year_kwh, 60));
    assert_eq!(d.year_kwh.reading(), Some(&50));
}

#[test]
fn complete_reply_replaces_everything() {
    let mut d = values(None, Some(2), None, None, None, None);
    d.apply_reply(Reply::FetchFailed);
    d.apply_reply(Reply::Values(values(Some(1), Some(2), Some(3), Some(4), Some(5), Some(6))));
    assert!(is_value(&d.pv_power_w, 1));
    assert!(is_value(&d.today_kwh, 2));
    assert!(is_value(&d.month_kwh, 3));
    assert!(is_value(&d.last_month_kwh, 4));
    assert!(is_value(&d.year_kwh, 5));
    assert!(is_value(&d.last_year_kwh, 6));
}

#[test]
fn set_field_sets_only_that_field() {
    let mut d: SolarData<i64> = SolarData::default();
    d.set_field(ReplyField::LastMonth, Availability::Available(4));
    assert!(is_value(&d.last_month_kwh, 4));
    assert!(matches!(d.month_kwh, Availability::Unavailable));
    assert!(matches!(d.pv_power_w, Availability::Unavailable));
    let mut all: SolarData<i64> = SolarData::default();
    for (n, f) in reply_fields().into_iter().enumerate() {
        all.set_field(f, Availability::Available(n as i64));
    }
    assert!(is_value(&all.pv_power_w, 0));
    assert!(is_value(&all.today_kwh, 1));
    assert!(is_value(&all.month_kwh, 2));
    assert!(is_value(&all.last_month_kwh, 3));
    assert!(is_value(&all.year_kwh, 4));
    assert!(is_value(&all.last_year_kwh, 5));
}
