use victron_solar::{size_params, stat_lines, Availability, SizeVariant, SolarData, NOT_AVAILABLE};

#[test]
fn size_table_values() {
    let s = size_params(SizeVariant::Small);
    assert_eq!((s.header_font, s.icon_px, s.power_font, s.label_font), (16, 18, 40, 13));
    assert_eq!((s.value_font, s.sub_font, s.padding, s.gap, s.show_sub), (18, 11, 12, 6, false));
    let m = size_params(SizeVariant::Medium);
    assert_eq!((m.header_font, m.icon_px, m.power_font, m.label_font), (18, 20, 56, 14));
    assert_eq!((m.value_font, m.sub_font, m.padding, m.gap, m.show_sub), (22, 12, 14, 8, true));
    let l = size_params(SizeVariant::Large);
    assert_eq!((l.header_font, l.icon_px, l.power_font, l.label_font), (20, 22, 72, 16));
    assert_eq!((l.value_font, l.sub_font, l.padding, l.gap, l.show_sub), (26, 13, 16, 10, true));
    let f = size_params(SizeVariant::Full);
    assert_eq!((f.header_font, f.icon_px, f.power_font, f.label_font), (24, 28, 96, 20));
    assert_eq!((f.value_font, f.sub_font, f.padding, f.gap, f.show_sub), (34, 16, 24, 14, true));
}

#[test]
fn stat_lines_pair_labels_with_their_fields() {
    let d = SolarData {
        pv_power_w: Availability::Available(1.0f64),
        today_kwh: Availability::Available(2.0),
        month_kwh: Availability::Available(3.0),
        last_month_kwh: Availability::Available(4.0),
        year_kwh: Availability::Failed,
        last_year_kwh: Availability::Available(6.0),
    };
    let lines = stat_lines(&d, true);
    assert_eq!(lines.len(), 3);
    assert_eq!(lines[0].label, "Today");
    assert_eq!(lines[0].value.reading(), Some(&2.0));
    assert!(lines[0].sub.is_none());
    assert_eq!(lines[1].label, "This month");
    assert_eq!(lines[1].value.reading(), Some(&3.0));
    let (l, v) = lines[1].sub.unwrap();
    assert_eq!(l, "Last month:");
    assert_eq!(v.reading(), Some(&4.0));
    assert_eq!(lines[2].label, "This year");
    assert!(lines[2].value.reading().is_none());
    let (l, v) = lines[2].sub.unwrap();
    assert_eq!(l, "Last year:");
    assert_eq!(v.reading(), Some(&6.0));
    let small = stat_lines(&d, false);
    assert!(small.iter().all(|s| s.sub.is_none()));
    assert_eq!(NOT_AVAILABLE, "--");
}
