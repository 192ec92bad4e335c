use victron_solar::{build_template, entity_id_safe, reply_fields, reply_key_str, reply_path, ReplyField};

#[test]
fn real_entity_ids_pass() {
    assert!(entity_id_safe("sensor.solar_yield_today"));
    assert!(entity_id_safe("sensor.victronsolarcharger_yield_pv224"));
}

#[test]
fn ids_without_a_domain_separator_or_with_stray_characters_are_rejected() {
    assert!(!entity_id_safe(""));
    assert!(!entity_id_safe("no_dot_here"));
    assert!(!entity_id_safe("sensor.foo'; {{ malicious"));
    assert!(!entity_id_safe("sensor.foo bar"));
    assert!(!entity_id_safe("sensor.FooBar"));
}

#[test]
fn template_reuses_the_month_and_year_entity_for_their_last_period_attribute() {
    let t = build_template("sensor.pv", "sensor.today", "sensor.month", "sensor.year")
        .expect("all four ids are safe");
    assert!(t.contains("states('sensor.pv')"));
    assert!(t.contains("states('sensor.today')"));
    assert!(t.contains("states('sensor.month')"));
    assert!(t.contains("state_attr('sensor.month','last_period')"));
    assert!(t.contains("states('sensor.year')"));
    assert!(t.contains("state_attr('sensor.year','last_period')"));
    assert!(t.starts_with("{{{{ "));
    assert!(t.ends_with(" }}"));
}

#[test]
fn template_survives_the_hosts_escape_unescape_round_trip() {
    let t = build_template("sensor.pv", "sensor.today", "sensor.month", "sensor.year")
        .expect("all four ids are safe");
    let unescaped = t.replacen("{{{{", "{{", 1);
    assert!(unescaped.starts_with("{{ "));
    assert!(!unescaped.starts_with("{{{{"));
    assert!(unescaped.contains("states('sensor.pv')"));
    assert!(unescaped.ends_with(" }}"));
}

#[test]
fn an_unsafe_entity_id_anywhere_rejects_the_whole_template() {
    assert!(
        build_template("sensor.pv'); {}", "sensor.today", "sensor.month", "sensor.year")
            .is_none()
    );
}

#[test]
fn template_is_exactly_the_expected_jinja() {
    let t = build_template("sensor.a", "sensor.b", "sensor.c", "sensor.d").unwrap();
    assert_eq!(
        t,
        "{{{{ {'pv_power': states('sensor.a'), 'today_kwh': states('sensor.b'), \
         'month_kwh': states('sensor.c'), 'last_month_kwh': state_attr('sensor.c','last_period'), \
         'year_kwh': states('sensor.d'), 'last_year_kwh': state_attr('sensor.d','last_period')} | tojson }}"
    );
}

#[test]
fn unsafe_id_in_each_position_rejects_the_template() {
    assert!(build_template("bad", "sensor.b", "sensor.c", "sensor.d").is_none());
    assert!(build_template("sensor.a", "sensor.B", "sensor.c", "sensor.d").is_none());
    assert!(build_template("sensor.a", "sensor.b", "sensor.c}}", "sensor.d").is_none());
    assert!(build_template("sensor.a", "sensor.b", "sensor.c", "").is_none());
}

#[test]
fn entity_id_edge_cases() {
    assert!(entity_id_safe("a.b"));
    assert!(entity_id_safe("0.9"));
    assert!(entity_id_safe("sensor_1.yield_2"));
    assert!(!entity_id_safe("."));
    assert!(!entity_id_safe("sensor."));
    assert!(!entity_id_safe(".x"));
    assert!(!entity_id_safe("a..b"));
    assert!(!entity_id_safe("a.b.c_1"));
    assert!(!entity_id_safe("sensor.caf\u{e9}"));
    assert!(!entity_id_safe("sensor.a-b"));
    assert!(!entity_id_safe("sensor.a\"b"));
    assert!(!entity_id_safe("sensor.a/b"));
    assert!(!entity_id_safe("______"));
}

#[test]
fn reply_paths_are_the_keys_the_template_writes() {
    let t = build_template("sensor.pv", "sensor.today", "sensor.month", "sensor.year").unwrap();
    let fields = reply_fields();
    assert_eq!(fields.len(), 6);
    let mut paths = Vec::new();
    for f in fields {
        let key = reply_key_str(f);
        assert_eq!(reply_path(f), format!("/{}", key));
        assert!(t.contains(&format!("'{}': ", key)));
        paths.push(reply_path(f));
    }
    assert_eq!(
        paths,
        vec!["/pv_power", "/today_kwh", "/month_kwh", "/last_month_kwh", "/year_kwh", "/last_year_kwh"]
    );
    assert!(t.contains("'pv_power': states('sensor.pv')"));
    assert!(t.contains("'last_year_kwh': state_attr('sensor.year','last_period')"));
    assert_eq!(reply_key_str(ReplyField::LastMonth), "last_month_kwh");
}

#[test]
fn template_holds_double_braces_only_in_its_escaped_opening() {
    let t = build_template("sensor.pv", "sensor.today", "sensor.month", "sensor.year").unwrap();
    let positions: Vec<usize> = t.match_indices("{{").map(|(i, _)| i).collect();
    // overlapping occurrences inside "{{{{" start at 0, 1 and 2
    for i in 0..t.len() - 1 {
        if &t[i..i + 2] == "{{" {
            assert!(i < 3);
        }
    }
    assert_eq!(positions, vec![0, 2]);
}
