use victron_solar::{auth_header, build_request, template_endpoint, Params, HA_TOKEN};

#[test]
fn endpoint_trims_trailing_slashes() {
    assert_eq!(template_endpoint("http://ha:8123"), "http://ha:8123/api/template");
    assert_eq!(template_endpoint("http://ha:8123/"), "http://ha:8123/api/template");
    assert_eq!(template_endpoint("http://ha:8123///"), "http://ha:8123/api/template");
    assert_eq!(template_endpoint(""), "/api/template");
    assert_eq!(template_endpoint("///"), "/api/template");
    assert_eq!(template_endpoint("http://h\u{e4}/x/"), "http://h\u{e4}/x/api/template");
}

#[test]
fn auth_header_carries_the_credential_placeholder() {
    assert_eq!(HA_TOKEN, "{{ credential.ha.token }}");
    assert_eq!(
        auth_header(),
        "Authorization: Bearer {{ credential.ha.token }}\nContent-Type: application/json"
    );
}

#[test]
fn request_for_safe_params() {
    let p = Params::new(
        "sensor.month".to_string(),
        "sensor.pv".to_string(),
        "sensor.today".to_string(),
        "sensor.year".to_string(),
        "https://ha.example/".to_string(),
    );
    let plan = build_request(&p).expect("ids are safe");
    assert_eq!(plan.url, "https://ha.example/api/template");
    assert!(plan.template.starts_with("{{{{ {'pv_power': states('sensor.pv')"));
    assert!(plan.template.contains("'today_kwh': states('sensor.today')"));
    assert_eq!(plan.headers, auth_header());
}

#[test]
fn no_request_for_unsafe_params() {
    let p = Params::new(
        "sensor.month".to_string(),
        "sensor.pv".to_string(),
        "Sensor.Today".to_string(),
        "sensor.year".to_string(),
        "https://ha.example".to_string(),
    );
    assert!(build_request(&p).is_none());
}
