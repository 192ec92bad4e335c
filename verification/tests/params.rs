use victron_solar::{Params, ParamsCache};

fn params(month: &str, power: &str, today: &str, year: &str, url: &str) -> Params {
    Params::new(
        month.to_string(),
        power.to_string(),
        today.to_string(),
        year.to_string(),
        url.to_string(),
    )
}

#[test]
fn changed_keys_of_equal_params_is_empty() {
    let a = params("sensor.m", "sensor.p", "sensor.t", "sensor.y", "http://ha");
    let b = a.clone();
    assert!(a.changed_keys(&b).is_empty());
    assert!(a == b);
}

#[test]
fn changed_keys_lists_differing_fields_in_field_order() {
    let a = params("sensor.m", "sensor.p", "sensor.t", "sensor.y", "http://ha");
    let b = params("sensor.m2", "sensor.p", "sensor.t2", "sensor.y", "http://ha2");
    assert_eq!(a.changed_keys(&b), vec!["entity_month", "entity_today", "ha_url"]);
    assert_eq!(b.changed_keys(&a), vec!["entity_month", "entity_today", "ha_url"]);
    assert!(a != b);
}

#[test]
fn changed_keys_all_fields() {
    let a = params("1", "2", "3", "4", "5");
    let b = params("a", "b", "c", "d", "e");
    assert_eq!(
        a.changed_keys(&b),
        vec!["entity_month", "entity_power", "entity_today", "entity_year", "ha_url"]
    );
}

#[test]
fn cache_returns_params_only_for_the_version_they_were_read_at() {
    let mut cache = ParamsCache::new();
    assert!(cache.cached(0).is_none());
    let p = params("sensor.m", "sensor.p", "sensor.t", "sensor.y", "http://ha");
    cache.store(7, p.clone());
    assert!(cache.cached(7) == Some(&p));
    assert!(cache.cached(8).is_none());
    let q = params("sensor.m", "sensor.p", "sensor.t", "sensor.y", "http://other");
    cache.store(8, q.clone());
    assert!(cache.cached(7).is_none());
    assert_eq!(cache.cached(8).unwrap().ha_url, "http://other");
}
