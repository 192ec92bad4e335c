use vstd::prelude::*;

verus! {

/// Placeholder for the `token` field of the `ha` credential slot (a
/// Home Assistant long-lived access token); the host substitutes it.
pub const HA_TOKEN: &'static str = "{{ credential.ha.token }}";

/// The widget's manifest parameters: the four entity ids it reads and the
/// base URL of the Home Assistant instance.
#[derive(Clone, Debug)]
pub struct Params {
    pub entity_month: String,
    pub entity_power: String,
    pub entity_today: String,
    pub entity_year: String,
    pub ha_url: String,
}

/// Field-by-field equality of two parameter sets.
pub open spec fn params_equal(a: &Params, b: &Params) -> bool {
    &&& a.entity_month@ == b.entity_month@
    &&& a.entity_power@ == b.entity_power@
    &&& a.entity_today@ == b.entity_today@
    &&& a.entity_year@ == b.entity_year@
    &&& a.ha_url@ == b.ha_url@
}

impl PartialEq for Params {
    fn eq(&self, other: &Params) -> (same: bool) {
        self.entity_month == other.entity_month && self.entity_power == other.entity_power
            && self.entity_today == other.entity_today && self.entity_year == other.entity_year
            && self.ha_url == other.ha_url
    }
}

impl vstd::std_specs::cmp::PartialEqSpecImpl for Params {
    open spec fn obeys_eq_spec() -> bool {
        true
    }

    open spec fn eq_spec(&self, other: &Params) -> bool {
        params_equal(self, other)
    }
}

/// `seq![key]` when `changed`, the empty sequence otherwise.
pub open spec fn key_if(changed: bool, key: Seq<char>) -> Seq<Seq<char>> {
    if changed {
        seq![key]
    } else {
        Seq::empty()
    }
}

/// The manifest keys whose value differs between `a` and `b`, in the
/// order of the struct's fields.
pub open spec fn changed_key_names(a: &Params, b: &Params) -> Seq<Seq<char>> {
    key_if(a.entity_month@ != b.entity_month@, "entity_month"@)
        + key_if(a.entity_power@ != b.entity_power@, "entity_power"@)
        + key_if(a.entity_today@ != b.entity_today@, "entity_today"@)
        + key_if(a.entity_year@ != b.entity_year@, "entity_year"@)
        + key_if(a.ha_url@ != b.ha_url@, "ha_url"@)
}

/// The views of a list of keys.
pub open spec fn key_views(keys: Seq<&'static str>) -> Seq<Seq<char>> {
    keys.map_values(|k: &'static str| k@)
}

impl Params {
    pub fn new(
        entity_month: String,
        entity_power: String,
        entity_today: String,
        entity_year: String,
        ha_url: String,
    ) -> (p: Params)
        ensures
            p.entity_month@ == entity_month@,
            p.entity_power@ == entity_power@,
            p.entity_today@ == entity_today@,
            p.entity_year@ == entity_year@,
            p.ha_url@ == ha_url@,
    {
        Params { entity_month, entity_power, entity_today, entity_year, ha_url }
    }

    /// Manifest keys whose value differs between `self` and `other`,
    /// compared field by field and listed in struct-field order.
    pub fn changed_keys(&self, other: &Self) -> (keys: Vec<&'static str>)
        ensures
            key_views(keys@) == changed_key_names(self, other),
    {
        let mut out: Vec<&'static str> = Vec::new();
        let ghost mut expected: Seq<Seq<char>> = Seq::empty();
        if self.entity_month != other.entity_month {
            out.push("entity_month");
        }
        proof {
            expected = expected + key_if(self.entity_month@ != other.entity_month@, "entity_month"@);
            assert(key_views(out@) =~= expected);
        }
        if self.entity_power != other.entity_power {
            out.push("entity_power");
        }
        proof {
            expected = expected + key_if(self.entity_power@ != other.entity_power@, "entity_power"@);
            assert(key_views(out@) =~= expected);
        }
        if self.entity_today != other.entity_today {
            out.push("entity_today");
        }
        proof {
            expected = expected + key_if(self.entity_today@ != other.entity_today@, "entity_today"@);
            assert(key_views(out@) =~= expected);
        }
        if self.entity_year != other.entity_year {
            out.push("entity_year");
        }
        proof {
            expected = expected + key_if(self.entity_year@ != other.entity_year@, "entity_year"@);
            assert(key_views(out@) =~= expected);
        }
        if self.ha_url != other.ha_url {
            out.push("ha_url");
        }
        proof {
            expected = expected + key_if(self.ha_url@ != other.ha_url@, "ha_url"@);
            assert(key_views(out@) =~= expected);
            assert(expected =~= changed_key_names(self, other));
        }
        out
    }
}

/// The keys that change from `a` to `b` are those that change from `b` to
/// `a`, in the same order.
pub proof fn lemma_changed_keys_symmetric(a: &Params, b: &Params)
    ensures
        changed_key_names(a, b) == changed_key_names(b, a),
{
    assert(changed_key_names(a, b) =~= changed_key_names(b, a));
}

/// No key changes exactly when the two parameter sets are equal field by
/// field (what `==` on `Params` decides).
pub proof fn lemma_no_changed_keys_iff_equal(a: &Params, b: &Params)
    ensures
        changed_key_names(a, b).len() == 0 <==> params_equal(a, b),
{
}

/// The position of a manifest key in the order of the struct's fields.
pub open spec fn key_position(key: Seq<char>) -> int {
    if key == "entity_month"@ {
        0
    } else if key == "entity_power"@ {
        1
    } else if key == "entity_today"@ {
        2
    } else if key == "entity_year"@ {
        3
    } else if key == "ha_url"@ {
        4
    } else {
        5
    }
}

/// Each manifest key is listed exactly when its own field differs between
/// the two snapshots, no other key is ever listed, and the keys come in
/// struct-field order, each at most once.
pub proof fn lemma_changed_keys_are_the_changed_fields(a: &Params, b: &Params)
    ensures
        changed_key_names(a, b).contains("entity_month"@) <==> a.entity_month@ != b.entity_month@,
        changed_key_names(a, b).contains("entity_power"@) <==> a.entity_power@ != b.entity_power@,
        changed_key_names(a, b).contains("entity_today"@) <==> a.entity_today@ != b.entity_today@,
        changed_key_names(a, b).contains("entity_year"@) <==> a.entity_year@ != b.entity_year@,
        changed_key_names(a, b).contains("ha_url"@) <==> a.ha_url@ != b.ha_url@,
        forall|i: int| 0 <= i < changed_key_names(a, b).len() ==> key_position(#[trigger] changed_key_names(a, b)[i]) < 5,
        forall|i: int, j: int|
            0 <= i < j < changed_key_names(a, b).len() ==> key_position(changed_key_names(a, b)[i]) < key_position(
                changed_key_names(a, b)[j],
            ),
{
    reveal_strlit("entity_month");
    reveal_strlit("entity_power");
    reveal_strlit("entity_today");
    reveal_strlit("entity_year");
    reveal_strlit("ha_url");
    let km = "entity_month"@;
    let kp = "entity_power"@;
    let kt = "entity_today"@;
    let ky = "entity_year"@;
    let ku = "ha_url"@;
    assert(km != kp && km != kt && km != ky && km != ku) by {
        assert(km[7] != kp[7] && km[7] != kt[7] && km[7] != ky[7]);
        assert(km.len() != ku.len());
    }
    assert(kp != kt && kp != ky && kp != ku) by {
        assert(kp[7] != kt[7] && kp[7] != ky[7]);
        assert(kp.len() != ku.len());
    }
    assert(kt != ky && kt != ku) by {
        assert(kt[7] != ky[7]);
        assert(kt.len() != ku.len());
    }
    assert(ky != ku) by {
        assert(ky.len() != ku.len());
    }
    assert(key_position(km) == 0);
    assert(key_position(kp) == 1);
    assert(key_position(kt) == 2);
    assert(key_position(ky) == 3);
    assert(key_position(ku) == 4);
    let s = changed_key_names(a, b);
    let s1 = key_if(a.entity_month@ != b.entity_month@, km);
    let s2 = s1 + key_if(a.entity_power@ != b.entity_power@, kp);
    let s3 = s2 + key_if(a.entity_today@ != b.entity_today@, kt);
    let s4 = s3 + key_if(a.entity_year@ != b.entity_year@, ky);
    assert(s == s4 + key_if(a.ha_url@ != b.ha_url@, ku));
    // every prefix lists keys of rising position, all below 5
    assert forall|i: int, j: int| 0 <= i < j < s.len() implies key_position(s[i]) < key_position(s[j]) by {
        assert forall|x: int, y: int| 0 <= x < y < s2.len() implies key_position(s2[x]) < key_position(s2[y]) by {}
        assert forall|x: int, y: int| 0 <= x < y < s3.len() implies key_position(s3[x]) < key_position(s3[y]) by {
            if y == s3.len() - 1 && y >= s2.len() {
                assert(key_position(s2[x]) <= 1);
            }
        }
        assert forall|x: int| 0 <= x < s3.len() implies key_position(#[trigger] s3[x]) <= 2 by {
            if x < s2.len() {
                assert(key_position(s2[x]) <= 1);
            }
        }
        assert forall|x: int, y: int| 0 <= x < y < s4.len() implies key_position(s4[x]) < key_position(s4[y]) by {
            if y >= s3.len() {
                assert(key_position(s3[x]) <= 2);
            }
        }
        assert forall|x: int| 0 <= x < s4.len() implies key_position(#[trigger] s4[x]) <= 3 by {
            if x < s3.len() {
                assert(key_position(s3[x]) <= 2);
            }
        }
        if j >= s4.len() {
            assert(key_position(s4[i]) <= 3);
        }
    }
    assert(s.contains(km) <==> a.entity_month@ != b.entity_month@) by {
        if s.contains(km) {
            let i = choose|i: int| 0 <= i < s.len() && s[i] == km;
            if a.entity_month@ == b.entity_month@ {
                assert(s1.len() == 0);
            }
        } else if a.entity_month@ != b.entity_month@ {
            assert(s[0] == km);
        }
    }
    assert(s.contains(kp) <==> a.entity_power@ != b.entity_power@) by {
        if a.entity_power@ != b.entity_power@ {
            assert(s[s1.len() as int] == kp);
        }
    }
    assert(s.contains(kt) <==> a.entity_today@ != b.entity_today@) by {
        if a.entity_today@ != b.entity_today@ {
            assert(s[s2.len() as int] == kt);
        }
    }
    assert(s.contains(ky) <==> a.entity_year@ != b.entity_year@) by {
        if a.entity_year@ != b.entity_year@ {
            assert(s[s3.len() as int] == ky);
        }
    }
    assert(s.contains(ku) <==> a.ha_url@ != b.ha_url@) by {
        if a.ha_url@ != b.ha_url@ {
            assert(s[s4.len() as int] == ku);
        }
    }
}

/// The views of a list of keys are the keys' own views, one for one.
pub proof fn lemma_key_views_one_for_one(keys: Seq<&'static str>)
    ensures
        key_views(keys).len() == keys.len(),
        forall|i: int| 0 <= i < keys.len() ==> #[trigger] key_views(keys)[i] == keys[i]@,
{
}

/// A parameter snapshot remembered together with the snapshot version it
/// was read at, so that it is read again only when the version changes.
pub struct ParamsCache {
    entry: Option<(u64, Params)>,
}

impl ParamsCache {
    /// The remembered version and parameters, if any.
    pub closed spec fn stored(&self) -> Option<(u64, Params)> {
        self.entry
    }

    /// A cache that remembers nothing yet.
    pub fn new() -> (cache: ParamsCache)
        ensures
            cache.stored() is None,
    {
        ParamsCache { entry: None }
    }

    /// The remembered parameters when they were read at `version`; `None`
    /// when nothing is remembered or it was read at another version.
    pub fn cached(&self, version: u64) -> (hit: Option<&Params>)
        ensures
            hit is Some <==> (self.stored() matches Some((v, _)) && v == version),
            hit matches Some(p) ==> *p == self.stored().unwrap().1,
    {
        match &self.entry {
            Some((v, p)) => {
                if *v == version {
                    Some(p)
                } else {
                    None
                }
            },
            None => None,
        }
    }

    /// Remembers `params` as read at `version`, replacing what was there.
    pub fn store(&mut self, version: u64, params: Params)
        ensures
            final(self).stored() == Some((version, params)),
    {
        self.entry = Some((version, params));
    }
}

} // verus!
