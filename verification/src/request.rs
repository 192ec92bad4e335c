use vstd::prelude::*;
use vstd::string::*;

use crate::params::{Params, HA_TOKEN};
use crate::template::{build_template, is_safe_entity_id, template_text};

verus! {

/// `s` without the `/` characters at its end.
pub open spec fn trim_trailing_slashes(s: Seq<char>) -> Seq<char>
    decreases s.len(),
{
    if s.len() > 0 && s.last() == '/' {
        trim_trailing_slashes(s.drop_last())
    } else {
        s
    }
}

/// The URL of Home Assistant's template endpoint under the base URL `ha_url`.
pub open spec fn template_url(ha_url: Seq<char>) -> Seq<char> {
    trim_trailing_slashes(ha_url) + "/api/template"@
}

/// The request headers: the bearer token of the `ha` credential slot, which
/// the host substitutes, and the JSON content type.
pub open spec fn auth_header_text() -> Seq<char> {
    "Authorization: Bearer "@ + HA_TOKEN@ + "\nContent-Type: application/json"@
}

/// The headers of every request the widget sends.
pub fn auth_header() -> (headers: String)
    ensures
        headers@ == auth_header_text(),
{
    let mut h = String::from_str("Authorization: Bearer ");
    h.append(HA_TOKEN);
    h.append("\nContent-Type: application/json");
    h
}

/// The template endpoint under the base URL `ha_url`, whatever number of
/// `/` the base URL ends with.
pub fn template_endpoint(ha_url: &str) -> (url: String)
    ensures
        url@ == template_url(ha_url@),
{
    let n = ha_url.unicode_len();
    let mut end: usize = n;
    assert(ha_url@.take(n as int) =~= ha_url@);
    while end > 0 && ha_url.get_char(end - 1) == '/'
        invariant
            n == ha_url@.len(),
            end <= n,
            trim_trailing_slashes(ha_url@) == trim_trailing_slashes(ha_url@.take(end as int)),
        decreases end,
    {
        assert(ha_url@.take(end as int).drop_last() =~= ha_url@.take(end - 1));
        end = end - 1;
    }
    let base = ha_url.substring_char(0, end);
    assert(base@ =~= ha_url@.take(end as int));
    let mut url = String::from_str(base);
    url.append("/api/template");
    url
}

/// What a poll sends: the template endpoint, the headers, and the Jinja
/// template that the request body carries as its `template` string.
pub struct RequestPlan {
    pub url: String,
    pub headers: String,
    pub template: String,
}

/// The request for one poll with the parameters `params`; `None` when an
/// entity id is unsafe, and then no request is sent for that tick.
pub fn build_request(params: &Params) -> (plan: Option<RequestPlan>)
    ensures
        plan is None <==> !(is_safe_entity_id(params.entity_power@) && is_safe_entity_id(params.entity_today@)
            && is_safe_entity_id(params.entity_month@) && is_safe_entity_id(params.entity_year@)),
        plan matches Some(p) ==> {
            &&& p.template@ == template_text(
                params.entity_power@,
                params.entity_today@,
                params.entity_month@,
                params.entity_year@,
            )
            &&& p.url@ == template_url(params.ha_url@)
            &&& p.headers@ == auth_header_text()
        },
{
    let template = match build_template(
        params.entity_power.as_str(),
        params.entity_today.as_str(),
        params.entity_month.as_str(),
        params.entity_year.as_str(),
    ) {
        Some(t) => t,
        None => return None,
    };
    let url = template_endpoint(params.ha_url.as_str());
    Some(RequestPlan { url, headers: auth_header(), template })
}

/// Trimming leaves no `/` at the end and keeps a prefix of the input.
pub proof fn lemma_trimmed_has_no_trailing_slash(s: Seq<char>)
    ensures
        trim_trailing_slashes(s).len() == 0 || trim_trailing_slashes(s).last() != '/',
        trim_trailing_slashes(s).len() <= s.len(),
        trim_trailing_slashes(s) == s.take(trim_trailing_slashes(s).len() as int),
    decreases s.len(),
{
    if s.len() > 0 && s.last() == '/' {
        lemma_trimmed_has_no_trailing_slash(s.drop_last());
        assert(s.drop_last().take(trim_trailing_slashes(s).len() as int) =~= s.take(
            trim_trailing_slashes(s).len() as int,
        ));
    } else {
        assert(s.take(s.len() as int) =~= s);
    }
}

/// A base URL with a trailing `/` reaches the same endpoint as without it.
pub proof fn lemma_trailing_slash_same_endpoint(ha_url: Seq<char>)
    ensures
        template_url(ha_url.push('/')) == template_url(ha_url),
{
    assert(ha_url.push('/').drop_last() =~= ha_url);
}

proof fn lemma_trim_cuts_only_slashes(s: Seq<char>)
    ensures
        forall|i: int| trim_trailing_slashes(s).len() <= i < s.len() ==> s[i] == '/',
    decreases s.len(),
{
    lemma_trimmed_has_no_trailing_slash(s);
    if s.len() > 0 && s.last() == '/' {
        let d = s.drop_last();
        lemma_trim_cuts_only_slashes(d);
        assert forall|i: int| trim_trailing_slashes(s).len() <= i < s.len() implies s[i] == '/' by {
            if i < s.len() - 1 {
                assert(s[i] == d[i]);
            }
        }
    }
}

/// For every base URL the endpoint is the base URL cut before its run of
/// trailing `/`, followed by exactly `/api/template`: the cut keeps a
/// prefix, removes only `/` characters, and leaves no `/` at its end.
pub proof fn lemma_endpoint_is_base_then_api_template(ha_url: Seq<char>)
    ensures
        exists|k: int|
            {
                &&& 0 <= k <= ha_url.len()
                &&& (k == 0 || ha_url[k - 1] != '/')
                &&& forall|i: int| k <= i < ha_url.len() ==> ha_url[i] == '/'
                &&& template_url(ha_url) == ha_url.take(k) + "/api/template"@
            },
{
    lemma_trimmed_has_no_trailing_slash(ha_url);
    lemma_trim_cuts_only_slashes(ha_url);
    let k = trim_trailing_slashes(ha_url).len() as int;
    assert(trim_trailing_slashes(ha_url) == ha_url.take(k));
    if k > 0 {
        assert(ha_url.take(k).last() == ha_url[k - 1]);
    }
}

/// The headers are exactly the bearer line with the host's placeholder for
/// the `ha` slot's token, then the JSON content type.
pub proof fn lemma_headers_are_the_fixed_text()
    ensures
        auth_header_text() == "Authorization: Bearer {{ credential.ha.token }}\nContent-Type: application/json"@,
{
    reveal_strlit("Authorization: Bearer ");
    reveal_strlit("{{ credential.ha.token }}");
    reveal_strlit("\nContent-Type: application/json");
    reveal_strlit("Authorization: Bearer {{ credential.ha.token }}\nContent-Type: application/json");
    assert(auth_header_text() =~= "Authorization: Bearer {{ credential.ha.token }}\nContent-Type: application/json"@);
}

} // verus!
