use vstd::prelude::*;
use vstd::string::*;
use vstd::utf8::is_ascii_chars;

verus! {

/// A character of an entity id's domain or object id: lowercase ASCII
/// letters, digits and `_`.
pub open spec fn is_id_word_char(c: char) -> bool {
    ||| ('a' <= c && c <= 'z')
    ||| ('0' <= c && c <= '9')
    ||| c == '_'
}

/// `id` is `domain.object_id` with its one separating dot at `k`: a
/// non-empty domain before it, a non-empty object id after it, and every
/// other character a word character.
pub open spec fn separates_domain_at(id: Seq<char>, k: int) -> bool {
    &&& 0 < k < id.len() - 1
    &&& id[k] == '.'
    &&& forall|i: int| 0 <= i < id.len() && i != k ==> is_id_word_char(#[trigger] id[i])
}

/// A Home Assistant entity id `domain.object_id`: lowercase ASCII, digits,
/// underscores, and exactly the dot that separates domain from object.
pub open spec fn is_safe_entity_id(id: Seq<char>) -> bool {
    exists|k: int| separates_domain_at(id, k)
}

/// Whether `id` is an entity id, and so may be spliced into a
/// single-quoted Jinja string literal.
pub fn entity_id_safe(id: &str) -> (safe: bool)
    ensures
        safe == is_safe_entity_id(id@),
{
    if !id.is_ascii() {
        proof {
            let k = choose|k: int| 0 <= k < id@.len() && !('\0' <= #[trigger] id@[k] <= '\u{7f}');
            assert forall|s: int| !separates_domain_at(id@, s) by {
                if separates_domain_at(id@, s) && k != s {
                    assert(is_id_word_char(id@[k]));
                }
            }
        }
        return false;
    }
    let bytes = id.as_bytes();
    proof {
        broadcast use is_ascii_spec_bytes;
        assert(bytes@ =~= Seq::new(id@.len(), |i| id@[i] as u8));
    }
    let n = bytes.len();
    let mut dot: Option<usize> = None;
    let mut i: usize = 0;
    while i < n
        invariant
            n == bytes@.len(),
            n == id@.len(),
            i <= n,
            is_ascii_chars(id@),
            forall|j: int| 0 <= j < n ==> bytes@[j] == #[trigger] id@[j] as u8,
            dot matches Some(k) ==> k < i && id@[k as int] == '.',
            forall|j: int|
                0 <= j < i && !(dot matches Some(k) && j == k) ==> is_id_word_char(#[trigger] id@[j]),
        decreases n - i,
    {
        let b = bytes[i];
        let ghost c = id@[i as int];
        assert(b == c as u8);
        assert('\0' <= c <= '\u{7f}');
        if b == '.' as u8 {
            if let Some(k) = dot {
                proof {
                    assert forall|s: int| !separates_domain_at(id@, s) by {
                        if separates_domain_at(id@, s) {
                            if s == i {
                                assert(is_id_word_char(id@[k as int]));
                            } else {
                                assert(is_id_word_char(id@[i as int]));
                            }
                        }
                    }
                }
                return false;
            }
            dot = Some(i);
        } else {
            let word = ('a' as u8 <= b && b <= 'z' as u8) || ('0' as u8 <= b && b <= '9' as u8) || b
                == '_' as u8;
            if !word {
                proof {
                    assert forall|s: int| !separates_domain_at(id@, s) by {
                        if separates_domain_at(id@, s) {
                            assert(is_id_word_char(id@[i as int]));
                        }
                    }
                }
                return false;
            }
        }
        i = i + 1;
    }
    match dot {
        Some(k) => {
            if 0 < k && k + 1 < n {
                assert(separates_domain_at(id@, k as int));
                true
            } else {
                proof {
                    assert forall|s: int| !separates_domain_at(id@, s) by {
                        if separates_domain_at(id@, s) && s != k {
                            assert(is_id_word_char(id@[k as int]));
                        }
                    }
                }
                false
            }
        },
        None => {
            proof {
                assert forall|s: int| !separates_domain_at(id@, s) by {
                    if separates_domain_at(id@, s) {
                        assert(is_id_word_char(id@[s]));
                    }
                }
            }
            false
        },
    }
}

/// An entity id is accepted exactly when it is made of lowercase ASCII
/// letters, digits, `_` and `.`, holds exactly one `.`, and neither starts
/// nor ends with it.
pub proof fn lemma_entity_id_shape(id: Seq<char>)
    ensures
        is_safe_entity_id(id) <==> {
            &&& id.len() > 0
            &&& id[0] != '.'
            &&& id[id.len() - 1] != '.'
            &&& forall|i: int|
                0 <= i < id.len() ==> ('a' <= #[trigger] id[i] <= 'z' || '0' <= id[i] <= '9' || id[i] == '_'
                    || id[i] == '.')
            &&& exists|k: int| 0 <= k < id.len() && id[k] == '.'
            &&& forall|i: int, j: int| 0 <= i < id.len() && 0 <= j < id.len() && id[i] == '.' && id[j] == '.' ==> i == j
        },
{
    if is_safe_entity_id(id) {
        let k = choose|k: int| separates_domain_at(id, k);
        assert(is_id_word_char(id[0]));
        assert(is_id_word_char(id[id.len() - 1]));
        assert forall|i: int| 0 <= i < id.len() implies ('a' <= #[trigger] id[i] <= 'z' || '0' <= id[i] <= '9'
            || id[i] == '_' || id[i] == '.') by {
            if i != k {
                assert(is_id_word_char(id[i]));
            }
        }
        assert forall|i: int, j: int| 0 <= i < id.len() && 0 <= j < id.len() && id[i] == '.' && id[j] == '.' implies i == j by {
            if i != k {
                assert(is_id_word_char(id[i]));
            }
            if j != k {
                assert(is_id_word_char(id[j]));
            }
        }
    } else {
        if id.len() > 0 && id[0] != '.' && id[id.len() - 1] != '.' && (forall|i: int|
            0 <= i < id.len() ==> ('a' <= #[trigger] id[i] <= 'z' || '0' <= id[i] <= '9' || id[i] == '_'
                || id[i] == '.')) && (exists|k: int| 0 <= k < id.len() && id[k] == '.') && (forall|i: int, j: int|
            0 <= i < id.len() && 0 <= j < id.len() && id[i] == '.' && id[j] == '.' ==> i == j) {
            let k = choose|k: int| 0 <= k < id.len() && id[k] == '.';
            assert forall|i: int| 0 <= i < id.len() && i != k implies is_id_word_char(#[trigger] id[i]) by {
                if id[i] == '.' {
                    assert(i == k);
                }
            }
            assert(separates_domain_at(id, k));
        }
    }
}

/// A safe entity id cannot end the single-quoted Jinja string it is
/// spliced into, nor open or close a Jinja expression: it holds no quote
/// and no brace, and it is never empty.
pub proof fn lemma_safe_id_cannot_break_out(id: Seq<char>)
    requires
        is_safe_entity_id(id),
    ensures
        id.len() >= 3,
        !id.contains('\''),
        !id.contains('"'),
        !id.contains('{'),
        !id.contains('}'),
{
    let k = choose|k: int| separates_domain_at(id, k);
    assert forall|i: int| 0 <= i < id.len() implies id[i] == '.' || is_id_word_char(#[trigger] id[i]) by {
        if i != k {
            assert(is_id_word_char(id[i]));
        }
    }
}

/// The six values the template asks Home Assistant for, one key each in
/// the JSON object it answers with.
#[derive(Clone, Copy, Debug, PartialEq, Eq, Structural)]
pub enum ReplyField {
    PvPower,
    Today,
    Month,
    LastMonth,
    Year,
    LastYear,
}

/// The JSON key of `field` in Home Assistant's reply.
pub open spec fn reply_key(field: ReplyField) -> Seq<char> {
    match field {
        ReplyField::PvPower => "pv_power"@,
        ReplyField::Today => "today_kwh"@,
        ReplyField::Month => "month_kwh"@,
        ReplyField::LastMonth => "last_month_kwh"@,
        ReplyField::Year => "year_kwh"@,
        ReplyField::LastYear => "last_year_kwh"@,
    }
}

/// Whether `field` is read from the `last_period` attribute of its entity
/// (the previous, completed cycle) rather than from its state.
pub open spec fn reads_last_period(field: ReplyField) -> bool {
    field == ReplyField::LastMonth || field == ReplyField::LastYear
}

/// The Jinja expression that reads `field` from the entity `id`.
pub open spec fn reading_text(field: ReplyField, id: Seq<char>) -> Seq<char> {
    if reads_last_period(field) {
        "state_attr('"@ + id + "','last_period')"@
    } else {
        "states('"@ + id + "')"@
    }
}

/// The entry `'key': reading` of `field` in the template's JSON object.
pub open spec fn entry_text(field: ReplyField, id: Seq<char>) -> Seq<char> {
    "'"@ + reply_key(field) + "': "@ + reading_text(field, id)
}

/// The entity a field is read from: this month and last month both from
/// the month entity, this year and last year both from the year entity.
pub open spec fn field_entity(
    field: ReplyField,
    power: Seq<char>,
    today: Seq<char>,
    month: Seq<char>,
    year: Seq<char>,
) -> Seq<char> {
    match field {
        ReplyField::PvPower => power,
        ReplyField::Today => today,
        ReplyField::Month => month,
        ReplyField::LastMonth => month,
        ReplyField::Year => year,
        ReplyField::LastYear => year,
    }
}

/// The entries of the template's JSON object, separated by `, `.
pub open spec fn template_entries(power: Seq<char>, today: Seq<char>, month: Seq<char>, year: Seq<char>) -> Seq<char> {
    entry_text(ReplyField::PvPower, power) + ", "@ + entry_text(ReplyField::Today, today) + ", "@
        + entry_text(ReplyField::Month, month) + ", "@ + entry_text(ReplyField::LastMonth, month) + ", "@
        + entry_text(ReplyField::Year, year) + ", "@ + entry_text(ReplyField::LastYear, year)
}

/// The Jinja template that Home Assistant's `/api/template` endpoint
/// evaluates into one flat JSON object of six strings. `month` and `year`
/// are each read twice: their running total, and their `last_period`
/// attribute (the previous, completed cycle).
///
/// The opening `{{{{` is the escaped form of `{{`: the host scans every
/// request body for `{{ … }}` credential references and unescapes `{{{{`
/// to a literal `{{`, so the template's own Jinja opening must be escaped.
pub open spec fn template_text(power: Seq<char>, today: Seq<char>, month: Seq<char>, year: Seq<char>) -> Seq<char> {
    "{{{{ {"@ + template_entries(power, today, month, year) + "} | tojson }}"@
}

/// All reply fields, in the order the template writes them.
pub fn reply_fields() -> (fields: Vec<ReplyField>)
    ensures
        fields@ == seq![
            ReplyField::PvPower,
            ReplyField::Today,
            ReplyField::Month,
            ReplyField::LastMonth,
            ReplyField::Year,
            ReplyField::LastYear,
        ],
{
    let mut fields = Vec::new();
    fields.push(ReplyField::PvPower);
    fields.push(ReplyField::Today);
    fields.push(ReplyField::Month);
    fields.push(ReplyField::LastMonth);
    fields.push(ReplyField::Year);
    fields.push(ReplyField::LastYear);
    fields
}

/// The JSON key of `field` in Home Assistant's reply.
pub fn reply_key_str(field: ReplyField) -> (key: &'static str)
    ensures
        key@ == reply_key(field),
{
    match field {
        ReplyField::PvPower => "pv_power",
        ReplyField::Today => "today_kwh",
        ReplyField::Month => "month_kwh",
        ReplyField::LastMonth => "last_month_kwh",
        ReplyField::Year => "year_kwh",
        ReplyField::LastYear => "last_year_kwh",
    }
}

/// The JSON pointer under which the reply holds `field`: `/` and its key.
pub fn reply_path(field: ReplyField) -> (path: &'static str)
    ensures
        path@ == "/"@ + reply_key(field),
{
    proof {
        reveal_strlit("/");
        reveal_strlit("pv_power");
        reveal_strlit("today_kwh");
        reveal_strlit("month_kwh");
        reveal_strlit("last_month_kwh");
        reveal_strlit("year_kwh");
        reveal_strlit("last_year_kwh");
    }
    match field {
        ReplyField::PvPower => {
            proof { reveal_strlit("/pv_power"); }
            assert("/pv_power"@ =~= "/"@ + "pv_power"@);
            "/pv_power"
        },
        ReplyField::Today => {
            proof { reveal_strlit("/today_kwh"); }
            assert("/today_kwh"@ =~= "/"@ + "today_kwh"@);
            "/today_kwh"
        },
        ReplyField::Month => {
            proof { reveal_strlit("/month_kwh"); }
            assert("/month_kwh"@ =~= "/"@ + "month_kwh"@);
            "/month_kwh"
        },
        ReplyField::LastMonth => {
            proof { reveal_strlit("/last_month_kwh"); }
            assert("/last_month_kwh"@ =~= "/"@ + "last_month_kwh"@);
            "/last_month_kwh"
        },
        ReplyField::Year => {
            proof { reveal_strlit("/year_kwh"); }
            assert("/year_kwh"@ =~= "/"@ + "year_kwh"@);
            "/year_kwh"
        },
        ReplyField::LastYear => {
            proof { reveal_strlit("/last_year_kwh"); }
            assert("/last_year_kwh"@ =~= "/"@ + "last_year_kwh"@);
            "/last_year_kwh"
        },
    }
}

/// Appends the entry `'key': reading` of `field`, read from `id`.
fn push_entry(t: &mut String, field: ReplyField, id: &str)
    ensures
        final(t)@ == old(t)@ + entry_text(field, id@),
{
    t.append("'");
    t.append(reply_key_str(field));
    t.append("': ");
    match field {
        ReplyField::LastMonth | ReplyField::LastYear => {
            t.append("state_attr('");
            t.append(id);
            t.append("','last_period')");
        },
        _ => {
            t.append("states('");
            t.append(id);
            t.append("')");
        },
    }
    assert(final(t)@ =~= old(t)@ + entry_text(field, id@));
}

/// Builds the Jinja template that reads the four configured entities in one
/// request. `None` when any entity id is unsafe to splice into a
/// single-quoted Jinja string literal; the caller then skips the fetch.
pub fn build_template(power: &str, today: &str, month: &str, year: &str) -> (template: Option<String>)
    ensures
        template is None <==> !(is_safe_entity_id(power@) && is_safe_entity_id(today@)
            && is_safe_entity_id(month@) && is_safe_entity_id(year@)),
        template matches Some(t) ==> t@ == template_text(power@, today@, month@, year@),
{
    if !entity_id_safe(power) || !entity_id_safe(today) || !entity_id_safe(month) || !entity_id_safe(year) {
        return None;
    }
    let mut t = String::from_str("{{{{ {");
    push_entry(&mut t, ReplyField::PvPower, power);
    t.append(", ");
    push_entry(&mut t, ReplyField::Today, today);
    t.append(", ");
    push_entry(&mut t, ReplyField::Month, month);
    t.append(", ");
    push_entry(&mut t, ReplyField::LastMonth, month);
    t.append(", ");
    push_entry(&mut t, ReplyField::Year, year);
    t.append(", ");
    push_entry(&mut t, ReplyField::LastYear, year);
    t.append("} | tojson }}");
    assert(t@ =~= template_text(power@, today@, month@, year@));
    Some(t)
}

/// Whether `s` holds `{{` starting at position `i`.
pub open spec fn opens_double_brace_at(s: Seq<char>, i: int) -> bool {
    0 <= i && i + 1 < s.len() && s[i] == '{' && s[i + 1] == '{'
}

/// Whether `s` holds `part` starting at position `i`.
pub open spec fn occurs_at(s: Seq<char>, part: Seq<char>, i: int) -> bool {
    0 <= i && i + part.len() <= s.len() && s.subrange(i, i + part.len()) == part
}

proof fn lemma_concat_lacks(a: Seq<char>, b: Seq<char>, c: char)
    requires
        !a.contains(c),
        !b.contains(c),
    ensures
        !(a + b).contains(c),
{
    if (a + b).contains(c) {
        let k = choose|k: int| 0 <= k < (a + b).len() && (a + b)[k] == c;
        if k < a.len() {
            assert(a[k] == c);
        } else {
            assert(b[k - a.len()] == c);
        }
    }
}

proof fn lemma_entry_lacks_open_brace(field: ReplyField, id: Seq<char>)
    requires
        !id.contains('{'),
    ensures
        !entry_text(field, id).contains('{'),
        entry_text(field, id).len() > 0,
        entry_text(field, id)[0] == '\'',
{
    reveal_strlit("'");
    reveal_strlit("': ");
    reveal_strlit("state_attr('");
    reveal_strlit("','last_period')");
    reveal_strlit("states('");
    reveal_strlit("')");
    reveal_strlit("pv_power");
    reveal_strlit("today_kwh");
    reveal_strlit("month_kwh");
    reveal_strlit("last_month_kwh");
    reveal_strlit("year_kwh");
    reveal_strlit("last_year_kwh");
    let key = reply_key(field);
    assert(!key.contains('{'));
    lemma_concat_lacks("'"@, key, '{');
    lemma_concat_lacks("'"@ + key, "': "@, '{');
    if reads_last_period(field) {
        lemma_concat_lacks("state_attr('"@, id, '{');
        lemma_concat_lacks("state_attr('"@ + id, "','last_period')"@, '{');
    } else {
        lemma_concat_lacks("states('"@, id, '{');
        lemma_concat_lacks("states('"@ + id, "')"@, '{');
    }
    lemma_concat_lacks("'"@ + key + "': "@, reading_text(field, id), '{');
}

/// For safe entity ids the template starts with the escaped opening
/// `{{{{ `, ends with the single closing ` }}`, and holds `{{` nowhere but
/// inside that escaped opening: the host's credential scanner finds no
/// `{{ … }}` reference to resolve once it has unescaped the opening.
pub proof fn lemma_template_escapes_only_its_opening(
    power: Seq<char>,
    today: Seq<char>,
    month: Seq<char>,
    year: Seq<char>,
)
    requires
        is_safe_entity_id(power),
        is_safe_entity_id(today),
        is_safe_entity_id(month),
        is_safe_entity_id(year),
    ensures
        template_text(power, today, month, year).take(5) == "{{{{ "@,
        template_text(power, today, month, year).take(4) == "{{{{"@,
        template_text(power, today, month, year).skip(template_text(power, today, month, year).len() - 3) == " }}"@,
        forall|i: int| opens_double_brace_at(template_text(power, today, month, year), i) ==> 0 <= i < 3,
{
    reveal_strlit("{{{{ ");
    reveal_strlit("{{{{");
    reveal_strlit(" }}");
    reveal_strlit("{{{{ {");
    reveal_strlit(", ");
    reveal_strlit("} | tojson }}");
    lemma_safe_id_cannot_break_out(power);
    lemma_safe_id_cannot_break_out(today);
    lemma_safe_id_cannot_break_out(month);
    lemma_safe_id_cannot_break_out(year);
    lemma_entry_lacks_open_brace(ReplyField::PvPower, power);
    lemma_entry_lacks_open_brace(ReplyField::Today, today);
    lemma_entry_lacks_open_brace(ReplyField::Month, month);
    lemma_entry_lacks_open_brace(ReplyField::LastMonth, month);
    lemma_entry_lacks_open_brace(ReplyField::Year, year);
    lemma_entry_lacks_open_brace(ReplyField::LastYear, year);
    let sep = ", "@;
    let e0 = entry_text(ReplyField::PvPower, power);
    let e1 = entry_text(ReplyField::Today, today);
    let e2 = entry_text(ReplyField::Month, month);
    let e3 = entry_text(ReplyField::LastMonth, month);
    let e4 = entry_text(ReplyField::Year, year);
    let e5 = entry_text(ReplyField::LastYear, year);
    let close = "} | tojson }}"@;
    assert(!sep.contains('{'));
    assert(!close.contains('{'));
    lemma_concat_lacks(e0, sep, '{');
    lemma_concat_lacks(e0 + sep, e1, '{');
    lemma_concat_lacks(e0 + sep + e1, sep, '{');
    lemma_concat_lacks(e0 + sep + e1 + sep, e2, '{');
    lemma_concat_lacks(e0 + sep + e1 + sep + e2, sep, '{');
    lemma_concat_lacks(e0 + sep + e1 + sep + e2 + sep, e3, '{');
    lemma_concat_lacks(e0 + sep + e1 + sep + e2 + sep + e3, sep, '{');
    lemma_concat_lacks(e0 + sep + e1 + sep + e2 + sep + e3 + sep, e4, '{');
    lemma_concat_lacks(e0 + sep + e1 + sep + e2 + sep + e3 + sep + e4, sep, '{');
    lemma_concat_lacks(e0 + sep + e1 + sep + e2 + sep + e3 + sep + e4 + sep, e5, '{');
    let entries = template_entries(power, today, month, year);
    lemma_concat_lacks(entries, close, '{');
    let body = entries + close;
    let open = "{{{{ {"@;
    let t = template_text(power, today, month, year);
    assert(!body.contains('{'));
    assert(t =~= open + body);
    assert(body[0] == '\'');
    assert(t.take(5) =~= "{{{{ "@);
    assert(t.take(4) =~= "{{{{"@);
    assert(t.skip(t.len() - 3) =~= " }}"@) by {
        assert(body.skip(body.len() - 3) =~= " }}"@);
    }
    assert forall|i: int| opens_double_brace_at(t, i) implies 0 <= i < 3 by {
        if i >= open.len() {
            assert(t[i] == body[i - open.len()]);
            assert(body.contains('{'));
        } else if i == open.len() - 1 {
            assert(t[i + 1] == body[0]);
        } else {
            assert(open[i] == '{' && open[i + 1] == '{');
        }
    }
}

proof fn lemma_occurs_self(e: Seq<char>)
    ensures
        occurs_at(e, e, 0),
{
    assert(e.subrange(0, e.len() as int) =~= e);
}

proof fn lemma_occurs_prepend(a: Seq<char>, b: Seq<char>, e: Seq<char>, i: int)
    requires
        occurs_at(b, e, i),
    ensures
        occurs_at(a + b, e, a.len() + i),
{
    assert((a + b).subrange(a.len() + i, a.len() + i + e.len()) =~= b.subrange(i, i + e.len()));
}

proof fn lemma_occurs_append(a: Seq<char>, b: Seq<char>, e: Seq<char>, i: int)
    requires
        occurs_at(a, e, i),
    ensures
        occurs_at(a + b, e, i),
{
    assert((a + b).subrange(i, i + e.len()) =~= a.subrange(i, i + e.len()));
}

/// Where the entry of `field` stands among the template's entries.
proof fn lemma_entries_hold(
    field: ReplyField,
    power: Seq<char>,
    today: Seq<char>,
    month: Seq<char>,
    year: Seq<char>,
) -> (i: int)
    ensures
        occurs_at(
            template_entries(power, today, month, year),
            entry_text(field, field_entity(field, power, today, month, year)),
            i,
        ),
{
    let sep = ", "@;
    let e0 = entry_text(ReplyField::PvPower, power);
    let e1 = entry_text(ReplyField::Today, today);
    let e2 = entry_text(ReplyField::Month, month);
    let e3 = entry_text(ReplyField::LastMonth, month);
    let e4 = entry_text(ReplyField::Year, year);
    let e5 = entry_text(ReplyField::LastYear, year);
    let entries = template_entries(power, today, month, year);
    let e = entry_text(field, field_entity(field, power, today, month, year));
    match field {
        ReplyField::PvPower => {
            let i = 0;
            lemma_occurs_self(e0);
            lemma_occurs_append(e0, sep, e0, i);
            lemma_occurs_append(e0 + sep, e1, e0, i);
            lemma_occurs_append(e0 + sep + e1, sep, e0, i);
            lemma_occurs_append(e0 + sep + e1 + sep, e2, e0, i);
            lemma_occurs_append(e0 + sep + e1 + sep + e2, sep, e0, i);
            lemma_occurs_append(e0 + sep + e1 + sep + e2 + sep, e3, e0, i);
            lemma_occurs_append(e0 + sep + e1 + sep + e2 + sep + e3, sep, e0, i);
            lemma_occurs_append(e0 + sep + e1 + sep + e2 + sep + e3 + sep, e4, e0, i);
            lemma_occurs_append(e0 + sep + e1 + sep + e2 + sep + e3 + sep + e4, sep, e0, i);
            lemma_occurs_append(e0 + sep + e1 + sep + e2 + sep + e3 + sep + e4 + sep, e5, e0, i);
            assert(occurs_at(entries, e, i));
            i
        },
        ReplyField::Today => {
            let i = (e0 + sep).len() as int;
            lemma_occurs_self(e1);
            lemma_occurs_prepend(e0 + sep, e1, e1, 0);
            lemma_occurs_append(e0 + sep + e1, sep, e1, i);
            lemma_occurs_append(e0 + sep + e1 + sep, e2, e1, i);
            lemma_occurs_append(e0 + sep + e1 + sep + e2, sep, e1, i);
            lemma_occurs_append(e0 + sep + e1 + sep + e2 + sep, e3, e1, i);
            lemma_occurs_append(e0 + sep + e1 + sep + e2 + sep + e3, sep, e1, i);
            lemma_occurs_append(e0 + sep + e1 + sep + e2 + sep + e3 + sep, e4, e1, i);
            lemma_occurs_append(e0 + sep + e1 + sep + e2 + sep + e3 + sep + e4, sep, e1, i);
            lemma_occurs_append(e0 + sep + e1 + sep + e2 + sep + e3 + sep + e4 + sep, e5, e1, i);
            assert(occurs_at(entries, e, i));
            i
        },
        ReplyField::Month => {
            let i = (e0 + sep + e1 + sep).len() as int;
            lemma_occurs_self(e2);
            lemma_occurs_prepend(e0 + sep + e1 + sep, e2, e2, 0);
            lemma_occurs_append(e0 + sep + e1 + sep + e2, sep, e2, i);
            lemma_occurs_append(e0 + sep + e1 + sep + e2 + sep, e3, e2, i);
            lemma_occurs_append(e0 + sep + e1 + sep + e2 + sep + e3, sep, e2, i);
            lemma_occurs_append(e0 + sep + e1 + sep + e2 + sep + e3 + sep, e4, e2, i);
            lemma_occurs_append(e0 + sep + e1 + sep + e2 + sep + e3 + sep + e4, sep, e2, i);
            lemma_occurs_append(e0 + sep + e1 + sep + e2 + sep + e3 + sep + e4 + sep, e5, e2, i);
            assert(occurs_at(entries, e, i));
            i
        },
        ReplyField::LastMonth => {
            let i = (e0 + sep + e1 + sep + e2 + sep).len() as int;
            lemma_occurs_self(e3);
            lemma_occurs_prepend(e0 + sep + e1 + sep + e2 + sep, e3, e3, 0);
            lemma_occurs_append(e0 + sep + e1 + sep + e2 + sep + e3, sep, e3, i);
            lemma_occurs_append(e0 + sep + e1 + sep + e2 + sep + e3 + sep, e4, e3, i);
            lemma_occurs_append(e0 + sep + e1 + sep + e2 + sep + e3 + sep + e4, sep, e3, i);
            lemma_occurs_append(e0 + sep + e1 + sep + e2 + sep + e3 + sep + e4 + sep, e5, e3, i);
            assert(occurs_at(entries, e, i));
            i
        },
        ReplyField::Year => {
            let i = (e0 + sep + e1 + sep + e2 + sep + e3 + sep).len() as int;
            lemma_occurs_self(e4);
            lemma_occurs_prepend(e0 + sep + e1 + sep + e2 + sep + e3 + sep, e4, e4, 0);
            lemma_occurs_append(e0 + sep + e1 + sep + e2 + sep + e3 + sep + e4, sep, e4, i);
            lemma_occurs_append(e0 + sep + e1 + sep + e2 + sep + e3 + sep + e4 + sep, e5, e4, i);
            assert(occurs_at(entries, e, i));
            i
        },
        ReplyField::LastYear => {
            let i = (e0 + sep + e1 + sep + e2 + sep + e3 + sep + e4 + sep).len() as int;
            lemma_occurs_self(e5);
            lemma_occurs_prepend(e0 + sep + e1 + sep + e2 + sep + e3 + sep + e4 + sep, e5, e5, 0);
            assert(occurs_at(entries, e, i));
            i
        },
    }
}

/// The template's JSON object binds the key of every reply field to the
/// reading of that field's entity, in the form `'key': reading`: the paths
/// the reply is read at are the keys the template writes.
pub proof fn lemma_template_binds_each_key(
    field: ReplyField,
    power: Seq<char>,
    today: Seq<char>,
    month: Seq<char>,
    year: Seq<char>,
)
    ensures
        exists|i: int|
            occurs_at(
                template_text(power, today, month, year),
                entry_text(field, field_entity(field, power, today, month, year)),
                i,
            ),
{
    let e = entry_text(field, field_entity(field, power, today, month, year));
    let entries = template_entries(power, today, month, year);
    let i = lemma_entries_hold(field, power, today, month, year);
    lemma_occurs_prepend("{{{{ {"@, entries, e, i);
    lemma_occurs_append("{{{{ {"@ + entries, "} | tojson }}"@, e, "{{{{ {"@.len() + i);
    assert(occurs_at(template_text(power, today, month, year), e, "{{{{ {"@.len() + i));
}

/// For every four entity ids the template is the fixed text with the ids
/// spliced in, each of the six keys written once and bound to its own
/// reading: `month_kwh` to the month entity's state, `last_month_kwh` to its
/// `last_period` attribute, and likewise for the year.
pub proof fn lemma_template_is_the_fixed_text(
    power: Seq<char>,
    today: Seq<char>,
    month: Seq<char>,
    year: Seq<char>,
)
    ensures
        template_text(power, today, month, year) == "{{{{ {'pv_power': states('"@ + power
            + "'), 'today_kwh': states('"@ + today + "'), 'month_kwh': states('"@ + month
            + "'), 'last_month_kwh': state_attr('"@ + month + "','last_period'), 'year_kwh': states('"@
            + year + "'), 'last_year_kwh': state_attr('"@ + year + "','last_period')} | tojson }}"@,
{
    reveal_strlit("{{{{ {'pv_power': states('");
    reveal_strlit("'), 'today_kwh': states('");
    reveal_strlit("'), 'month_kwh': states('");
    reveal_strlit("'), 'last_month_kwh': state_attr('");
    reveal_strlit("','last_period'), 'year_kwh': states('");
    reveal_strlit("'), 'last_year_kwh': state_attr('");
    reveal_strlit("','last_period')} | tojson }}");
    reveal_strlit("{{{{ {");
    reveal_strlit(", ");
    reveal_strlit("} | tojson }}");
    reveal_strlit("'");
    reveal_strlit("': ");
    reveal_strlit("state_attr('");
    reveal_strlit("','last_period')");
    reveal_strlit("states('");
    reveal_strlit("')");
    reveal_strlit("pv_power");
    reveal_strlit("today_kwh");
    reveal_strlit("month_kwh");
    reveal_strlit("last_month_kwh");
    reveal_strlit("year_kwh");
    reveal_strlit("last_year_kwh");
    let q = "'"@;
    let colon = "': "@;
    let sep = ", "@;
    let st = "states('"@;
    let st_end = "')"@;
    let sa = "state_attr('"@;
    let sa_end = "','last_period')"@;
    assert("{{{{ {'pv_power': states('"@ =~= "{{{{ {"@ + q + "pv_power"@ + colon + st);
    assert("'), 'today_kwh': states('"@ =~= st_end + sep + q + "today_kwh"@ + colon + st);
    assert("'), 'month_kwh': states('"@ =~= st_end + sep + q + "month_kwh"@ + colon + st);
    assert("'), 'last_month_kwh': state_attr('"@ =~= st_end + sep + q + "last_month_kwh"@ + colon + sa);
    assert("','last_period'), 'year_kwh': states('"@ =~= sa_end + sep + q + "year_kwh"@ + colon + st);
    assert("'), 'last_year_kwh': state_attr('"@ =~= st_end + sep + q + "last_year_kwh"@ + colon + sa);
    assert("','last_period')} | tojson }}"@ =~= sa_end + "} | tojson }}"@);
    assert(template_text(power, today, month, year) =~= "{{{{ {'pv_power': states('"@ + power
        + "'), 'today_kwh': states('"@ + today + "'), 'month_kwh': states('"@ + month
        + "'), 'last_month_kwh': state_attr('"@ + month + "','last_period'), 'year_kwh': states('"@
        + year + "'), 'last_year_kwh': state_attr('"@ + year + "','last_period')} | tojson }}"@);
}

} // verus!
