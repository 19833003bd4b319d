//! The filters that narrow the SQL queries of a page: the selected participant
//! groups, trip domains and trip labels, turned into SQL text and put in place
//! of the placeholders that the query texts carry.
use vstd::prelude::*;
use crate::text::{breaks_at, lemma_replace_absent, no_start_within, occurs, lemma_no_start_concat, chars_of, join_chars, replace_all, replace_chars, spec_join, spec_replace, string_of, views};
use crate::text_map::TextMap;

verus! {

/// One entry of the stored filter settings: a list, whose text items are the
/// selected values (other items are ignored), or something that is not a list.
pub enum FilterValue {
    List(Vec<Option<String>>),
    Other,
}

/// The selected values: the text items of `items`, in order.
pub open spec fn spec_texts(items: Seq<Option<String>>) -> Seq<Seq<char>>
    decreases items.len(),
{
    if items.len() == 0 {
        Seq::<Seq<char>>::empty()
    } else {
        let pre = spec_texts(items.drop_last());
        match items.last() {
            Some(s) => pre.push(s@),
            None => pre,
        }
    }
}

/// The selected values are the text items of the list, in order; items that
/// are not text are left out.
pub proof fn law_texts_are_the_text_items(items: Seq<Option<String>>)
    ensures
        spec_texts(items) == items.filter_map(
            |o: Option<String>| match o {
                Some(s) => Some(s@),
                None => None::<Seq<char>>,
            },
        ),
    decreases items.len(),
{
    if items.len() > 0 {
        law_texts_are_the_text_items(items.drop_last());
        let pre = spec_texts(items.drop_last());
        if let Some(s) = items.last() {
            assert(pre.push(s@) =~= pre + seq![s@]);
        }
    }
}

/// `s` with each `'` doubled, as SQL writes a quote inside a quoted string.
pub open spec fn spec_escape(s: Seq<char>) -> Seq<char> {
    spec_replace(s, seq!['\''], seq!['\'', '\''])
}

/// `s` escaped and put between single quotes.
pub open spec fn spec_quoted(s: Seq<char>) -> Seq<char> {
    seq!['\''] + spec_escape(s) + seq!['\'']
}

/// The condition that trip labels hold the label `s`.
pub open spec fn spec_label_cond(s: Seq<char>) -> Seq<char> {
    "(',' || REPLACE(TripLabels,' ','') || ',') LIKE '%,"@ + spec_escape(s) + ",%'"@
}

/// The SQL list `('a','b')` of the selected values of `v`, or `fallback` when
/// `v` is not a list or is an empty one.
pub open spec fn spec_sql_in(v: FilterValue, fallback: Seq<char>) -> Seq<char> {
    match v {
        FilterValue::List(items) => if items@.len() > 0 {
            seq!['('] + spec_join(spec_texts(items@).map_values(|s: Seq<char>| spec_quoted(s)), seq![','])
                + seq![')']
        } else {
            fallback
        },
        FilterValue::Other => fallback,
    }
}

/// The SQL condition that trip labels hold every selected label of `v`, or
/// `1=1` when `v` is not a list or is an empty one.
pub open spec fn spec_label_filter(v: FilterValue) -> Seq<char> {
    match v {
        FilterValue::List(items) => if items@.len() > 0 {
            seq!['('] + spec_join(
                spec_texts(items@).map_values(|s: Seq<char>| spec_label_cond(s)),
                " AND "@,
            ) + seq![')']
        } else {
            "1=1"@
        },
        FilterValue::Other => "1=1"@,
    }
}

/// `q` with the comment markers `/*` and `*/` removed and the placeholders
/// `(ParticipantGroup)`, `(TripDomain)` and `1=1` replaced by the filters.
pub open spec fn spec_apply_filters(
    q: Seq<char>,
    group: Seq<char>,
    domain: Seq<char>,
    label: Seq<char>,
) -> Seq<char> {
    spec_replace(
        spec_replace(
            spec_replace(
                spec_replace(spec_replace(q, "/*"@, ""@), "*/"@, ""@),
                "(ParticipantGroup)"@,
                group,
            ),
            "(TripDomain)"@,
            domain,
        ),
        "1=1"@,
        label,
    )
}

/// The text items of `items`.
fn texts_of(items: &Vec<Option<String>>) -> (res: Vec<Vec<char>>)
    ensures
        views(res@) == spec_texts(items@),
{
    let mut out: Vec<Vec<char>> = Vec::new();
    let n = items.len();
    assert(items@.take(0) =~= Seq::<Option<String>>::empty());
    for i in 0..n
        invariant
            n == items@.len(),
            views(out@) == spec_texts(items@.take(i as int)),
    {
        assert(items@.take(i + 1).drop_last() =~= items@.take(i as int));
        assert(items@.take(i + 1).last() == items@[i as int]);
        match &items[i] {
            Some(s) => {
                let ghost o = out@;
                out.push(chars_of(s.as_str()));
                assert(views(out@) =~= views(o).push(s@));
            },
            None => {},
        }
    }
    assert(items@.take(n as int) =~= items@);
    out
}

/// `s` with each `'` doubled.
pub fn escape_quotes(s: &[char]) -> (res: Vec<char>)
    ensures
        res@ == spec_escape(s@),
{
    let q: Vec<char> = vec!['\''];
    let qq: Vec<char> = vec!['\'', '\''];
    assert(q@ =~= seq!['\'']);
    assert(qq@ =~= seq!['\'', '\'']);
    replace_chars(s, q.as_slice(), qq.as_slice())
}

/// The SQL list `('a','b')` of the selected values of `filter`, or `fallback`
/// when there is none.
pub fn format_sql_in(filter: &FilterValue, fallback: &str) -> (res: String)
    ensures
        res@ == spec_sql_in(*filter, fallback@),
{
    match filter {
        FilterValue::List(items) => {
            if items.len() == 0 {
                return fallback.to_owned();
            }
            let texts = texts_of(items);
            let mut parts: Vec<Vec<char>> = Vec::new();
            let n = texts.len();
            let ghost ts = spec_texts(items@);
            for i in 0..n
                invariant
                    n == ts.len(),
                    views(texts@) == ts,
                    views(parts@) == ts.take(i as int).map_values(|s: Seq<char>| spec_quoted(s)),
            {
                let mut p: Vec<char> = vec!['\''];
                let e = escape_quotes(texts[i].as_slice());
                p.extend_from_slice(e.as_slice());
                p.push('\'');
                let ghost o = parts@;
                assert(texts@[i as int]@ == ts[i as int]);
                assert(p@ =~= spec_quoted(ts[i as int]));
                let ghost pv = p@;
                parts.push(p);
                assert(views(parts@) =~= views(o).push(pv));
                assert(views(parts@) =~= ts.take(i + 1).map_values(|s: Seq<char>| spec_quoted(s)));
            }
            assert(ts.take(n as int) =~= ts);
            let comma: Vec<char> = vec![','];
            let joined = join_chars(&parts, comma.as_slice());
            let mut out: Vec<char> = vec!['('];
            out.extend_from_slice(joined.as_slice());
            out.push(')');
            assert(comma@ =~= seq![',']);
            assert(out@ =~= seq!['('] + joined@ + seq![')']);
            string_of(out.as_slice())
        },
        FilterValue::Other => fallback.to_owned(),
    }
}

/// The SQL condition that trip labels hold every selected label, or `1=1`
/// when no label is selected.
pub fn trip_label_filter(filter: &FilterValue) -> (res: String)
    ensures
        res@ == spec_label_filter(*filter),
{
    match filter {
        FilterValue::List(items) => {
            if items.len() == 0 {
                return "1=1".to_owned();
            }
            let texts = texts_of(items);
            let head = chars_of("(',' || REPLACE(TripLabels,' ','') || ',') LIKE '%,");
            let tail = chars_of(",%'");
            let mut parts: Vec<Vec<char>> = Vec::new();
            let n = texts.len();
            let ghost ts = spec_texts(items@);
            for i in 0..n
                invariant
                    n == ts.len(),
                    views(texts@) == ts,
                    head@ == "(',' || REPLACE(TripLabels,' ','') || ',') LIKE '%,"@,
                    tail@ == ",%'"@,
                    views(parts@) == ts.take(i as int).map_values(|s: Seq<char>| spec_label_cond(s)),
            {
                let mut p: Vec<char> = head.clone();
                let e = escape_quotes(texts[i].as_slice());
                p.extend_from_slice(e.as_slice());
                p.extend_from_slice(tail.as_slice());
                assert(texts@[i as int]@ == ts[i as int]);
                assert(p@ =~= spec_label_cond(ts[i as int]));
                let ghost o = parts@;
                let ghost pv = p@;
                parts.push(p);
                assert(views(parts@) =~= views(o).push(pv));
                assert(views(parts@) =~= ts.take(i + 1).map_values(|s: Seq<char>| spec_label_cond(s)));
            }
            assert(ts.take(n as int) =~= ts);
            let and = chars_of(" AND ");
            let joined = join_chars(&parts, and.as_slice());
            let mut out: Vec<char> = vec!['('];
            out.extend_from_slice(joined.as_slice());
            out.push(')');
            assert(out@ =~= seq!['('] + joined@ + seq![')']);
            string_of(out.as_slice())
        },
        FilterValue::Other => "1=1".to_owned(),
    }
}

/// `query` with the comment markers removed and the filter placeholders
/// replaced by `group`, `domain` and `label`.
pub fn apply_filters(query: &str, group: &str, domain: &str, label: &str) -> (res: String)
    ensures
        res@ == spec_apply_filters(query@, group@, domain@, label@),
{
    let a = replace_all(query, "/*", "");
    let b = replace_all(a.as_str(), "*/", "");
    let c = replace_all(b.as_str(), "(ParticipantGroup)", group);
    let d = replace_all(c.as_str(), "(TripDomain)", domain);
    let e = replace_all(d.as_str(), "1=1", label);
    e
}

/// The stored filter settings that narrow the queries.
pub struct FilterSelection {
    pub participant_group: FilterValue,
    pub trip_domain: FilterValue,
    pub trip_label: FilterValue,
}

/// The SQL text of the three filters, ready to be put into a query.
pub struct SqlFilters {
    pub group: String,
    pub domain: String,
    pub label: String,
}

impl SqlFilters {
    /// The SQL text of the selected filters: for groups and domains a list that
    /// falls back to the column itself, for labels a condition that falls back
    /// to `1=1`, so that a query without selection keeps its placeholders.
    pub fn from_selection(sel: &FilterSelection) -> (res: SqlFilters)
        ensures
            res.group@ == spec_sql_in(sel.participant_group, "(ParticipantGroup)"@),
            res.domain@ == spec_sql_in(sel.trip_domain, "(TripDomain)"@),
            res.label@ == spec_label_filter(sel.trip_label),
    {
        SqlFilters {
            group: format_sql_in(&sel.participant_group, "(ParticipantGroup)"),
            domain: format_sql_in(&sel.trip_domain, "(TripDomain)"),
            label: trip_label_filter(&sel.trip_label),
        }
    }

    /// `query` with these filters applied.
    pub fn apply(&self, query: &str) -> (res: String)
        ensures
            res@ == spec_apply_filters(query@, self.group@, self.domain@, self.label@),
    {
        apply_filters(query, self.group.as_str(), self.domain.as_str(), self.label.as_str())
    }
}

/// The selected values of a filter object of the page address, under each key.
pub type FilterGroups = TextMap<Vec<String>>;

/// A filter object as a JSON object holds it: under each key, a list whose text
/// items are the selected values, or something that is not a list.
pub type FilterObject = TextMap<FilterValue>;

/// A value between single quotes, unescaped.
pub open spec fn plain_quoted(v: Seq<char>) -> Seq<char> {
    seq!['\''] + v + seq!['\'']
}

/// The SQL list `('a','b')` of `vals`, without escaping.
pub open spec fn spec_plain_in(vals: Seq<Seq<char>>) -> Seq<char> {
    seq!['('] + spec_join(vals.map_values(|v: Seq<char>| plain_quoted(v)), seq![',']) + seq![')']
}

/// The key of the address filter that a placeholder stands for.
pub open spec fn placeholder_key(p: Seq<char>) -> Option<Seq<char>> {
    if p == "(TripDomain)"@ {
        Some("TripDomain"@)
    } else if p == "(ParticipantGroup)"@ {
        Some("ParticipantGroup"@)
    } else {
        None
    }
}

/// The values that replace the placeholder with key `key`, when there is a
/// non-empty list under it.
pub open spec fn list_under(data: Map<Seq<char>, FilterValue>, key: Seq<char>) -> Option<Seq<Seq<char>>> {
    if data.dom().contains(key) {
        match data[key] {
            FilterValue::List(items) => if items@.len() > 0 {
                Some(spec_texts(items@))
            } else {
                None
            },
            FilterValue::Other => None,
        }
    } else {
        None
    }
}

/// What `replace_filter` makes of `s`.
pub open spec fn spec_replace_filter(s: Seq<char>, placeholder: Seq<char>, data: Map<Seq<char>, FilterValue>) -> Seq<char> {
    match placeholder_key(placeholder) {
        Some(key) => match list_under(data, key) {
            Some(vals) => spec_replace(s, placeholder, spec_plain_in(vals)),
            None => s,
        },
        None => s,
    }
}

/// Puts the values that the page address selects in place of a filter placeholder.
pub trait SqlFilterReplace {
    fn replace_filter(self, placeholder: &str, data: &FilterObject) -> String;
}

impl SqlFilterReplace for String {
    /// `self` with `placeholder` replaced by the SQL list of the text items of
    /// the non-empty list that `data` holds under the placeholder's key;
    /// unchanged for an unknown placeholder, or when there is no such list.
    fn replace_filter(self, placeholder: &str, data: &FilterObject) -> (res: String)
        ensures
            data.wf() ==> res@ == spec_replace_filter(self@, placeholder@, data@),
    {
        let p = chars_of(placeholder);
        let td = chars_of("(TripDomain)");
        let pg = chars_of("(ParticipantGroup)");
        let key: &str = if crate::text::chars_eq(p.as_slice(), td.as_slice()) {
            "TripDomain"
        } else if crate::text::chars_eq(p.as_slice(), pg.as_slice()) {
            "ParticipantGroup"
        } else {
            return self;
        };
        let items = match data.get(key) {
            Some(FilterValue::List(items)) => items,
            _ => {
                return self;
            },
        };
        if items.len() == 0 {
            return self;
        }
        let vals = texts_of(items);
        let mut parts: Vec<Vec<char>> = Vec::new();
        let n = vals.len();
        let ghost ts = views(vals@);
        for i in 0..n
            invariant
                n == vals@.len(),
                ts == views(vals@),
                views(parts@) == ts.take(i as int).map_values(|v: Seq<char>| plain_quoted(v)),
        {
            let mut q: Vec<char> = vec!['\''];
            q.extend_from_slice(vals[i].as_slice());
            q.push('\'');
            assert(ts[i as int] == vals@[i as int]@);
            assert(q@ =~= plain_quoted(ts[i as int]));
            let ghost o = parts@;
            let ghost qv = q@;
            parts.push(q);
            assert(views(parts@) =~= views(o).push(qv));
            assert(views(parts@) =~= ts.take(i + 1).map_values(|v: Seq<char>| plain_quoted(v)));
        }
        assert(ts.take(n as int) =~= ts);
        let comma: Vec<char> = vec![','];
        let joined = join_chars(&parts, comma.as_slice());
        let mut list: Vec<char> = vec!['('];
        list.extend_from_slice(joined.as_slice());
        list.push(')');
        assert(comma@ =~= seq![',']);
        assert(list@ =~= spec_plain_in(ts));
        let sv = chars_of(self.as_str());
        let out = replace_chars(sv.as_slice(), p.as_slice(), list.as_slice());
        string_of(out.as_slice())
    }
}

/// Doubling the quotes of a text and then undoing the doubling (each `''`
/// back to `'`, from the left) gives the text back: a selected value keeps its
/// exact text inside the quoted SQL string.
pub proof fn law_escape_then_unescape(s: Seq<char>)
    ensures
        spec_replace(spec_escape(s), seq!['\'', '\''], seq!['\'']) == s,
    decreases s.len(),
{
    let q = seq!['\''];
    let qq = seq!['\'', '\''];
    if s.len() == 0 {
        assert(spec_escape(s) =~= Seq::<char>::empty());
    } else {
        let rest = s.drop_first();
        law_escape_then_unescape(rest);
        let x = spec_escape(rest);
        assert(s.skip(1) =~= rest);
        if s[0] == '\'' {
            assert(s.take(1) =~= q);
            assert(spec_escape(s) == qq + x);
            let e = qq + x;
            assert(e.take(2) =~= qq);
            assert(e.skip(2) =~= x);
            assert(q + rest =~= s);
        } else {
            assert(s.take(1) != q) by {
                assert(s.take(1)[0] == s[0]);
            }
            assert(spec_escape(s) == seq![s[0]] + x);
            let e = seq![s[0]] + x;
            assert(e.drop_first() =~= x);
            if e.len() < 2 {
                assert(x.len() == 0);
                assert(spec_replace(x, qq, q) == x);
                assert(rest =~= Seq::<char>::empty());
                assert(e =~= s);
            } else {
                assert(e.take(2) != qq) by {
                    assert(e.take(2)[0] == s[0]);
                }
                assert(e[0] == s[0]);
                assert(seq![s[0]] + rest =~= s);
            }
        }
    }
}

/// A filter entry that is not a list, or is an empty one.
pub open spec fn selects_nothing(v: FilterValue) -> bool {
    match v {
        FilterValue::List(items) => items@.len() == 0,
        FilterValue::Other => true,
    }
}

/// With nothing selected, the filters put each placeholder in place of itself,
/// so applying them only removes the comment markers `/*` and `*/`.
pub proof fn law_no_selection_only_uncomments(
    q: Seq<char>,
    group: FilterValue,
    domain: FilterValue,
    label: FilterValue,
)
    requires
        selects_nothing(group),
        selects_nothing(domain),
        selects_nothing(label),
    ensures
        spec_apply_filters(
            q,
            spec_sql_in(group, "(ParticipantGroup)"@),
            spec_sql_in(domain, "(TripDomain)"@),
            spec_label_filter(label),
        ) == spec_replace(spec_replace(q, "/*"@, ""@), "*/"@, ""@),
{
    let a = spec_replace(spec_replace(q, "/*"@, ""@), "*/"@, ""@);
    crate::text::lemma_replace_same(a, "(ParticipantGroup)"@);
    crate::text::lemma_replace_same(a, "(TripDomain)"@);
    crate::text::lemma_replace_same(a, "1=1"@);
}

// ---------------------------------------------------------------------------
// Where each filter goes
// ---------------------------------------------------------------------------

/// Text that holds none of the characters that start a comment marker, a
/// placeholder or `1=1`: no `/`, `*`, `(` and `1`.
pub open spec fn free_of_filter_marks(x: Seq<char>) -> bool {
    &&& !x.contains('/')
    &&& !x.contains('*')
    &&& !x.contains('(')
    &&& !x.contains('1')
}

proof fn lemma_concat_lacks(x: Seq<char>, y: Seq<char>, c: char)
    requires
        !x.contains(c),
        !y.contains(c),
    ensures
        !(x + y).contains(c),
{
    if (x + y).contains(c) {
        let k = choose|k: int| 0 <= k < (x + y).len() && (x + y)[k] == c;
        if k < x.len() {
            assert(x[k] == c);
        } else {
            assert(y[k - x.len()] == c);
        }
    }
}

proof fn lemma_no_start_without_first(x: Seq<char>, p: Seq<char>)
    requires
        p.len() > 0,
        !x.contains(p[0]),
    ensures
        no_start_within(x, p),
{
    assert forall|i: int| 0 <= i < x.len() implies #[trigger] breaks_at(x, p, i) by {
        assert(x.contains(x[i]));
        assert(x[i + 0int] != p[0]);
    }
}

/// Replacing `p` in `p` followed by text without `p`'s first character.
proof fn lemma_replace_leading(p: Seq<char>, b: Seq<char>, r: Seq<char>)
    requires
        p.len() > 0,
        !b.contains(p[0]),
    ensures
        spec_replace(p + b, p, r) == r + b,
{
    let s = p + b;
    assert(s.take(p.len() as int) =~= p);
    assert(s.skip(p.len() as int) =~= b);
    lemma_replace_absent(b, p, r);
}

/// The marks that `spec_apply_filters` looks for, character by character.
proof fn lemma_filter_marks()
    ensures
        "/*"@[0] == '/',
        "*/"@[0] == '*',
        "1=1"@ == seq!['1', '=', '1'],
        "(ParticipantGroup)"@[0] == '(',
        "(TripDomain)"@[0] == '(',
        !"1=1"@.contains('/'),
        !"1=1"@.contains('*'),
        !"1=1"@.contains('('),
        !"(TripDomain)"@.contains('/'),
        !"(TripDomain)"@.contains('*'),
        !"(TripDomain)"@.contains('1'),
        !"(ParticipantGroup)"@.contains('/'),
        !"(ParticipantGroup)"@.contains('*'),
        !"(ParticipantGroup)"@.contains('1'),
        "/*"@.len() > 0,
        "*/"@.len() > 0,
{
    reveal_strlit("/*");
    reveal_strlit("*/");
    reveal_strlit("1=1");
    lemma_trip_domain_chars();
    lemma_participant_group_chars();
    assert("1=1"@ =~= seq!['1', '=', '1']) by {
        assert("1=1"@.len() == 3);
    }
}

/// Filling one placeholder in a query whose other text holds no filter marks.
proof fn lemma_fill_one(a: Seq<char>, m: Seq<char>, b: Seq<char>, g: Seq<char>, d: Seq<char>, l: Seq<char>)
    requires
        free_of_filter_marks(a),
        free_of_filter_marks(b),
        m == "(ParticipantGroup)"@ || m == "(TripDomain)"@ || m == "1=1"@,
        m == "(ParticipantGroup)"@ ==> no_start_within(g, "(TripDomain)"@) && no_start_within(g, "1=1"@),
        m == "(TripDomain)"@ ==> no_start_within(d, "1=1"@),
    ensures
        spec_apply_filters(a + m + b, g, d, l) == a + (if m == "(ParticipantGroup)"@ {
            g
        } else if m == "(TripDomain)"@ {
            d
        } else {
            l
        }) + b,
{
    lemma_filter_marks();
    lemma_placeholders_shape();
    let pg = "(ParticipantGroup)"@;
    let td = "(TripDomain)"@;
    let one = "1=1"@;
    let q = a + (m + b);
    assert(a + m + b =~= q);
    // No comment markers anywhere.
    assert(!m.contains('/') && !m.contains('*'));
    lemma_concat_lacks(m, b, '/');
    lemma_concat_lacks(a, m + b, '/');
    lemma_concat_lacks(m, b, '*');
    lemma_concat_lacks(a, m + b, '*');
    lemma_replace_absent(q, "/*"@, ""@);
    lemma_replace_absent(q, "*/"@, ""@);
    // Each placeholder in turn.
    lemma_no_start_without_first(a, pg);
    lemma_no_start_without_first(a, td);
    lemma_no_start_without_first(a, one);
    lemma_placeholder_apart(td, pg);
    lemma_placeholder_apart(pg, td);
    lemma_no_start_without_first(one, pg);
    lemma_no_start_without_first(one, td);
    lemma_no_start_without_first(pg, one);
    lemma_no_start_without_first(td, one);
    let v = if m == pg { g } else if m == td { d } else { l };
    crate::text::lemma_replace_keeps_front(a, m + b, pg, g);
    crate::text::lemma_replace_keeps_front(a, m + b, td, d);
    lemma_replace_absent(b, pg, g);
    lemma_replace_absent(b, td, d);
    lemma_replace_absent(b, one, l);
    if m == pg {
        lemma_replace_leading(pg, b, g);
        crate::text::lemma_replace_keeps_front(a, g + b, td, d);
        crate::text::lemma_replace_keeps_front(g, b, td, d);
        crate::text::lemma_replace_keeps_front(a, g + b, one, l);
        crate::text::lemma_replace_keeps_front(g, b, one, l);
    } else if m == td {
        crate::text::lemma_replace_keeps_front(td, b, pg, g);
        lemma_replace_leading(td, b, d);
        crate::text::lemma_replace_keeps_front(a, d + b, one, l);
        crate::text::lemma_replace_keeps_front(d, b, one, l);
    } else {
        crate::text::lemma_replace_keeps_front(one, b, pg, g);
        crate::text::lemma_replace_keeps_front(one, b, td, d);
        crate::text::lemma_replace_keeps_front(a, one + b, one, l);
        lemma_replace_leading(one, b, l);
    }
    assert(a + (v + b) =~= a + v + b);
}

/// Applying the filters puts the participant-group filter in place of
/// `(ParticipantGroup)`, the trip-domain filter in place of `(TripDomain)`
/// and the label filter in place of `1=1`, each where the query has it, and
/// keeps the rest of the query: for a query made of text without filter marks
/// around one placeholder, and filters that do not themselves start a later
/// placeholder.
pub proof fn law_each_filter_in_its_place(a: Seq<char>, b: Seq<char>, group: Seq<char>, domain: Seq<char>, label: Seq<char>)
    requires
        free_of_filter_marks(a),
        free_of_filter_marks(b),
        no_start_within(group, "(TripDomain)"@),
        no_start_within(group, "1=1"@),
        no_start_within(domain, "1=1"@),
    ensures
        spec_apply_filters(a + "(ParticipantGroup)"@ + b, group, domain, label) == a + group + b,
        spec_apply_filters(a + "(TripDomain)"@ + b, group, domain, label) == a + domain + b,
        spec_apply_filters(a + "1=1"@ + b, group, domain, label) == a + label + b,
{
    lemma_placeholders_shape();
    lemma_filter_marks();
    lemma_fill_one(a, "(ParticipantGroup)"@, b, group, domain, label);
    lemma_fill_one(a, "(TripDomain)"@, b, group, domain, label);
    lemma_fill_one(a, "1=1"@, b, group, domain, label);
}

/// A selection of values without quotes becomes the SQL list of those values
/// in order, each between single quotes, and the trip-label filter the
/// conjunction of one `LIKE` condition per label, in order.
pub proof fn law_plain_values_in_sql(v: Vec<Option<String>>, fallback: Seq<char>)
    requires
        v@.len() > 0,
        forall|i: int| 0 <= i < spec_texts(v@).len() ==> !(#[trigger] spec_texts(v@)[i]).contains('\''),
    ensures
        spec_sql_in(FilterValue::List(v), fallback) == spec_plain_in(spec_texts(v@)),
        spec_label_filter(FilterValue::List(v)) == seq!['('] + spec_join(
            spec_texts(v@).map_values(
                |s: Seq<char>| "(',' || REPLACE(TripLabels,' ','') || ',') LIKE '%,"@ + s + ",%'"@,
            ),
            " AND "@,
        ) + seq![')'],
{
    let ts = spec_texts(v@);
    assert forall|i: int| 0 <= i < ts.len() implies spec_escape(#[trigger] ts[i]) == ts[i] by {
        lemma_replace_absent(ts[i], seq!['\''], seq!['\'', '\'']);
    }
    assert(ts.map_values(|s: Seq<char>| spec_quoted(s)) =~= ts.map_values(|s: Seq<char>| plain_quoted(s)));
    assert(ts.map_values(|s: Seq<char>| spec_label_cond(s)) =~= ts.map_values(
        |s: Seq<char>| "(',' || REPLACE(TripLabels,' ','') || ',') LIKE '%,"@ + s + ",%'"@,
    ));
}

// ---------------------------------------------------------------------------
// Replacing both placeholders
// ---------------------------------------------------------------------------

/// The characters of `(TripDomain)`.
proof fn lemma_trip_domain_chars()
    ensures
        "(TripDomain)"@ == seq!['(', 'T', 'r', 'i', 'p', 'D', 'o', 'm', 'a', 'i', 'n', ')'],
{
    reveal_strlit("(TripDomain)");
    assert forall|k: int| 0 <= k < "(TripDomain)"@.len() implies "(TripDomain)"@[k] == seq!['(', 'T', 'r', 'i', 'p', 'D', 'o', 'm', 'a', 'i', 'n', ')'][k] by {
        if k == 0 {
        } else if k == 1 {
        } else if k == 2 {
        } else if k == 3 {
        } else if k == 4 {
        } else if k == 5 {
        } else if k == 6 {
        } else if k == 7 {
        } else if k == 8 {
        } else if k == 9 {
        } else if k == 10 {
        } else if k == 11 {
        }
    }
    assert("(TripDomain)"@ =~= seq!['(', 'T', 'r', 'i', 'p', 'D', 'o', 'm', 'a', 'i', 'n', ')']);
}

/// The characters of `(ParticipantGroup)`.
proof fn lemma_participant_group_chars()
    ensures
        "(ParticipantGroup)"@ == seq!['(', 'P', 'a', 'r', 't', 'i', 'c', 'i', 'p', 'a', 'n', 't', 'G', 'r', 'o', 'u', 'p', ')'],
{
    reveal_strlit("(ParticipantGroup)");
    assert forall|k: int| 0 <= k < "(ParticipantGroup)"@.len() implies "(ParticipantGroup)"@[k] == seq!['(', 'P', 'a', 'r', 't', 'i', 'c', 'i', 'p', 'a', 'n', 't', 'G', 'r', 'o', 'u', 'p', ')'][k] by {
        if k == 0 {
        } else if k == 1 {
        } else if k == 2 {
        } else if k == 3 {
        } else if k == 4 {
        } else if k == 5 {
        } else if k == 6 {
        } else if k == 7 {
        } else if k == 8 {
        } else if k == 9 {
        } else if k == 10 {
        } else if k == 11 {
        } else if k == 12 {
        } else if k == 13 {
        } else if k == 14 {
        } else if k == 15 {
        } else if k == 16 {
        } else if k == 17 {
        }
    }
    assert("(ParticipantGroup)"@ =~= seq!['(', 'P', 'a', 'r', 't', 'i', 'c', 'i', 'p', 'a', 'n', 't', 'G', 'r', 'o', 'u', 'p', ')']);
}

/// A placeholder: `(` followed by at least one character, no further `(`, and
/// no quote; its second character is not `)`.
pub open spec fn placeholder_shape(p: Seq<char>) -> bool {
    &&& p.len() >= 2
    &&& p[0] == '('
    &&& p[1] != ')'
    &&& !p.drop_first().contains('(')
    &&& !p.contains('\'')
}

proof fn lemma_placeholders_shape()
    ensures
        placeholder_shape("(TripDomain)"@),
        placeholder_shape("(ParticipantGroup)"@),
        "(TripDomain)"@[1] != "(ParticipantGroup)"@[1],
        "(TripDomain)"@ != "(ParticipantGroup)"@,
{
    lemma_trip_domain_chars();
    lemma_participant_group_chars();
    let a = "(TripDomain)"@;
    let b = "(ParticipantGroup)"@;
    assert(!a.drop_first().contains('(')) by {
        if a.drop_first().contains('(') {
            let k = choose|k: int| 0 <= k < a.drop_first().len() && a.drop_first()[k] == '(';
            assert(a[k + 1] == '(');
        }
    }
    assert(!b.drop_first().contains('(')) by {
        if b.drop_first().contains('(') {
            let k = choose|k: int| 0 <= k < b.drop_first().len() && b.drop_first()[k] == '(';
            assert(b[k + 1] == '(');
        }
    }
    assert(a.len() != b.len());
}

/// No placeholder can start inside another one that differs from it in its
/// second character.
proof fn lemma_placeholder_apart(a: Seq<char>, b: Seq<char>)
    requires
        placeholder_shape(a),
        placeholder_shape(b),
        a[1] != b[1],
    ensures
        no_start_within(a, b),
{
    assert forall|i: int| 0 <= i < a.len() implies #[trigger] breaks_at(a, b, i) by {
        if i == 0 {
            assert(a[0int + 1] != b[1]);
        } else {
            assert(a[i] != '(') by {
                assert(a.drop_first()[i - 1] == a[i]);
            }
            assert(a[i + 0int] != b[0]);
        }
    }
}

/// No placeholder can start inside a quoted value that does not hold it.
proof fn lemma_quoted_safe(v: Seq<char>, p: Seq<char>)
    requires
        placeholder_shape(p),
        !occurs(v, p),
    ensures
        no_start_within(plain_quoted(v), p),
{
    let x = plain_quoted(v);
    assert forall|i: int| 0 <= i < x.len() implies #[trigger] breaks_at(x, p, i) by {
        if i == 0 || i == x.len() - 1 {
            assert(x[i + 0int] == '\'');
            assert(x[i + 0int] != p[0]);
        } else {
            let o = i - 1;
            if o + p.len() <= v.len() {
                let w = v.subrange(o, o + p.len());
                assert(w != p);
                assert(!(w =~= p));
                let j = choose|j: int| 0 <= j < w.len() && w[j] != p[j];
                assert(w[j] == v[o + j]);
                assert(x[i + j] == v[o + j]);
                assert(x[i + j] != p[j]);
            } else {
                let j = v.len() - o;
                assert(x[i + j] == '\'');
                assert(p.contains(p[j]));
            }
        }
    }
}

/// No placeholder can start inside a list of quoted values that hold none.
proof fn lemma_join_safe(parts: Seq<Seq<char>>, p: Seq<char>)
    requires
        placeholder_shape(p),
        forall|i: int| 0 <= i < parts.len() ==> no_start_within(#[trigger] parts[i], p),
    ensures
        no_start_within(spec_join(parts, seq![',']), p),
    decreases parts.len(),
{
    if parts.len() == 0 {
    } else if parts.len() == 1 {
        assert(no_start_within(parts[0], p));
    } else {
        lemma_join_safe(parts.drop_last(), p);
        assert(no_start_within(seq![','], p)) by {
            assert(breaks_at(seq![','], p, 0) ) by {
                assert(seq![','][0int + 0] != p[0]);
            }
        }
        assert(no_start_within(parts.last(), p)) by {
            assert(parts[parts.len() - 1] == parts.last());
        }
        lemma_no_start_concat(spec_join(parts.drop_last(), seq![',']), seq![','], p);
        lemma_no_start_concat(spec_join(parts.drop_last(), seq![',']) + seq![','], parts.last(), p);
    }
}

/// A join starts with the first character of its first part.
proof fn lemma_join_first(parts: Seq<Seq<char>>, sep: Seq<char>)
    requires
        parts.len() > 0,
        parts[0].len() > 0,
    ensures
        spec_join(parts, sep).len() > 0,
        spec_join(parts, sep)[0] == parts[0][0],
{
    if parts.len() >= 2 {
        crate::text::lemma_join_front(parts, sep);
    }
}

/// No placeholder can start inside the SQL list of values that hold none.
proof fn lemma_list_safe(vals: Seq<Seq<char>>, p: Seq<char>)
    requires
        placeholder_shape(p),
        forall|i: int| 0 <= i < vals.len() ==> !occurs(#[trigger] vals[i], p),
    ensures
        no_start_within(spec_plain_in(vals), p),
        spec_plain_in(vals).len() > 0,
        spec_plain_in(vals)[0] == '(',
{
    let qs = vals.map_values(|v: Seq<char>| plain_quoted(v));
    let j = spec_join(qs, seq![',']);
    let x = spec_plain_in(vals);
    assert forall|i: int| 0 <= i < qs.len() implies no_start_within(#[trigger] qs[i], p) by {
        lemma_quoted_safe(vals[i], p);
    }
    lemma_join_safe(qs, p);
    let c = seq![')'];
    assert(no_start_within(c, p)) by {
        assert(breaks_at(c, p, 0)) by {
            assert(c[0int + 0] != p[0]);
        }
    }
    let head = seq!['('] + j;
    if vals.len() == 0 {
        assert(j =~= Seq::<char>::empty());
        assert(x =~= seq!['(', ')']);
        assert forall|i: int| 0 <= i < x.len() implies #[trigger] breaks_at(x, p, i) by {
            if i == 0 {
                assert(x[0int + 1] != p[1]);
            } else {
                assert(x[i + 0int] != p[0]);
            }
        }
    } else {
        assert(qs[0] == plain_quoted(vals[0]));
        lemma_join_first(qs, seq![',']);
        assert forall|i: int| 0 <= i < head.len() implies #[trigger] breaks_at(head, p, i) by {
            if i == 0 {
                assert(head[0int + 1] == j[0]);
                assert(head[0int + 1] != p[1]) by {
                    assert(p.contains(p[1]));
                }
            } else {
                assert(breaks_at(j, p, i - 1));
                let k = choose|k: int| 0 <= k < p.len() && (i - 1) + k < j.len() && #[trigger] j[(i - 1) + k] != p[k];
                assert(head[i + k] == j[(i - 1) + k]);
            }
        }
        lemma_no_start_concat(head, c, p);
        assert(x =~= head + c);
    }
}

/// The selected values under `key`, if any, hold neither placeholder.
pub open spec fn list_free_of_placeholders(data: Map<Seq<char>, FilterValue>, key: Seq<char>) -> bool {
    match list_under(data, key) {
        Some(vals) => forall|i: int| 0 <= i < vals.len() ==> {
            &&& !occurs(#[trigger] vals[i], "(TripDomain)"@)
            &&& !occurs(vals[i], "(ParticipantGroup)"@)
        },
        None => true,
    }
}

/// The replacement for a placeholder, when there is one, starts with `(` and
/// lets neither placeholder start inside it.
proof fn lemma_replacement_safe(data: Map<Seq<char>, FilterValue>, key: Seq<char>)
    requires
        list_free_of_placeholders(data, key),
    ensures
        list_under(data, key) matches Some(vals) ==> {
            &&& no_start_within(spec_plain_in(vals), "(TripDomain)"@)
            &&& no_start_within(spec_plain_in(vals), "(ParticipantGroup)"@)
            &&& spec_plain_in(vals).len() > 0
            &&& spec_plain_in(vals)[0] == '('
        },
{
    lemma_placeholders_shape();
    if let Some(vals) = list_under(data, key) {
        lemma_list_safe(vals, "(TripDomain)"@);
        lemma_list_safe(vals, "(ParticipantGroup)"@);
    }
}

/// With selected values that hold neither placeholder, putting the filters of
/// the address in place of `(TripDomain)` and of `(ParticipantGroup)` gives the
/// same text in either order, and putting one of them in place twice is the
/// same as once.
pub proof fn law_replace_filter_order_and_repeat(s: Seq<char>, data: Map<Seq<char>, FilterValue>)
    requires
        list_free_of_placeholders(data, "TripDomain"@),
        list_free_of_placeholders(data, "ParticipantGroup"@),
    ensures
        spec_replace_filter(spec_replace_filter(s, "(TripDomain)"@, data), "(ParticipantGroup)"@, data)
            == spec_replace_filter(spec_replace_filter(s, "(ParticipantGroup)"@, data), "(TripDomain)"@, data),
        spec_replace_filter(spec_replace_filter(s, "(TripDomain)"@, data), "(TripDomain)"@, data)
            == spec_replace_filter(s, "(TripDomain)"@, data),
        spec_replace_filter(spec_replace_filter(s, "(ParticipantGroup)"@, data), "(ParticipantGroup)"@, data)
            == spec_replace_filter(s, "(ParticipantGroup)"@, data),
{
    let td = "(TripDomain)"@;
    let pg = "(ParticipantGroup)"@;
    lemma_placeholders_shape();
    assert(placeholder_key(td) == Some("TripDomain"@));
    assert(placeholder_key(pg) == Some("ParticipantGroup"@));
    lemma_replacement_safe(data, "TripDomain"@);
    lemma_replacement_safe(data, "ParticipantGroup"@);
    lemma_placeholder_apart(td, pg);
    lemma_placeholder_apart(pg, td);
    let a = list_under(data, "TripDomain"@);
    let b = list_under(data, "ParticipantGroup"@);
    if let Some(va) = a {
        let ra = spec_plain_in(va);
        crate::text::lemma_replace_twice(s, td, ra);
        if let Some(vb) = b {
            let rb = spec_plain_in(vb);
            crate::text::lemma_replace_twice(s, pg, rb);
            crate::text::lemma_replace_then(s, td, ra, pg, rb);
            crate::text::lemma_replace_then(s, pg, rb, td, ra);
            crate::text::lemma_replace_both_swap(s, td, ra, pg, rb);
        }
    } else if let Some(vb) = b {
        let rb = spec_plain_in(vb);
        crate::text::lemma_replace_twice(s, pg, rb);
    }
}

} // verus!
