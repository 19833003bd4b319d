//! The settings of the dataset, grouped: each setting row names its group and
//! its attribute, and the grouped settings map each group to its attributes'
//! values.
use vstd::prelude::*;
use vstd::string::*;
use crate::text_map::TextMap;

verus! {

// ---------------------------------------------------------------------------
// Grouped maps
// ---------------------------------------------------------------------------

/// Values grouped by group name, then by attribute name.
pub type Grouped<V> = TextMap<TextMap<V>>;

/// The outer map and every group in it are well formed.
pub open spec fn nested_wf<V>(t: Grouped<V>) -> bool {
    &&& t.wf()
    &&& forall|k: Seq<char>| #[trigger] t@.dom().contains(k) ==> t@[k].wf()
}

/// The map of each group.
pub open spec fn nested_view<V>(t: Grouped<V>) -> Map<Seq<char>, Map<Seq<char>, V>> {
    t@.map_values(|i: TextMap<V>| i@)
}

/// `m` with `v` put under attribute `a` of group `g`, the group being made if
/// it is missing.
pub open spec fn put_nested<V>(m: Map<Seq<char>, Map<Seq<char>, V>>, g: Seq<char>, a: Seq<char>, v: V) -> Map<
    Seq<char>,
    Map<Seq<char>, V>,
> {
    m.insert(
        g,
        (if m.dom().contains(g) {
            m[g]
        } else {
            Map::empty()
        }).insert(a, v),
    )
}

/// Puts `v` under attribute `a` of group `g`, making the group if it is missing.
pub fn insert_nested<V>(t: &mut Grouped<V>, g: String, a: String, v: V)
    requires
        nested_wf(*old(t)),
    ensures
        nested_wf(*final(t)),
        nested_view(*final(t)) == put_nested(nested_view(*old(t)), g@, a@, v),
        final(t)@.dom() == old(t)@.dom().insert(g@),
        forall|k: Seq<char>| k != g@ && #[trigger] old(t)@.dom().contains(k) ==> final(t)@[k] == old(t)@[k],
{
    let ghost t0 = *t;
    let mut inner = match t.take(g.as_str()) {
        Some(i) => i,
        None => TextMap::new(),
    };
    inner.insert(a, v);
    let ghost gg = g@;
    let ghost iv = inner;
    t.insert(g, inner);
    assert forall|k: Seq<char>| #[trigger] t@.dom().contains(k) implies t@[k].wf() by {
        if k != gg {
            assert(t0@.dom().contains(k));
        }
    }
    assert(nested_view(*t) =~= put_nested(nested_view(t0), gg, a@, v));
    assert(t@.dom() =~= t0@.dom().insert(gg));
}

// ---------------------------------------------------------------------------
// The settings of a session
// ---------------------------------------------------------------------------

/// A settings row as the database gives it: its group and attribute when they
/// are text, and its value.
pub struct SettingRow<V> {
    pub group: Option<String>,
    pub attribute: Option<String>,
    pub value: V,
}

/// The group of a row, `General` when it has none.
pub open spec fn row_group<V>(r: SettingRow<V>) -> Seq<char> {
    match r.group {
        Some(g) => g@,
        None => "General"@,
    }
}

/// The attribute of a row, `Unknown` when it has none.
pub open spec fn row_attribute<V>(r: SettingRow<V>) -> Seq<char> {
    match r.attribute {
        Some(a) => a@,
        None => "Unknown"@,
    }
}

/// The settings grouped from the rows, one after another: a later row with the
/// same group and attribute replaces an earlier one.
pub open spec fn fold_settings<V>(rows: Seq<SettingRow<V>>) -> Map<Seq<char>, Map<Seq<char>, V>>
    decreases rows.len(),
{
    if rows.len() == 0 {
        Map::empty()
    } else {
        put_nested(fold_settings(rows.drop_last()), row_group(rows.last()), row_attribute(rows.last()), rows.last().value)
    }
}

/// The group that a settings row belongs to: its own, or `General`.
pub open spec fn group_of<V>(r: SettingRow<V>) -> Seq<char> {
    if r.group is Some {
        r.group->0@
    } else {
        "General"@
    }
}

/// The attribute that a settings row sets: its own, or `Unknown`.
pub open spec fn attribute_of<V>(r: SettingRow<V>) -> Seq<char> {
    if r.attribute is Some {
        r.attribute->0@
    } else {
        "Unknown"@
    }
}

/// Each settings row sets its attribute in its group (`General` for a row
/// without group, `Unknown` for one without attribute) to its value, unless a
/// later row sets the same attribute of the same group.
pub proof fn law_settings_last_row_wins<V>(rows: Seq<SettingRow<V>>, i: int)
    requires
        0 <= i < rows.len(),
        forall|j: int| i < j < rows.len() ==> !(group_of(#[trigger] rows[j]) == group_of(rows[i]) && attribute_of(rows[j]) == attribute_of(rows[i])),
    ensures
        fold_settings(rows).dom().contains(group_of(rows[i])),
        fold_settings(rows)[group_of(rows[i])].dom().contains(attribute_of(rows[i])),
        fold_settings(rows)[group_of(rows[i])][attribute_of(rows[i])] == rows[i].value,
    decreases rows.len(),
{
    let n = rows.len() - 1;
    assert(rows.last() == rows[n]);
    if i < n {
        let d = rows.drop_last();
        assert forall|j: int| i < j < d.len() implies !(group_of(#[trigger] d[j]) == group_of(d[i]) && attribute_of(d[j]) == attribute_of(d[i])) by {
            assert(d[j] == rows[j]);
            assert(d[i] == rows[i]);
        }
        law_settings_last_row_wins(d, i);
        assert(d[i] == rows[i]);
    }
}

/// The grouped settings have a group exactly for the groups that rows name,
/// and in it an attribute exactly for the attributes that rows of that group set.
pub proof fn law_settings_keys<V>(rows: Seq<SettingRow<V>>, g: Seq<char>, a: Seq<char>)
    ensures
        fold_settings(rows).dom().contains(g) == (exists|j: int| 0 <= j < rows.len() && group_of(#[trigger] rows[j]) == g),
        fold_settings(rows).dom().contains(g) ==> (fold_settings(rows)[g].dom().contains(a) == (exists|j: int|
            0 <= j < rows.len() && group_of(#[trigger] rows[j]) == g && attribute_of(rows[j]) == a)),
    decreases rows.len(),
{
    if rows.len() > 0 {
        let n = rows.len() - 1;
        let d = rows.drop_last();
        law_settings_keys(d, g, a);
        assert(rows.last() == rows[n]);
        assert forall|j: int| 0 <= j < d.len() implies #[trigger] d[j] == rows[j] by {}
        if exists|j: int| 0 <= j < rows.len() && group_of(#[trigger] rows[j]) == g {
            let j = choose|j: int| 0 <= j < rows.len() && group_of(#[trigger] rows[j]) == g;
            if j < n {
                assert(group_of(d[j]) == g);
            }
        }
        if exists|j: int| 0 <= j < rows.len() && group_of(#[trigger] rows[j]) == g && attribute_of(rows[j]) == a {
            let j = choose|j: int| 0 <= j < rows.len() && group_of(#[trigger] rows[j]) == g && attribute_of(rows[j]) == a;
            if j < n {
                assert(group_of(d[j]) == g && attribute_of(d[j]) == a);
            }
        }
    }
}

/// The settings rows grouped by group, then by attribute.
pub fn group_settings<V>(rows: Vec<SettingRow<V>>) -> (res: Grouped<V>)
    ensures
        nested_wf(res),
        nested_view(res) == fold_settings(rows@),
{
    let mut rows = rows;
    let ghost all = rows@;
    let n = rows.len();
    let mut out: Grouped<V> = TextMap::new();
    let mut i: usize = 0;
    assert(all.take(0) =~= Seq::<SettingRow<V>>::empty());
    assert(nested_view(out) =~= Map::<Seq<char>, Map<Seq<char>, V>>::empty());
    while i < n
        invariant
            n == all.len(),
            i <= n,
            rows@ == all.skip(i as int),
            nested_wf(out),
            nested_view(out) == fold_settings(all.take(i as int)),
        decreases n - i,
    {
        let row = rows.remove(0);
        assert(row == all[i as int]);
        assert(rows@ =~= all.skip(i + 1));
        assert(all.take(i + 1).drop_last() =~= all.take(i as int));
        assert(all.take(i + 1).last() == row);
        let SettingRow { group, attribute, value } = row;
        let g = match group {
            Some(g) => g,
            None => "General".to_owned(),
        };
        let a = match attribute {
            Some(a) => a,
            None => "Unknown".to_owned(),
        };
        insert_nested(&mut out, g, a, value);
        i = i + 1;
    }
    assert(all.take(n as int) =~= all);
    out
}

/// The address of a translation file.
pub fn language_file_url(file: &str) -> (res: String)
    ensures
        res@ == "static/languages/"@ + file@,
{
    let mut s = "static/languages/".to_owned();
    s.append(file);
    s
}

// ---------------------------------------------------------------------------
// Settings with structured values
// ---------------------------------------------------------------------------

/// Declares `serde_json::Value` so that settings can carry parsed documents;
/// nothing inside such a value is visible to proofs.
#[verifier::external_type_specification]
#[verifier::external_body]
pub struct ExJsonValue(serde_json::Value);

/// Whether `serde_json` reads the text as a JSON document.
pub uninterp spec fn json_parses(s: Seq<char>) -> bool;

/// The JSON document that `serde_json` reads from the text, where it reads one.
pub uninterp spec fn json_value(s: Seq<char>) -> serde_json::Value;

/// Calls `serde_json::from_str` for a `serde_json::Value`. Trusted: it gives
/// a value exactly when the text is a JSON document (`json_parses`), and the
/// value is the document read from the text (`json_value`), which depends on
/// the text alone.
#[verifier::external_body]
fn parse_json(s: &str) -> (res: Option<serde_json::Value>)
    ensures
        res is Some == json_parses(s@),
        res is Some ==> res->0 == json_value(s@),
{
    serde_json::from_str(s).ok()
}

/// The JSON document written in `s`, if it is one.
pub fn json_document(s: &str) -> (res: Option<serde_json::Value>)
    ensures
        res is Some == json_parses(s@),
        res is Some ==> res->0 == json_value(s@),
{
    parse_json(s)
}

/// A settings row whose group, attribute and value are all text.
pub struct SettingText {
    pub attribute: String,
    pub group: String,
    pub value: String,
}

/// A setting's value: a JSON document where its text is one, else the text.
pub enum SettingValue {
    Text(String),
    Json(serde_json::Value),
}

/// The model of a setting's value.
pub enum SettingModel {
    Text(Seq<char>),
    Json(serde_json::Value),
}

/// What a setting's text becomes: a JSON document when it starts with `{` or
/// `[` and reads as JSON, the text otherwise.
pub open spec fn value_model(s: Seq<char>) -> SettingModel {
    if s.len() > 0 && (s[0] == '{' || s[0] == '[') && json_parses(s) {
        SettingModel::Json(json_value(s))
    } else {
        SettingModel::Text(s)
    }
}

pub open spec fn setting_model(v: SettingValue) -> SettingModel {
    match v {
        SettingValue::Text(s) => SettingModel::Text(s@),
        SettingValue::Json(v) => SettingModel::Json(v),
    }
}

/// The model of each group.
pub open spec fn groups_model(t: Grouped<SettingValue>) -> Map<Seq<char>, Map<Seq<char>, SettingModel>> {
    t@.map_values(|i: TextMap<SettingValue>| i@.map_values(|v: SettingValue| setting_model(v)))
}

/// The settings read from the rows, one after another.
pub open spec fn fold_texts(rows: Seq<SettingText>) -> Map<Seq<char>, Map<Seq<char>, SettingModel>>
    decreases rows.len(),
{
    if rows.len() == 0 {
        Map::empty()
    } else {
        put_nested(
            fold_texts(rows.drop_last()),
            rows.last().group@,
            rows.last().attribute@,
            value_model(rows.last().value@),
        )
    }
}

/// The value that a setting's text becomes.
pub fn setting_value(s: &String) -> (res: SettingValue)
    ensures
        setting_model(res) == value_model(s@),
        res matches SettingValue::Json(v) ==> v == json_value(s@),
{
    let cs = crate::text::chars_of(s.as_str());
    if cs.len() > 0 && (cs[0] == '{' || cs[0] == '[') {
        match parse_json(s.as_str()) {
            Some(v) => SettingValue::Json(v),
            None => SettingValue::Text(s.clone()),
        }
    } else {
        SettingValue::Text(s.clone())
    }
}

/// The settings rows grouped by group, then by attribute, each value read as
/// JSON where it is a JSON object or list.
pub fn transform_settings(rows: &Vec<SettingText>) -> (res: Grouped<SettingValue>)
    ensures
        nested_wf(res),
        groups_model(res) == fold_texts(rows@),
{
    let n = rows.len();
    let mut out: Grouped<SettingValue> = TextMap::new();
    assert(rows@.take(0) =~= Seq::<SettingText>::empty());
    assert(groups_model(out) =~= Map::<Seq<char>, Map<Seq<char>, SettingModel>>::empty());
    for i in 0..n
        invariant
            n == rows@.len(),
            nested_wf(out),
            groups_model(out) == fold_texts(rows@.take(i as int)),
    {
        let r = &rows[i];
        assert(rows@.take(i + 1).drop_last() =~= rows@.take(i as int));
        assert(rows@.take(i + 1).last() == rows@[i as int]);
        let v = setting_value(&r.value);
        let ghost m0 = groups_model(out);
        let ghost o0 = out;
        let ghost vv = v;
        insert_nested(&mut out, r.group.clone(), r.attribute.clone(), v);
        assert(groups_model(out) =~= put_nested(m0, r.group@, r.attribute@, setting_model(vv))) by {
            let gg = r.group@;
            assert(nested_view(out) == put_nested(nested_view(o0), gg, r.attribute@, vv));
            assert(out@[gg]@ == nested_view(out)[gg]);
            if o0@.dom().contains(gg) {
                assert(nested_view(o0)[gg] == o0@[gg]@);
                assert(out@[gg]@.map_values(|v: SettingValue| setting_model(v)) =~= o0@[gg]@.map_values(
                    |v: SettingValue| setting_model(v),
                ).insert(r.attribute@, setting_model(vv)));
            } else {
                assert(out@[gg]@.map_values(|v: SettingValue| setting_model(v)) =~= Map::<
                    Seq<char>,
                    SettingModel,
                >::empty().insert(r.attribute@, setting_model(vv)));
            }
        }
    }
    assert(rows@.take(n as int) =~= rows@);
    out
}

/// Each row of settings text sets its attribute in its group, unless a later
/// row sets the same one: to the JSON document that its text is when the text
/// starts with `{` or `[` and reads as JSON, to the text itself otherwise.
pub proof fn law_setting_texts_last_row_wins(rows: Seq<SettingText>, i: int)
    requires
        0 <= i < rows.len(),
        forall|j: int| i < j < rows.len() ==> !((#[trigger] rows[j]).group@ == rows[i].group@ && rows[j].attribute@ == rows[i].attribute@),
    ensures
        fold_texts(rows).dom().contains(rows[i].group@),
        fold_texts(rows)[rows[i].group@].dom().contains(rows[i].attribute@),
        fold_texts(rows)[rows[i].group@][rows[i].attribute@] == {
            let v = rows[i].value@;
            if v.len() > 0 && (v[0] == '{' || v[0] == '[') && json_parses(v) {
                SettingModel::Json(json_value(v))
            } else {
                SettingModel::Text(v)
            }
        },
    decreases rows.len(),
{
    let n = rows.len() - 1;
    assert(rows.last() == rows[n]);
    if i < n {
        let d = rows.drop_last();
        assert forall|j: int| i < j < d.len() implies !((#[trigger] d[j]).group@ == d[i].group@ && d[j].attribute@ == d[i].attribute@) by {
            assert(d[j] == rows[j]);
            assert(d[i] == rows[i]);
        }
        law_setting_texts_last_row_wins(d, i);
        assert(d[i] == rows[i]);
    }
}

} // verus!
