//! The parameters of the page address: reading them from the search part of
//! the address, and writing them back.
//!
//! A parameter is `key=value`, parameters are separated by `&`, and keys and
//! values are percent-decoded. The parameter `f` carries the address filters
//! as `(key=a,b;key2=c)`; any other value of `f` is kept as text.
use vstd::prelude::*;
use crate::sql_filter::FilterGroups;
use crate::text::{
    chars_blank, chars_eq, chars_of, is_blank, join_chars, spec_join, spec_split,
    spec_split_once, split_chars, split_once_chars, string_of, strings_of, sub_chars, views,
};
use crate::text_map::{lemma_map_of_at, map_of, sorted_pairs, TextMap};
use crate::text::{is_white, lemma_text_lt_irreflexive, text_lt};

verus! {

// ---------------------------------------------------------------------------
// The outside decoder
// ---------------------------------------------------------------------------

/// What `urlencoding::decode` gives for a text: the percent-decoded text, or
/// `None` where the decoded bytes are not UTF-8.
pub uninterp spec fn url_decoded(s: Seq<char>) -> Option<Seq<char>>;

/// Calls `urlencoding::decode`. Trusted: its result is `url_decoded` of the
/// input, and a text without `%` comes back unchanged (the crate then hands
/// the input back as it is).
#[verifier::external_body]
fn url_decode(s: &str) -> (res: Option<String>)
    ensures
        res is Some == url_decoded(s@) is Some,
        res is Some ==> res->0@ == url_decoded(s@)->0,
        !s@.contains('%') ==> res is Some && res->0@ == s@,
{
    match urlencoding::decode(s) {
        Ok(d) => Some(d.into_owned()),
        Err(_) => None,
    }
}

// ---------------------------------------------------------------------------
// Types and their models
// ---------------------------------------------------------------------------

/// The value of an address parameter.
pub enum ParamValue {
    Text(String),
    Groups(FilterGroups),
}

/// The parameters of the page address, by key.
pub type QueryParams = TextMap<ParamValue>;

/// The model of a parameter value.
pub enum ParamView {
    Text(Seq<char>),
    Groups(Map<Seq<char>, Seq<Seq<char>>>),
}

/// The characters of each string.
pub open spec fn strs_view(v: Seq<String>) -> Seq<Seq<char>> {
    v.map_values(|s: String| s@)
}

/// Each list of strings taken by the characters of its strings.
pub open spec fn lists_view(m: Map<Seq<char>, Vec<String>>) -> Map<Seq<char>, Seq<Seq<char>>> {
    m.map_values(|v: Vec<String>| strs_view(v@))
}

/// The model of a filter object: for each key, its values.
pub open spec fn groups_view(g: FilterGroups) -> Map<Seq<char>, Seq<Seq<char>>> {
    lists_view(g@)
}

/// The model of a parameter value.
pub open spec fn param_view(v: ParamValue) -> ParamView {
    match v {
        ParamValue::Text(s) => ParamView::Text(s@),
        ParamValue::Groups(g) => ParamView::Groups(groups_view(g)),
    }
}

/// Each parameter value taken by its model.
pub open spec fn values_view(m: Map<Seq<char>, ParamValue>) -> Map<Seq<char>, ParamView> {
    m.map_values(|v: ParamValue| param_view(v))
}

/// The model of the parameters.
pub open spec fn params_view(p: QueryParams) -> Map<Seq<char>, ParamView> {
    values_view(p@)
}

/// A parameter value whose filter object, if any, is well formed.
pub open spec fn param_wf(v: ParamValue) -> bool {
    match v {
        ParamValue::Text(_) => true,
        ParamValue::Groups(g) => g.wf(),
    }
}

/// The parameters and every filter object in them are well formed.
pub open spec fn params_wf(p: QueryParams) -> bool {
    &&& p.wf()
    &&& forall|k: Seq<char>| #[trigger] p@.dom().contains(k) ==> param_wf(p@[k])
}

// ---------------------------------------------------------------------------
// Reading
// ---------------------------------------------------------------------------

/// A text percent-decoded, or kept as it is where decoding fails.
pub open spec fn decoded(s: Seq<char>) -> Seq<char> {
    if !s.contains('%') {
        s
    } else {
        match url_decoded(s) {
            Some(d) => d,
            None => s,
        }
    }
}

/// The pieces of `ps` that are not blank.
pub open spec fn nonblank(ps: Seq<Seq<char>>) -> Seq<Seq<char>>
    decreases ps.len(),
{
    if ps.len() == 0 {
        ps
    } else {
        let pre = nonblank(ps.drop_last());
        if is_blank(ps.last()) {
            pre
        } else {
            pre.push(ps.last())
        }
    }
}

/// The filter object after reading the block `key=a,b`: blank blocks and
/// blocks without `=` are skipped, and blank values are dropped.
pub open spec fn group_step(m: Map<Seq<char>, Seq<Seq<char>>>, block: Seq<char>) -> Map<
    Seq<char>,
    Seq<Seq<char>>,
> {
    if is_blank(block) {
        m
    } else {
        match spec_split_once(block, '=').1 {
            Some(vl) => m.insert(spec_split_once(block, '=').0, nonblank(spec_split(vl, ','))),
            None => m,
        }
    }
}

/// The filter object read from the blocks, one after another.
pub open spec fn fold_groups(blocks: Seq<Seq<char>>) -> Map<Seq<char>, Seq<Seq<char>>>
    decreases blocks.len(),
{
    if blocks.len() == 0 {
        Map::empty()
    } else {
        group_step(fold_groups(blocks.drop_last()), blocks.last())
    }
}

/// The value of the parameter `f`: a filter object when it is written between
/// round brackets, its text otherwise.
pub open spec fn spec_filter_value(v: Seq<char>) -> ParamView {
    if v.len() > 0 && v[0] == '(' && v.last() == ')' {
        ParamView::Groups(fold_groups(spec_split(v.subrange(1, v.len() - 1), ';')))
    } else {
        ParamView::Text(v)
    }
}

/// The parameters after reading the pair `key=value`: a pair with an empty key
/// is skipped, a missing value is empty.
pub open spec fn pair_step(m: Map<Seq<char>, ParamView>, pair: Seq<char>) -> Map<
    Seq<char>,
    ParamView,
> {
    let raw_key = spec_split_once(pair, '=').0;
    let raw_val = match spec_split_once(pair, '=').1 {
        Some(v) => v,
        None => Seq::<char>::empty(),
    };
    if raw_key.len() == 0 {
        m
    } else if decoded(raw_key) == seq!['f'] {
        m.insert(decoded(raw_key), spec_filter_value(decoded(raw_val)))
    } else {
        m.insert(decoded(raw_key), ParamView::Text(decoded(raw_val)))
    }
}

/// The parameters read from the pairs, one after another.
pub open spec fn fold_pairs(pairs: Seq<Seq<char>>) -> Map<Seq<char>, ParamView>
    decreases pairs.len(),
{
    if pairs.len() == 0 {
        Map::empty()
    } else {
        pair_step(fold_pairs(pairs.drop_last()), pairs.last())
    }
}

/// The parameters of the search part `?a=1&b=2` of an address.
pub open spec fn spec_parse_search(search: Seq<char>) -> Map<Seq<char>, ParamView> {
    if search.len() == 0 {
        Map::empty()
    } else {
        fold_pairs(spec_split(search.drop_first(), '&'))
    }
}

/// `s` percent-decoded, or as it is where decoding fails.
fn decode_or_keep(s: &[char]) -> (res: Vec<char>)
    ensures
        res@ == decoded(s@),
{
    let text = string_of(s);
    match url_decode(text.as_str()) {
        Some(d) => chars_of(d.as_str()),
        None => sub_chars(s, 0, s.len()),
    }
}

/// The pieces that are not blank.
fn nonblank_chars(parts: &Vec<Vec<char>>) -> (res: Vec<Vec<char>>)
    ensures
        views(res@) == nonblank(views(parts@)),
{
    let mut out: Vec<Vec<char>> = Vec::new();
    let n = parts.len();
    assert(views(parts@).take(0) =~= Seq::<Seq<char>>::empty());
    for i in 0..n
        invariant
            n == parts@.len(),
            views(out@) == nonblank(views(parts@).take(i as int)),
    {
        let ghost t = views(parts@).take(i + 1);
        assert(t.drop_last() =~= views(parts@).take(i as int));
        assert(t.last() == parts@[i as int]@);
        if !chars_blank(parts[i].as_slice()) {
            let ghost o = out@;
            out.push(parts[i].clone());
            assert(views(out@) =~= views(o).push(parts@[i as int]@));
        }
    }
    assert(views(parts@).take(n as int) =~= views(parts@));
    out
}

/// The filter object written in `inner`, the text between the brackets.
pub fn parse_filter_groups(inner: &[char]) -> (res: FilterGroups)
    ensures
        res.wf(),
        groups_view(res) == fold_groups(spec_split(inner@, ';')),
{
    let blocks = split_chars(inner, ';');
    let mut g: FilterGroups = TextMap::new();
    let n = blocks.len();
    assert(views(blocks@).take(0) =~= Seq::<Seq<char>>::empty());
    assert(groups_view(g) =~= Map::<Seq<char>, Seq<Seq<char>>>::empty());
    for i in 0..n
        invariant
            n == blocks@.len(),
            g.wf(),
            groups_view(g) == fold_groups(views(blocks@).take(i as int)),
    {
        let ghost t = views(blocks@).take(i + 1);
        assert(t.drop_last() =~= views(blocks@).take(i as int));
        assert(t.last() == blocks@[i as int]@);
        let block = blocks[i].as_slice();
        if !chars_blank(block) {
            let (k, rest) = split_once_chars(block, '=');
            match rest {
                Some(vl) => {
                    let pieces = nonblank_chars(&split_chars(vl.as_slice(), ','));
                    let vals = strings_of(&pieces);
                    assert(strs_view(vals@) =~= views(pieces@));
                    let ghost g0 = groups_view(g);
                    let key = string_of(k.as_slice());
                    g.insert(key, vals);
                    assert(groups_view(g) =~= g0.insert(k@, strs_view(vals@)));
                },
                None => {},
            }
        }
    }
    assert(views(blocks@).take(n as int) =~= views(blocks@));
    g
}

/// The value of the parameter `f`.
fn parse_filter_value(v: &[char]) -> (res: ParamValue)
    ensures
        param_wf(res),
        param_view(res) == spec_filter_value(v@),
{
    let n = v.len();
    if n > 0 && v[0] == '(' && v[n - 1] == ')' {
        let inner = sub_chars(v, 1, n - 1);
        ParamValue::Groups(parse_filter_groups(inner.as_slice()))
    } else {
        ParamValue::Text(string_of(v))
    }
}

/// Reads the pair `key=value` into `params`.
fn read_pair(params: &mut QueryParams, pair: &[char])
    requires
        params_wf(*old(params)),
    ensures
        params_wf(*final(params)),
        params_view(*final(params)) == pair_step(params_view(*old(params)), pair@),
{
    let (raw_key, rest) = split_once_chars(pair, '=');
    if raw_key.len() == 0 {
        return;
    }
    let raw_val = match rest {
        Some(v) => v,
        None => Vec::new(),
    };
    assert(raw_val@ == match spec_split_once(pair@, '=').1 {
        Some(v) => v,
        None => Seq::<char>::empty(),
    });
    let key = decode_or_keep(raw_key.as_slice());
    let val = decode_or_keep(raw_val.as_slice());
    let f: Vec<char> = vec!['f'];
    let value = if chars_eq(key.as_slice(), f.as_slice()) {
        assert(f@ =~= seq!['f']);
        parse_filter_value(val.as_slice())
    } else {
        assert(f@ =~= seq!['f']);
        ParamValue::Text(string_of(val.as_slice()))
    };
    let ghost m0 = params_view(*params);
    let ghost old_p = *params;
    let ghost vv = value;
    params.insert(string_of(key.as_slice()), value);
    assert(params_view(*params) =~= m0.insert(key@, param_view(vv)));
    assert forall|k: Seq<char>| #[trigger] params@.dom().contains(k) implies param_wf(params@[k]) by {
        if k != key@ {
            assert(old_p@.dom().contains(k));
        }
    }
}

/// The parameters of the search part `?a=1&b=2` of an address; the leading
/// character (the `?`) is skipped.
pub fn parse_search(search: &str) -> (res: QueryParams)
    requires
        search@.len() == 0 || (search@[0] as u32) < 0x80,
    ensures
        params_wf(res),
        params_view(res) == spec_parse_search(search@),
{
    let s = chars_of(search);
    let mut params: QueryParams = TextMap::new();
    assert(params_view(params) =~= Map::<Seq<char>, ParamView>::empty());
    if s.len() == 0 {
        return params;
    }
    let query = sub_chars(s.as_slice(), 1, s.len());
    assert(query@ =~= search@.drop_first());
    let pairs = split_chars(query.as_slice(), '&');
    let n = pairs.len();
    assert(views(pairs@).take(0) =~= Seq::<Seq<char>>::empty());
    for i in 0..n
        invariant
            n == pairs@.len(),
            params_wf(params),
            params_view(params) == fold_pairs(views(pairs@).take(i as int)),
    {
        let ghost t = views(pairs@).take(i + 1);
        assert(t.drop_last() =~= views(pairs@).take(i as int));
        assert(t.last() == pairs@[i as int]@);
        read_pair(&mut params, pairs[i].as_slice());
    }
    assert(views(pairs@).take(n as int) =~= views(pairs@));
    params
}

// ---------------------------------------------------------------------------
// Writing
// ---------------------------------------------------------------------------

/// The block `key=a,b` of one entry of a filter object.
pub open spec fn group_part(e: (Seq<char>, Vec<String>)) -> Seq<char> {
    e.0 + seq!['='] + spec_join(strs_view(e.1@), seq![','])
}

/// The blocks of the entries, in order.
pub open spec fn group_blocks(ps: Seq<(Seq<char>, Vec<String>)>) -> Seq<Seq<char>> {
    ps.map_values(|e: (Seq<char>, Vec<String>)| group_part(e))
}

/// A filter object written as blocks separated by `;`, in key order.
pub open spec fn spec_encode_groups(g: FilterGroups) -> Seq<char> {
    spec_join(group_blocks(g.pairs()), seq![';'])
}

/// The text of one parameter; a filter object is written only under `f`.
pub open spec fn param_part(e: (Seq<char>, ParamValue)) -> Option<Seq<char>> {
    match e.1 {
        ParamValue::Text(s) => Some(e.0 + seq!['='] + s@),
        ParamValue::Groups(g) => if e.0 == seq!['f'] {
            Some(seq!['f', '=', '('] + spec_encode_groups(g) + seq![')'])
        } else {
            None
        },
    }
}

/// The texts of the parameters that are written, in key order.
pub open spec fn param_parts(ps: Seq<(Seq<char>, ParamValue)>) -> Seq<Seq<char>>
    decreases ps.len(),
{
    if ps.len() == 0 {
        Seq::<Seq<char>>::empty()
    } else {
        let pre = param_parts(ps.drop_last());
        match param_part(ps.last()) {
            Some(t) => pre.push(t),
            None => pre,
        }
    }
}

/// The search part (without `?`) that writes the parameters: texts joined by `&`.
pub open spec fn spec_encode_search(p: QueryParams) -> Seq<char> {
    spec_join(param_parts(p.pairs()), seq!['&'])
}

/// A filter object written as `key=a,b;key2=c`.
fn encode_groups(g: &FilterGroups) -> (res: Vec<char>)
    ensures
        res@ == spec_encode_groups(*g),
{
    let mut parts: Vec<Vec<char>> = Vec::new();
    let n = g.len();
    for i in 0..n
        invariant
            n == g.pairs().len(),
            views(parts@) == group_blocks(g.pairs().take(i as int)),
    {
        let mut part = chars_of(g.key_at(i).as_str());
        part.push('=');
        let vals = g.value_at(i);
        let mut pieces: Vec<Vec<char>> = Vec::new();
        for j in 0..vals.len()
            invariant
                pieces@.len() == j,
                forall|k: int| 0 <= k < j ==> (#[trigger] pieces@[k])@ == vals@[k]@,
        {
            pieces.push(chars_of(vals[j].as_str()));
        }
        assert(views(pieces@) =~= strs_view(vals@));
        let comma: Vec<char> = vec![','];
        assert(comma@ =~= seq![',']);
        let joined = join_chars(&pieces, comma.as_slice());
        let ghost p0 = part@;
        part.extend_from_slice(joined.as_slice());
        assert(part@ =~= group_part(g.pairs()[i as int]));
        let ghost o = parts@;
        let ghost pv = part@;
        parts.push(part);
        assert(views(parts@) =~= views(o).push(pv));
        assert(group_blocks(g.pairs().take(i + 1)) =~= group_blocks(g.pairs().take(i as int)).push(
            group_part(g.pairs()[i as int]),
        ));
    }
    assert(g.pairs().take(n as int) =~= g.pairs());
    assert(group_blocks(g.pairs().take(n as int)) =~= group_blocks(g.pairs()));
    let semi: Vec<char> = vec![';'];
    assert(semi@ =~= seq![';']);
    join_chars(&parts, semi.as_slice())
}

/// The search part (without `?`) that writes the parameters, in key order:
/// `key=value` for each text, `f=(key=a,b;...)` for the filter object under
/// `f`, joined by `&`. Nothing is percent-encoded.
pub fn encode_search(p: &QueryParams) -> (res: String)
    ensures
        res@ == spec_encode_search(*p),
{
    let mut parts: Vec<Vec<char>> = Vec::new();
    let n = p.len();
    assert(p.pairs().take(0) =~= Seq::<(Seq<char>, ParamValue)>::empty());
    for i in 0..n
        invariant
            n == p.pairs().len(),
            views(parts@) == param_parts(p.pairs().take(i as int)),
    {
        let ghost t = p.pairs().take(i + 1);
        assert(t.drop_last() =~= p.pairs().take(i as int));
        assert(t.last() == p.pairs()[i as int]);
        let key = chars_of(p.key_at(i).as_str());
        let f: Vec<char> = vec!['f'];
        assert(f@ =~= seq!['f']);
        let ghost o = parts@;
        match p.value_at(i) {
            ParamValue::Text(s) => {
                let mut part = key.clone();
                part.push('=');
                let sv = chars_of(s.as_str());
                part.extend_from_slice(sv.as_slice());
                assert(part@ =~= key@ + seq!['='] + s@);
                let ghost pv = part@;
                parts.push(part);
                assert(views(parts@) =~= views(o).push(pv));
            },
            ParamValue::Groups(g) => {
                if chars_eq(key.as_slice(), f.as_slice()) {
                    let mut part: Vec<char> = vec!['f', '=', '('];
                    let body = encode_groups(g);
                    part.extend_from_slice(body.as_slice());
                    part.push(')');
                    assert(part@ =~= seq!['f', '=', '('] + spec_encode_groups(*g) + seq![')']);
                    let ghost pv = part@;
                    parts.push(part);
                    assert(views(parts@) =~= views(o).push(pv));
                }
            },
        }
    }
    assert(p.pairs().take(n as int) =~= p.pairs());
    let amp: Vec<char> = vec!['&'];
    assert(amp@ =~= seq!['&']);
    let out = join_chars(&parts, amp.as_slice());
    string_of(out.as_slice())
}

// ---------------------------------------------------------------------------
// Writing, then reading back
// ---------------------------------------------------------------------------

/// `s` holds none of the characters `cs`.
pub open spec fn free_of(s: Seq<char>, cs: Seq<char>) -> bool {
    forall|i: int| 0 <= i < cs.len() ==> !s.contains(#[trigger] cs[i])
}

/// One entry of a filter object that can be written and read back: its key
/// holds no `&`, `%`, `;` or `=`, and every value is non-blank and holds no
/// `&`, `%`, `;` or `,`.
pub open spec fn group_entry_ok(e: (Seq<char>, Vec<String>)) -> bool {
    &&& free_of(e.0, seq!['&', '%', ';', '='])
    &&& forall|k: int| 0 <= k < e.1@.len() ==> {
        &&& free_of((#[trigger] e.1@[k])@, seq!['&', '%', ';', ','])
        &&& !is_blank(e.1@[k]@)
    }
}

/// A filter object that can be written and read back.
pub open spec fn groups_encodable(g: FilterGroups) -> bool {
    forall|j: int| 0 <= j < g.pairs().len() ==> group_entry_ok(#[trigger] g.pairs()[j])
}

/// One parameter that can be written and read back: its key is non-empty and
/// holds no `&`, `%` or `=`; a text holds no `&` or `%`, and under `f` is not
/// written between round brackets; a filter object stands under `f` only and
/// can itself be written and read back.
pub open spec fn param_entry_ok(e: (Seq<char>, ParamValue)) -> bool {
    &&& e.0.len() > 0
    &&& free_of(e.0, seq!['&', '%', '='])
    &&& match e.1 {
        ParamValue::Text(s) => {
            &&& free_of(s@, seq!['&', '%'])
            &&& e.0 == seq!['f'] ==> !(s@.len() > 0 && s@[0] == '(' && s@.last() == ')')
        },
        ParamValue::Groups(g) => e.0 == seq!['f'] && g.wf() && groups_encodable(g),
    }
}

/// Parameters that can be written and read back.
pub open spec fn params_encodable(p: QueryParams) -> bool {
    forall|i: int| 0 <= i < p.pairs().len() ==> param_entry_ok(#[trigger] p.pairs()[i])
}

proof fn lemma_concat_contains(a: Seq<char>, b: Seq<char>, c: char)
    ensures
        (a + b).contains(c) <==> (a.contains(c) || b.contains(c)),
{
    if (a + b).contains(c) {
        let k = choose|k: int| 0 <= k < (a + b).len() && (a + b)[k] == c;
        if k < a.len() {
            assert(a[k] == c);
        } else {
            assert(b[k - a.len()] == c);
        }
    }
    if a.contains(c) {
        let k = choose|k: int| 0 <= k < a.len() && a[k] == c;
        assert((a + b)[k] == c);
    }
    if b.contains(c) {
        let k = choose|k: int| 0 <= k < b.len() && b[k] == c;
        assert((a + b)[k + a.len()] == c);
    }
}

proof fn lemma_split_once_at(a: Seq<char>, c: char, b: Seq<char>)
    requires
        !a.contains(c),
    ensures
        spec_split_once(a + seq![c] + b, c) == (a, Some(b)),
    decreases a.len(),
{
    let s = a + seq![c] + b;
    if a.len() == 0 {
        assert(s[0] == c);
        assert(s.drop_first() =~= b);
        assert(a =~= Seq::<char>::empty());
    } else {
        assert(a[0] != c) by {
            assert(a.contains(a[0]) ==> a[0] != c);
        }
        assert(!a.drop_first().contains(c)) by {
            if a.drop_first().contains(c) {
                let k = choose|k: int| 0 <= k < a.drop_first().len() && a.drop_first()[k] == c;
                assert(a[k + 1] == c);
            }
        }
        lemma_split_once_at(a.drop_first(), c, b);
        assert(s.drop_first() =~= a.drop_first() + seq![c] + b);
        assert(s[0] == a[0]);
        assert(seq![a[0]] + a.drop_first() =~= a);
    }
}

proof fn lemma_join_free(parts: Seq<Seq<char>>, sep: Seq<char>, c: char)
    requires
        !sep.contains(c),
        forall|i: int| 0 <= i < parts.len() ==> !(#[trigger] parts[i]).contains(c),
    ensures
        !spec_join(parts, sep).contains(c),
    decreases parts.len(),
{
    if parts.len() > 1 {
        lemma_join_free(parts.drop_last(), sep, c);
        let j = spec_join(parts.drop_last(), sep);
        assert(!parts.last().contains(c)) by {
            assert(parts[parts.len() - 1] == parts.last());
        }
        lemma_concat_contains(j, sep, c);
        lemma_concat_contains(j + sep, parts.last(), c);
    } else if parts.len() == 1 {
        assert(!parts[0].contains(c));
    }
}

proof fn lemma_map_of_push<V>(ps: Seq<(Seq<char>, V)>)
    requires
        sorted_pairs(ps),
        ps.len() > 0,
    ensures
        map_of(ps) == map_of(ps.drop_last()).insert(ps.last().0, ps.last().1),
{
    let qs = ps.drop_last();
    let n = ps.len();
    assert(sorted_pairs(qs));
    assert(map_of(ps) =~= map_of(qs).insert(ps.last().0, ps.last().1)) by {
        assert forall|k: Seq<char>| #[trigger] map_of(ps).dom().contains(k) <==> map_of(qs).insert(
            ps.last().0,
            ps.last().1,
        ).dom().contains(k) by {
            if map_of(ps).dom().contains(k) {
                let j = choose|j: int| 0 <= j < ps.len() && #[trigger] ps[j].0 == k;
                if j < n - 1 {
                    assert(qs[j].0 == k);
                }
            }
            if map_of(qs).dom().contains(k) {
                let j = choose|j: int| 0 <= j < qs.len() && #[trigger] qs[j].0 == k;
                assert(ps[j].0 == k);
            }
            if k == ps.last().0 {
                assert(ps[n - 1].0 == k);
            }
        }
        assert forall|k: Seq<char>| #[trigger] map_of(ps).dom().contains(k) implies map_of(ps)[k]
            == map_of(qs).insert(ps.last().0, ps.last().1)[k] by {
            let j = choose|j: int| 0 <= j < ps.len() && #[trigger] ps[j].0 == k;
            lemma_map_of_at(ps, j);
            if j < n - 1 {
                lemma_map_of_at(qs, j);
                lemma_text_lt_irreflexive(k);
                assert(text_lt(ps[j].0, ps[n - 1].0));
            }
        }
    }
}

proof fn lemma_nonblank_keeps(ps: Seq<Seq<char>>)
    requires
        forall|i: int| 0 <= i < ps.len() ==> !is_blank(#[trigger] ps[i]),
    ensures
        nonblank(ps) == ps,
    decreases ps.len(),
{
    if ps.len() > 0 {
        lemma_nonblank_keeps(ps.drop_last());
        assert(!is_blank(ps[ps.len() - 1]));
        assert(ps.drop_last().push(ps.last()) =~= ps);
    }
}

/// An empty text splits into one empty piece, which reading skips.
proof fn lemma_split_empty(c: char)
    ensures
        spec_split(Seq::<char>::empty(), c) == seq![Seq::<char>::empty()],
        spec_split(Seq::<char>::empty(), c).drop_last() == Seq::<Seq<char>>::empty(),
        spec_split(Seq::<char>::empty(), c).last() == Seq::<char>::empty(),
{
    assert(spec_split(Seq::<char>::empty(), c) =~= seq![Seq::<char>::empty()]);
    assert(seq![Seq::<char>::empty()].drop_last() =~= Seq::<Seq<char>>::empty());
}

/// The four separators are distinct characters of the listed sets.
proof fn lemma_free_of4(s: Seq<char>, a: char, b: char, c: char, d: char)
    requires
        free_of(s, seq![a, b, c, d]),
    ensures
        !s.contains(a) && !s.contains(b) && !s.contains(c) && !s.contains(d),
{
    assert(seq![a, b, c, d][0] == a);
    assert(seq![a, b, c, d][1] == b);
    assert(seq![a, b, c, d][2] == c);
    assert(seq![a, b, c, d][3] == d);
}

/// What one written block of a filter object holds, and how it reads back.
proof fn lemma_group_block(e: (Seq<char>, Vec<String>))
    requires
        group_entry_ok(e),
    ensures
        !group_part(e).contains(';'),
        !group_part(e).contains('&'),
        !group_part(e).contains('%'),
        forall|m: Map<Seq<char>, Seq<Seq<char>>>| #[trigger] group_step(m, group_part(e)) == m.insert(e.0, strs_view(e.1@)),
{
    let vsv = strs_view(e.1@);
    let body = spec_join(vsv, seq![',']);
    lemma_free_of4(e.0, '&', '%', ';', '=');
    assert forall|i: int| 0 <= i < vsv.len() implies !(#[trigger] vsv[i]).contains(';') && !vsv[i].contains('&')
        && !vsv[i].contains('%') && !vsv[i].contains(',') by {
        lemma_free_of4(e.1@[i]@, '&', '%', ';', ',');
    }
    lemma_join_free(vsv, seq![','], ';');
    lemma_join_free(vsv, seq![','], '&');
    lemma_join_free(vsv, seq![','], '%');
    let part = group_part(e);
    assert(part == e.0 + seq!['='] + body);
    lemma_concat_contains(e.0, seq!['='], ';');
    lemma_concat_contains(e.0 + seq!['='], body, ';');
    lemma_concat_contains(e.0, seq!['='], '&');
    lemma_concat_contains(e.0 + seq!['='], body, '&');
    lemma_concat_contains(e.0, seq!['='], '%');
    lemma_concat_contains(e.0 + seq!['='], body, '%');
    lemma_split_once_at(e.0, '=', body);
    assert(part[e.0.len() as int] == '=');
    assert(!is_blank(part)) by {
        assert(!is_white(part[e.0.len() as int]));
    }
    // The values read back.
    if vsv.len() == 0 {
        assert(body =~= Seq::<char>::empty());
        lemma_split_empty(',');
        assert(is_blank(Seq::<char>::empty()));
        assert(nonblank(Seq::<Seq<char>>::empty()) =~= Seq::<Seq<char>>::empty());
        assert(nonblank(spec_split(body, ',')) =~= vsv);
    } else {
        crate::text::lemma_split_join(vsv, ',');
        assert forall|i: int| 0 <= i < vsv.len() implies !is_blank(#[trigger] vsv[i]) by {}
        lemma_nonblank_keeps(vsv);
    }
}

/// Reading the first `i` blocks of a written filter object gives its first `i` entries.
proof fn lemma_fold_groups_upto(ps: Seq<(Seq<char>, Vec<String>)>, i: int)
    requires
        sorted_pairs(ps),
        0 <= i <= ps.len(),
        forall|j: int| 0 <= j < ps.len() ==> group_entry_ok(#[trigger] ps[j]),
    ensures
        fold_groups(group_blocks(ps).take(i))
            == lists_view(map_of(ps.take(i))),
    decreases i,
{
    let blocks = group_blocks(ps);
    if i == 0 {
        assert(blocks.take(0) =~= Seq::<Seq<char>>::empty());
        assert(lists_view(map_of(ps.take(0))) =~= Map::<
            Seq<char>,
            Seq<Seq<char>>,
        >::empty());
    } else {
        lemma_fold_groups_upto(ps, i - 1);
        assert(blocks.take(i).drop_last() =~= blocks.take(i - 1));
        assert(blocks.take(i).last() == group_part(ps[i - 1]));
        let pt = ps.take(i);
        assert(pt.drop_last() =~= ps.take(i - 1));
        assert(sorted_pairs(pt));
        lemma_map_of_push(pt);
        assert(pt.last() == ps[i - 1]);
        lemma_group_block(ps[i - 1]);
        let m0 = fold_groups(blocks.take(i - 1));
        assert(group_step(m0, group_part(ps[i - 1])) == m0.insert(ps[i - 1].0, strs_view(ps[i - 1].1@)));
        assert(lists_view(map_of(pt)) =~= lists_view(map_of(ps.take(i - 1))).insert(
            ps[i - 1].0,
            strs_view(ps[i - 1].1@),
        ));
    }
}

/// Reading a filter object written by `spec_encode_groups` gives it back.
proof fn lemma_groups_roundtrip(g: FilterGroups)
    requires
        g.wf(),
        groups_encodable(g),
    ensures
        fold_groups(spec_split(spec_encode_groups(g), ';')) == groups_view(g),
        !spec_encode_groups(g).contains('&'),
        !spec_encode_groups(g).contains('%'),
{
    let ps = g.pairs();
    let blocks = group_blocks(ps);
    assert forall|j: int| 0 <= j < blocks.len() implies !(#[trigger] blocks[j]).contains(';')
        && !blocks[j].contains('&') && !blocks[j].contains('%') by {
        assert(group_entry_ok(ps[j]));
        lemma_group_block(ps[j]);
    }
    lemma_join_free(blocks, seq![';'], '&');
    lemma_join_free(blocks, seq![';'], '%');
    if ps.len() == 0 {
        assert(blocks =~= Seq::<Seq<char>>::empty());
        assert(spec_encode_groups(g) =~= Seq::<char>::empty());
        lemma_split_empty(';');
        assert(is_blank(Seq::<char>::empty()));
        assert(g@ =~= Map::<Seq<char>, Vec<String>>::empty());
        assert(groups_view(g) =~= Map::<Seq<char>, Seq<Seq<char>>>::empty());
        let sp = spec_split(Seq::<char>::empty(), ';');
        assert(fold_groups(sp.drop_last()) == Map::<Seq<char>, Seq<Seq<char>>>::empty());
        assert(fold_groups(sp) == group_step(fold_groups(sp.drop_last()), sp.last()));
        assert(fold_groups(sp) == Map::<Seq<char>, Seq<Seq<char>>>::empty());
    } else {
        crate::text::lemma_split_join(blocks, ';');
        assert(spec_split(spec_encode_groups(g), ';') == blocks);
        lemma_fold_groups_upto(ps, ps.len() as int);
        assert(blocks.take(blocks.len() as int) =~= blocks);
        assert(ps.take(ps.len() as int) =~= ps);
        assert(fold_groups(blocks) == lists_view(map_of(ps)));
        assert(g@ == map_of(ps));
    }
}

/// What one written parameter holds, and how it reads back.
proof fn lemma_param_part(e: (Seq<char>, ParamValue))
    requires
        param_entry_ok(e),
    ensures
        param_part(e) is Some,
        !param_part(e)->0.contains('&'),
        forall|m: Map<Seq<char>, ParamView>| #[trigger] pair_step(m, param_part(e)->0) == m.insert(e.0, param_view(e.1)),
{
    let k = e.0;
    assert(!k.contains('&') && !k.contains('%') && !k.contains('=')) by {
        assert(seq!['&', '%', '='][0] == '&');
        assert(seq!['&', '%', '='][1] == '%');
        assert(seq!['&', '%', '='][2] == '=');
    }
    let val: Seq<char> = match e.1 {
        ParamValue::Text(s) => s@,
        ParamValue::Groups(g) => seq!['('] + spec_encode_groups(g) + seq![')'],
    };
    match e.1 {
        ParamValue::Text(s) => {
            assert(seq!['&', '%'][0] == '&');
            assert(seq!['&', '%'][1] == '%');
            assert(param_part(e)->0 == k + seq!['='] + val);
        },
        ParamValue::Groups(g) => {
            lemma_groups_roundtrip(g);
            lemma_concat_contains(seq!['('], spec_encode_groups(g), '&');
            lemma_concat_contains(seq!['('] + spec_encode_groups(g), seq![')'], '&');
            lemma_concat_contains(seq!['('], spec_encode_groups(g), '%');
            lemma_concat_contains(seq!['('] + spec_encode_groups(g), seq![')'], '%');
            assert(param_part(e)->0 =~= k + seq!['='] + val);
            assert(val.subrange(1, val.len() - 1) =~= spec_encode_groups(g));
            assert(val.last() == ')');
            assert(val[0] == '(');
        },
    }
    assert(!val.contains('&') && !val.contains('%'));
    lemma_split_once_at(k, '=', val);
    lemma_concat_contains(k, seq!['='], '&');
    lemma_concat_contains(k + seq!['='], val, '&');
    assert(decoded(k) == k);
    assert(decoded(val) == val);
}

/// The written parts of parameters that are all written.
pub open spec fn all_parts(ps: Seq<(Seq<char>, ParamValue)>) -> Seq<Seq<char>> {
    ps.map_values(|e: (Seq<char>, ParamValue)| param_part(e)->0)
}

/// Every parameter is written as one part.
proof fn lemma_param_parts_all(ps: Seq<(Seq<char>, ParamValue)>)
    requires
        forall|j: int| 0 <= j < ps.len() ==> param_entry_ok(#[trigger] ps[j]),
    ensures
        param_parts(ps) == all_parts(ps),
    decreases ps.len(),
{
    if ps.len() > 0 {
        lemma_param_parts_all(ps.drop_last());
        assert(param_entry_ok(ps[ps.len() - 1]));
        lemma_param_part(ps.last());
        assert(all_parts(ps) =~= all_parts(ps.drop_last()).push(param_part(ps.last())->0));
    } else {
        assert(all_parts(ps) =~= Seq::<Seq<char>>::empty());
    }
}

/// Reading the first `i` written parameters gives the first `i` entries.
proof fn lemma_fold_pairs_upto(ps: Seq<(Seq<char>, ParamValue)>, i: int)
    requires
        sorted_pairs(ps),
        0 <= i <= ps.len(),
        forall|j: int| 0 <= j < ps.len() ==> param_entry_ok(#[trigger] ps[j]),
    ensures
        fold_pairs(all_parts(ps).take(i))
            == values_view(map_of(ps.take(i))),
    decreases i,
{
    let parts = all_parts(ps);
    if i == 0 {
        assert(parts.take(0) =~= Seq::<Seq<char>>::empty());
        assert(values_view(map_of(ps.take(0))) =~= Map::<
            Seq<char>,
            ParamView,
        >::empty());
    } else {
        lemma_fold_pairs_upto(ps, i - 1);
        assert(parts.take(i).drop_last() =~= parts.take(i - 1));
        assert(parts.take(i).last() == param_part(ps[i - 1])->0);
        let pt = ps.take(i);
        assert(pt.drop_last() =~= ps.take(i - 1));
        assert(sorted_pairs(pt));
        lemma_map_of_push(pt);
        assert(pt.last() == ps[i - 1]);
        lemma_param_part(ps[i - 1]);
        let m0 = fold_pairs(parts.take(i - 1));
        assert(pair_step(m0, param_part(ps[i - 1])->0) == m0.insert(ps[i - 1].0, param_view(ps[i - 1].1)));
        assert(values_view(map_of(pt)) =~= values_view(map_of(ps.take(i - 1))).insert(
            ps[i - 1].0,
            param_view(ps[i - 1].1),
        ));
    }
}

/// Writing parameters with `encode_search` and reading the address `?` + that
/// text with `parse_search` gives the same parameters back, when no key or
/// value holds the characters that separate them (see `params_encodable`).
pub proof fn law_encode_then_parse(p: QueryParams)
    requires
        params_wf(p),
        params_encodable(p),
    ensures
        spec_parse_search(seq!['?'] + spec_encode_search(p)) == params_view(p),
{
    let ps = p.pairs();
    let parts = all_parts(ps);
    lemma_param_parts_all(ps);
    let search = seq!['?'] + spec_encode_search(p);
    assert(search.drop_first() =~= spec_encode_search(p));
    if ps.len() == 0 {
        assert(parts =~= Seq::<Seq<char>>::empty());
        assert(spec_encode_search(p) =~= Seq::<char>::empty());
        lemma_split_empty('&');
        assert(spec_split_once(Seq::<char>::empty(), '=').0 =~= Seq::<char>::empty());
        assert(p@ =~= Map::<Seq<char>, ParamValue>::empty());
        assert(params_view(p) =~= Map::<Seq<char>, ParamView>::empty());
        let sp = spec_split(Seq::<char>::empty(), '&');
        assert(fold_pairs(sp.drop_last()) == Map::<Seq<char>, ParamView>::empty());
        assert(fold_pairs(sp) == pair_step(fold_pairs(sp.drop_last()), sp.last()));
        assert(fold_pairs(sp) == Map::<Seq<char>, ParamView>::empty());
    } else {
        assert forall|j: int| 0 <= j < parts.len() implies !(#[trigger] parts[j]).contains('&') by {
            assert(param_entry_ok(ps[j]));
            lemma_param_part(ps[j]);
        }
        crate::text::lemma_split_join(parts, '&');
        assert(spec_encode_search(p) == spec_join(parts, seq!['&']));
        lemma_fold_pairs_upto(ps, ps.len() as int);
        assert(parts.take(parts.len() as int) =~= parts);
        assert(ps.take(ps.len() as int) =~= ps);
        assert(fold_pairs(parts) == values_view(map_of(ps)));
    }
}

/// The search part `?key=value` of one pair of plain text (a key that is not
/// empty and not `f`, neither part holding `&` or `%`, the key no `=`) reads
/// as that one parameter with its value as text.
pub proof fn law_one_plain_pair(k: Seq<char>, v: Seq<char>)
    requires
        k.len() > 0,
        k != seq!['f'],
        !k.contains('&'),
        !k.contains('='),
        !k.contains('%'),
        !v.contains('&'),
        !v.contains('%'),
    ensures
        spec_parse_search(seq!['?'] + k + seq!['='] + v) == map![k => ParamView::Text(v)],
{
    let pair = k + seq!['='] + v;
    let s = seq!['?'] + k + seq!['='] + v;
    assert(s.drop_first() =~= pair);
    assert(!pair.contains('&')) by {
        if pair.contains('&') {
            let i = choose|i: int| 0 <= i < pair.len() && pair[i] == '&';
            if i < k.len() {
                assert(k[i] == '&');
            } else if i == k.len() {
            } else {
                assert(v[i - k.len() - 1] == '&');
            }
        }
    }
    crate::text::lemma_split_no_sep(pair, '&');
    crate::pages::lemma_split_once_at(k, '=', v);
    assert(seq![pair].drop_last() =~= Seq::<Seq<char>>::empty());
    assert(seq![pair].last() == pair);
    assert(spec_split(s.drop_first(), '&') == seq![pair]);
    assert(fold_pairs(Seq::<Seq<char>>::empty()) == Map::<Seq<char>, ParamView>::empty());
    assert(fold_pairs(seq![pair]) == pair_step(Map::<Seq<char>, ParamView>::empty(), pair));
    assert(decoded(k) == k);
    assert(decoded(v) == v);
    assert(spec_split_once(pair, '=') == (k, Some(v)));
    assert(spec_parse_search(s) == fold_pairs(seq![pair]));
    assert(spec_parse_search(s) =~= map![k => ParamView::Text(v)]);
}

} // verus!
