//! Character-level text operations, each stated over `Seq<char>`.
//!
//! The functions here behave as their namesakes on `str` do (`replace`,
//! `split`, `splitn(2, ..)`, `strip_prefix`, `trim`, `join`), and their
//! contracts say so in terms of the spec functions of this module.
use vstd::prelude::*;

verus! {

// ---------------------------------------------------------------------------
// Specifications
// ---------------------------------------------------------------------------

/// `s` with every non-overlapping occurrence of `p`, scanned from the left,
/// replaced by `r`; an empty `p` matches before every character and at the end.
pub open spec fn spec_replace(s: Seq<char>, p: Seq<char>, r: Seq<char>) -> Seq<char>
    decreases s.len(),
{
    if p.len() == 0 {
        if s.len() == 0 {
            r
        } else {
            r + seq![s[0]] + spec_replace(s.drop_first(), p, r)
        }
    } else if s.len() < p.len() {
        s
    } else if s.take(p.len() as int) == p {
        r + spec_replace(s.skip(p.len() as int), p, r)
    } else {
        seq![s[0]] + spec_replace(s.drop_first(), p, r)
    }
}

/// The pieces of `s` between the occurrences of `c`, as `str::split` gives them.
pub open spec fn spec_split(s: Seq<char>, c: char) -> Seq<Seq<char>>
    decreases s.len(),
{
    if s.len() == 0 {
        seq![Seq::<char>::empty()]
    } else {
        let pre = spec_split(s.drop_last(), c);
        if s.last() == c {
            pre.push(Seq::<char>::empty())
        } else {
            pre.update(pre.len() - 1, pre.last().push(s.last()))
        }
    }
}

/// The part of `s` before the first `c`, and the part after it if there is a `c`:
/// the two items that `s.splitn(2, c)` yields.
pub open spec fn spec_split_once(s: Seq<char>, c: char) -> (Seq<char>, Option<Seq<char>>)
    decreases s.len(),
{
    if s.len() == 0 {
        (s, None)
    } else if s[0] == c {
        (Seq::<char>::empty(), Some(s.drop_first()))
    } else {
        let (a, b) = spec_split_once(s.drop_first(), c);
        (seq![s[0]] + a, b)
    }
}

/// The pieces of `parts` with `sep` between each two neighbours.
pub open spec fn spec_join(parts: Seq<Seq<char>>, sep: Seq<char>) -> Seq<char>
    decreases parts.len(),
{
    if parts.len() == 0 {
        Seq::<char>::empty()
    } else if parts.len() == 1 {
        parts[0]
    } else {
        spec_join(parts.drop_last(), sep) + sep + parts.last()
    }
}

/// Whether `c` has the Unicode `White_Space` property, as `char::is_whitespace` decides.
pub open spec fn is_white(c: char) -> bool {
    let n = c as u32;
    ||| 0x09 <= n <= 0x0d
    ||| n == 0x20
    ||| n == 0x85
    ||| n == 0xa0
    ||| n == 0x1680
    ||| 0x2000 <= n <= 0x200a
    ||| n == 0x2028
    ||| n == 0x2029
    ||| n == 0x202f
    ||| n == 0x205f
    ||| n == 0x3000
}

/// Whether `s.trim()` is empty: every character of `s` is white space.
pub open spec fn is_blank(s: Seq<char>) -> bool {
    forall|i: int| 0 <= i < s.len() ==> is_white(#[trigger] s[i])
}

/// The number of leading white-space characters of `s`.
pub open spec fn lead_white(s: Seq<char>) -> nat
    decreases s.len(),
{
    if s.len() > 0 && is_white(s[0]) {
        1 + lead_white(s.drop_first())
    } else {
        0
    }
}

/// The number of trailing white-space characters of `s`.
pub open spec fn trail_white(s: Seq<char>) -> nat
    decreases s.len(),
{
    if s.len() > 0 && is_white(s.last()) {
        1 + trail_white(s.drop_last())
    } else {
        0
    }
}

/// `s` without its leading and trailing white space, as `str::trim` gives it.
pub open spec fn spec_trim(s: Seq<char>) -> Seq<char> {
    let t = s.skip(lead_white(s) as int);
    t.take(t.len() - trail_white(t))
}

/// The views of a sequence of character vectors.
pub open spec fn views(v: Seq<Vec<char>>) -> Seq<Seq<char>> {
    v.map_values(|x: Vec<char>| x@)
}

/// Strict lexicographic order of two character sequences, by code point; it is
/// the order of `String` in Rust, as UTF-8 keeps the order of code points.
pub open spec fn text_lt(a: Seq<char>, b: Seq<char>) -> bool
    decreases a.len(),
{
    if a.len() == 0 {
        b.len() > 0
    } else if b.len() == 0 {
        false
    } else if a[0] < b[0] {
        true
    } else if a[0] > b[0] {
        false
    } else {
        text_lt(a.drop_first(), b.drop_first())
    }
}

// ---------------------------------------------------------------------------
// Lemmas
// ---------------------------------------------------------------------------

/// `text_lt` is irreflexive.
pub proof fn lemma_text_lt_irreflexive(a: Seq<char>)
    ensures
        !text_lt(a, a),
    decreases a.len(),
{
    if a.len() > 0 {
        lemma_text_lt_irreflexive(a.drop_first());
    }
}

/// `text_lt` is transitive.
pub proof fn lemma_text_lt_transitive(a: Seq<char>, b: Seq<char>, c: Seq<char>)
    requires
        text_lt(a, b),
        text_lt(b, c),
    ensures
        text_lt(a, c),
    decreases a.len(),
{
    if a.len() > 0 && b.len() > 0 && c.len() > 0 {
        if a[0] == b[0] && b[0] == c[0] {
            lemma_text_lt_transitive(a.drop_first(), b.drop_first(), c.drop_first());
        }
    } else if a.len() == 0 {
        assert(b.len() > 0);
        assert(c.len() > 0);
    }
}

/// `text_lt` is total on distinct sequences.
pub proof fn lemma_text_lt_total(a: Seq<char>, b: Seq<char>)
    requires
        a != b,
    ensures
        text_lt(a, b) || text_lt(b, a),
    decreases a.len(),
{
    if a.len() > 0 && b.len() > 0 && a[0] == b[0] {
        assert(a.drop_first() != b.drop_first()) by {
            if a.drop_first() == b.drop_first() {
                assert(a =~= seq![a[0]] + a.drop_first());
                assert(b =~= seq![b[0]] + b.drop_first());
            }
        }
        lemma_text_lt_total(a.drop_first(), b.drop_first());
    } else if a.len() == 0 && b.len() == 0 {
        assert(a =~= b);
    }
}

/// A sequence without `c` is a single piece.
pub proof fn lemma_split_no_sep(s: Seq<char>, c: char)
    requires
        !s.contains(c),
    ensures
        spec_split(s, c) == seq![s],
    decreases s.len(),
{
    if s.len() > 0 {
        assert(!s.drop_last().contains(c)) by {
            if s.drop_last().contains(c) {
                let k = choose|k: int| 0 <= k < s.drop_last().len() && s.drop_last()[k] == c;
                assert(s[k] == c);
            }
        }
        lemma_split_no_sep(s.drop_last(), c);
        assert(s.last() != c) by {
            assert(s[s.len() - 1] == s.last());
        }
        assert(s.drop_last().push(s.last()) =~= s);
    } else {
        assert(s =~= Seq::<char>::empty());
    }
}

/// Splitting `a + [c] + b` where `a` holds no `c` gives `a`, then the pieces of `b`.
pub proof fn lemma_split_prepend(a: Seq<char>, c: char, b: Seq<char>)
    requires
        !a.contains(c),
    ensures
        spec_split(a + seq![c] + b, c) == seq![a] + spec_split(b, c),
    decreases b.len(),
{
    let s = a + seq![c] + b;
    if b.len() == 0 {
        assert(s.drop_last() =~= a);
        lemma_split_no_sep(a, c);
        assert(s.last() == c);
        assert(spec_split(b, c) =~= seq![Seq::<char>::empty()]);
        assert(seq![a].push(Seq::<char>::empty()) =~= seq![a] + seq![Seq::<char>::empty()]);
    } else {
        lemma_split_prepend(a, c, b.drop_last());
        assert(s.drop_last() =~= a + seq![c] + b.drop_last());
        assert(s.last() == b.last());
        let pre = spec_split(b.drop_last(), c);
        let lhs_pre = seq![a] + pre;
        if b.last() == c {
            assert(lhs_pre.push(Seq::<char>::empty()) =~= seq![a] + pre.push(Seq::<char>::empty()));
        } else {
            assert(pre.len() >= 1) by {
                lemma_split_len(b.drop_last(), c);
            }
            assert(lhs_pre.update(lhs_pre.len() - 1, lhs_pre.last().push(b.last())) =~= seq![a]
                + pre.update(pre.len() - 1, pre.last().push(b.last())));
        }
    }
}

/// Splitting always gives at least one piece.
pub proof fn lemma_split_len(s: Seq<char>, c: char)
    ensures
        spec_split(s, c).len() >= 1,
    decreases s.len(),
{
    if s.len() > 0 {
        lemma_split_len(s.drop_last(), c);
    }
}

/// Joining `parts` with `[c]`, where no part holds `c`, then splitting on `c`,
/// gives `parts` back.
pub proof fn lemma_split_join(parts: Seq<Seq<char>>, c: char)
    requires
        parts.len() >= 1,
        forall|i: int| 0 <= i < parts.len() ==> !(#[trigger] parts[i]).contains(c),
    ensures
        spec_split(spec_join(parts, seq![c]), c) == parts,
    decreases parts.len(),
{
    if parts.len() == 1 {
        lemma_split_no_sep(parts[0], c);
        assert(seq![parts[0]] =~= parts);
    } else {
        lemma_join_front(parts, seq![c]);
        let rest = parts.drop_first();
        assert forall|i: int| 0 <= i < rest.len() implies !(#[trigger] rest[i]).contains(c) by {
            assert(rest[i] == parts[i + 1]);
        }
        lemma_split_join(rest, c);
        lemma_split_prepend(parts[0], c, spec_join(rest, seq![c]));
        assert(seq![parts[0]] + rest =~= parts);
    }
}

/// Joining splits off the first part at the front.
pub proof fn lemma_join_front(parts: Seq<Seq<char>>, sep: Seq<char>)
    requires
        parts.len() >= 2,
    ensures
        spec_join(parts, sep) == parts[0] + sep + spec_join(parts.drop_first(), sep),
    decreases parts.len(),
{
    if parts.len() == 2 {
        assert(parts.drop_last() =~= seq![parts[0]]);
        assert(parts.drop_first() =~= seq![parts[1]]);
        assert(spec_join(parts.drop_last(), sep) == parts[0]);
        assert(spec_join(parts.drop_first(), sep) == parts[1]);
        assert(parts.last() == parts[1]);
    } else {
        lemma_join_front(parts.drop_last(), sep);
        assert(parts.drop_last().drop_first() =~= parts.drop_first().drop_last());
        assert(parts.drop_first().last() == parts.last());
        assert(parts.drop_last()[0] == parts[0]);
        let x = spec_join(parts.drop_first().drop_last(), sep);
        assert(spec_join(parts.drop_first(), sep) == x + sep + parts.last());
        assert(spec_join(parts, sep) == parts[0] + sep + x + sep + parts.last());
        assert(parts[0] + sep + x + sep + parts.last() =~= parts[0] + sep + (x + sep
            + parts.last()));
    }
}

/// Replacing a pattern by itself changes nothing.
pub proof fn lemma_replace_same(s: Seq<char>, p: Seq<char>)
    ensures
        spec_replace(s, p, p) == s,
    decreases s.len(),
{
    if p.len() == 0 {
        if s.len() > 0 {
            lemma_replace_same(s.drop_first(), p);
            assert(p + seq![s[0]] + s.drop_first() =~= s);
        } else {
            assert(p =~= s);
        }
    } else if s.len() < p.len() {
    } else if s.take(p.len() as int) == p {
        lemma_replace_same(s.skip(p.len() as int), p);
        assert(p + s.skip(p.len() as int) =~= s);
    } else {
        lemma_replace_same(s.drop_first(), p);
        assert(seq![s[0]] + s.drop_first() =~= s);
    }
}

/// A sequence that does not hold the first character of a non-empty pattern is
/// left unchanged by replacing it.
pub proof fn lemma_replace_absent(s: Seq<char>, p: Seq<char>, r: Seq<char>)
    requires
        p.len() > 0,
        !s.contains(p[0]),
    ensures
        spec_replace(s, p, r) == s,
    decreases s.len(),
{
    if s.len() >= p.len() {
        assert(s.take(p.len() as int) != p) by {
            assert(s.take(p.len() as int)[0] == s[0]);
        }
        assert(!s.drop_first().contains(p[0])) by {
            if s.drop_first().contains(p[0]) {
                let k = choose|k: int| 0 <= k < s.drop_first().len() && s.drop_first()[k] == p[0];
                assert(s[k + 1] == p[0]);
            }
        }
        lemma_replace_absent(s.drop_first(), p, r);
        assert(seq![s[0]] + s.drop_first() =~= s);
    }
}

/// An occurrence of `p` starting at position `i` of `x` would already
/// disagree with `x` inside `x`.
pub open spec fn breaks_at(x: Seq<char>, p: Seq<char>, i: int) -> bool {
    exists|j: int| 0 <= j < p.len() && i + j < x.len() && #[trigger] x[i + j] != p[j]
}

/// No occurrence of `p` can start inside `x`, whatever follows `x`.
pub open spec fn no_start_within(x: Seq<char>, p: Seq<char>) -> bool {
    forall|i: int| 0 <= i < x.len() ==> #[trigger] breaks_at(x, p, i)
}

/// `p` occurs somewhere in `v`.
pub open spec fn occurs(v: Seq<char>, p: Seq<char>) -> bool {
    exists|i: int| 0 <= i && i + p.len() <= v.len() && #[trigger] v.subrange(i, i + p.len()) == p
}

/// A text in which no occurrence of `p` can start is kept in front by replacing.
pub proof fn lemma_replace_keeps_front(x: Seq<char>, y: Seq<char>, p: Seq<char>, r: Seq<char>)
    requires
        p.len() > 0,
        no_start_within(x, p),
    ensures
        spec_replace(x + y, p, r) == x + spec_replace(y, p, r),
    decreases x.len(),
{
    let s = x + y;
    if x.len() == 0 {
        assert(s =~= y);
        assert(x + spec_replace(y, p, r) =~= spec_replace(y, p, r));
    } else {
        assert(breaks_at(x, p, 0));
        let j = choose|j: int| 0 <= j < p.len() && 0 + j < x.len() && #[trigger] x[0 + j] != p[j];
        let xs = x.drop_first();
        assert forall|i: int| 0 <= i < xs.len() implies #[trigger] breaks_at(xs, p, i) by {
            assert(breaks_at(x, p, i + 1));
            let k = choose|k: int| 0 <= k < p.len() && (i + 1) + k < x.len() && #[trigger] x[(i + 1) + k] != p[k];
            assert(xs[i + k] == x[i + 1 + k]);
        }
        lemma_replace_keeps_front(xs, y, p, r);
        assert(s.drop_first() =~= xs + y);
        if s.len() >= p.len() {
            assert(s.take(p.len() as int)[j] == x[j]);
            assert(s.take(p.len() as int) != p);
            assert(seq![x[0]] + (xs + spec_replace(y, p, r)) =~= x + spec_replace(y, p, r));
        } else {
            assert(y.len() < p.len());
            assert(spec_replace(y, p, r) == y);
            assert((xs + y).len() < p.len());
        }
    }
}

/// If `w` starts what replacing gives, and `w` does not hold the first
/// character of the replacement, then `w` starts the text itself.
pub proof fn lemma_prefix_of_replaced(t: Seq<char>, w: Seq<char>, p: Seq<char>, r: Seq<char>)
    requires
        p.len() > 0,
        r.len() > 0,
        !w.contains(r[0]),
        w.is_prefix_of(spec_replace(t, p, r)),
    ensures
        w.is_prefix_of(t),
    decreases t.len(),
{
    if w.len() == 0 {
        assert(w =~= t.subrange(0, 0));
    } else if t.len() < p.len() {
    } else if t.take(p.len() as int) == p {
        let out = spec_replace(t, p, r);
        assert(out[0] == r[0]);
        assert(w[0] == out.subrange(0, w.len() as int)[0]);
        assert(w.contains(w[0]));
    } else {
        let out = spec_replace(t, p, r);
        let rest = spec_replace(t.drop_first(), p, r);
        assert(out == seq![t[0]] + rest);
        let wd = w.drop_first();
        assert(!wd.contains(r[0])) by {
            if wd.contains(r[0]) {
                let k = choose|k: int| 0 <= k < wd.len() && wd[k] == r[0];
                assert(w[k + 1] == r[0]);
            }
        }
        assert(wd =~= rest.subrange(0, wd.len() as int)) by {
            assert forall|k: int| 0 <= k < wd.len() implies wd[k] == rest.subrange(0, wd.len() as int)[k] by {
                assert(w[k + 1] == out.subrange(0, w.len() as int)[k + 1]);
            }
        }
        lemma_prefix_of_replaced(t.drop_first(), wd, p, r);
        assert(w[0] == out.subrange(0, w.len() as int)[0]);
        assert(w =~= t.subrange(0, w.len() as int)) by {
            assert forall|k: int| 0 <= k < w.len() implies w[k] == t.subrange(0, w.len() as int)[k] by {
                if k > 0 {
                    assert(wd[k - 1] == t.drop_first().subrange(0, wd.len() as int)[k - 1]);
                }
            }
        }
    }
}

/// Replacing `p` in a text that `q` does not start cannot make `q` start it,
/// when `q` holds the first character of the replacement only at its front.
pub proof fn lemma_no_new_front(s: Seq<char>, p: Seq<char>, r: Seq<char>, q: Seq<char>)
    requires
        p.len() > 0,
        r.len() > 0,
        q.len() > 0,
        !q.drop_first().contains(r[0]),
        s.len() > 0,
        !q.is_prefix_of(s),
    ensures
        !q.is_prefix_of(seq![s[0]] + spec_replace(s.drop_first(), p, r)),
{
    let u = seq![s[0]] + spec_replace(s.drop_first(), p, r);
    if q.is_prefix_of(u) {
        let w = q.drop_first();
        assert(w =~= spec_replace(s.drop_first(), p, r).subrange(0, w.len() as int)) by {
            assert forall|k: int| 0 <= k < w.len() implies w[k] == spec_replace(s.drop_first(), p, r).subrange(0, w.len() as int)[k] by {
                assert(q[k + 1] == u.subrange(0, q.len() as int)[k + 1]);
            }
        }
        lemma_prefix_of_replaced(s.drop_first(), w, p, r);
        assert(q[0] == u.subrange(0, q.len() as int)[0]);
        assert(q =~= s.subrange(0, q.len() as int)) by {
            assert forall|k: int| 0 <= k < q.len() implies q[k] == s.subrange(0, q.len() as int)[k] by {
                if k > 0 {
                    assert(w[k - 1] == s.drop_first().subrange(0, w.len() as int)[k - 1]);
                }
            }
        }
    }
}

/// `s` with `p1` replaced by `r1` and `p2` by `r2`, scanning once from the left.
pub open spec fn spec_replace_both(s: Seq<char>, p1: Seq<char>, r1: Seq<char>, p2: Seq<char>, r2: Seq<char>) -> Seq<char>
    decreases s.len(),
{
    if s.len() == 0 {
        s
    } else if p1.len() > 0 && p1.is_prefix_of(s) {
        r1 + spec_replace_both(s.skip(p1.len() as int), p1, r1, p2, r2)
    } else if p2.len() > 0 && p2.is_prefix_of(s) {
        r2 + spec_replace_both(s.skip(p2.len() as int), p1, r1, p2, r2)
    } else {
        seq![s[0]] + spec_replace_both(s.drop_first(), p1, r1, p2, r2)
    }
}

proof fn lemma_prefix_take(p: Seq<char>, s: Seq<char>)
    ensures
        p.is_prefix_of(s) <==> (s.len() >= p.len() && s.take(p.len() as int) == p),
{
    if s.len() >= p.len() {
        assert(s.take(p.len() as int) =~= s.subrange(0, p.len() as int));
    }
}

/// Replacing `p1`, then `p2`, is the single scan that replaces both, when
/// neither pattern can start inside `r1` or inside `p2` respectively and `p2`
/// holds the first character of `r1` only at its front.
pub proof fn lemma_replace_then(s: Seq<char>, p1: Seq<char>, r1: Seq<char>, p2: Seq<char>, r2: Seq<char>)
    requires
        p1.len() > 0,
        p2.len() > 0,
        r1.len() > 0,
        no_start_within(r1, p2),
        no_start_within(p2, p1),
        !p2.drop_first().contains(r1[0]),
    ensures
        spec_replace(spec_replace(s, p1, r1), p2, r2) == spec_replace_both(s, p1, r1, p2, r2),
    decreases s.len(),
{
    lemma_prefix_take(p1, s);
    lemma_prefix_take(p2, s);
    if s.len() == 0 {
    } else if p1.is_prefix_of(s) {
        let rest = s.skip(p1.len() as int);
        lemma_replace_then(rest, p1, r1, p2, r2);
        lemma_replace_keeps_front(r1, spec_replace(rest, p1, r1), p2, r2);
    } else if p2.is_prefix_of(s) {
        let rest = s.skip(p2.len() as int);
        lemma_replace_then(rest, p1, r1, p2, r2);
        assert(s =~= p2 + rest);
        lemma_replace_keeps_front(p2, rest, p1, r1);
        let m = spec_replace(rest, p1, r1);
        lemma_prefix_take(p2, p2 + m);
        assert((p2 + m).take(p2.len() as int) =~= p2);
        assert((p2 + m).skip(p2.len() as int) =~= m);
    } else {
        let t = s.drop_first();
        lemma_replace_then(t, p1, r1, p2, r2);
        if s.len() >= p1.len() {
            let u = seq![s[0]] + spec_replace(t, p1, r1);
            lemma_no_new_front(s, p1, r1, p2);
            lemma_prefix_take(p2, u);
            if u.len() >= p2.len() {
                assert(u.drop_first() =~= spec_replace(t, p1, r1));
            } else {
                assert(spec_replace(t, p1, r1).len() < p2.len());
            }
        } else {
            assert(spec_replace(s, p1, r1) == s);
            assert(spec_replace(t, p1, r1) == t);
            if s.len() >= p2.len() {
                assert(s =~= seq![s[0]] + t);
            }
        }
    }
}

/// The single scan that replaces two patterns does not depend on their order,
/// when no text starts with both.
pub proof fn lemma_replace_both_swap(s: Seq<char>, p1: Seq<char>, r1: Seq<char>, p2: Seq<char>, r2: Seq<char>)
    requires
        p1.len() > 0,
        p2.len() > 0,
        no_start_within(p1, p2),
    ensures
        spec_replace_both(s, p1, r1, p2, r2) == spec_replace_both(s, p2, r2, p1, r1),
    decreases s.len(),
{
    if s.len() > 0 {
        if p1.is_prefix_of(s) && p2.is_prefix_of(s) {
            assert(breaks_at(p1, p2, 0));
            let j = choose|j: int| 0 <= j < p2.len() && 0 + j < p1.len() && #[trigger] p1[0 + j] != p2[j];
            assert(p1[j] == s.subrange(0, p1.len() as int)[j]);
            assert(p2[j] == s.subrange(0, p2.len() as int)[j]);
        }
        if p1.is_prefix_of(s) {
            lemma_replace_both_swap(s.skip(p1.len() as int), p1, r1, p2, r2);
        } else if p2.is_prefix_of(s) {
            lemma_replace_both_swap(s.skip(p2.len() as int), p1, r1, p2, r2);
        } else {
            lemma_replace_both_swap(s.drop_first(), p1, r1, p2, r2);
        }
    }
}

/// Replacing a pattern twice is replacing it once, when it cannot start inside
/// its replacement and holds the replacement's first character only at its front.
pub proof fn lemma_replace_twice(s: Seq<char>, p: Seq<char>, r: Seq<char>)
    requires
        p.len() > 0,
        r.len() > 0,
        no_start_within(r, p),
        !p.drop_first().contains(r[0]),
    ensures
        spec_replace(spec_replace(s, p, r), p, r) == spec_replace(s, p, r),
    decreases s.len(),
{
    lemma_prefix_take(p, s);
    if s.len() < p.len() {
    } else if s.take(p.len() as int) == p {
        let rest = s.skip(p.len() as int);
        lemma_replace_twice(rest, p, r);
        lemma_replace_keeps_front(r, spec_replace(rest, p, r), p, r);
    } else {
        let t = s.drop_first();
        lemma_replace_twice(t, p, r);
        let u = seq![s[0]] + spec_replace(t, p, r);
        lemma_no_new_front(s, p, r, p);
        lemma_prefix_take(p, u);
        if u.len() >= p.len() {
            assert(u.drop_first() =~= spec_replace(t, p, r));
        } else {
            assert(spec_replace(t, p, r).len() < p.len());
        }
    }
}

/// No occurrence of `p` starts inside `a + b` when none starts inside either.
pub proof fn lemma_no_start_concat(a: Seq<char>, b: Seq<char>, p: Seq<char>)
    requires
        no_start_within(a, p),
        no_start_within(b, p),
    ensures
        no_start_within(a + b, p),
{
    let x = a + b;
    assert forall|i: int| 0 <= i < x.len() implies #[trigger] breaks_at(x, p, i) by {
        if i < a.len() {
            assert(breaks_at(a, p, i));
            let j = choose|j: int| 0 <= j < p.len() && i + j < a.len() && #[trigger] a[i + j] != p[j];
            assert(x[i + j] == a[i + j]);
        } else {
            assert(breaks_at(b, p, i - a.len()));
            let j = choose|j: int| 0 <= j < p.len() && (i - a.len()) + j < b.len() && #[trigger] b[(i - a.len()) + j] != p[j];
            assert(x[i + j] == b[(i - a.len()) + j]);
        }
    }
}

// ---------------------------------------------------------------------------
// Executable functions
// ---------------------------------------------------------------------------

/// Calls `String::push`. Trusted: the string afterwards holds its former
/// characters followed by `c`, as the standard library documents.
#[verifier::external_body]
fn push_char(s: &mut String, c: char)
    ensures
        final(s)@ == old(s)@.push(c),
{
    s.push(c);
}

/// The characters of `s`, in order.
pub fn chars_of(s: &str) -> (res: Vec<char>)
    ensures
        res@ == s@,
{
    let mut out: Vec<char> = Vec::new();
    for c in it: s.chars()
        invariant
            out@ == it.seq().take(it.index()),
    {
        out.push(c);
    }
    out
}

/// The string made of the characters `v`.
pub fn string_of(v: &[char]) -> (res: String)
    ensures
        res@ == v@,
{
    let mut s = String::new();
    let n = v.len();
    for i in 0..n
        invariant
            n == v@.len(),
            s@ == v@.take(i as int),
    {
        push_char(&mut s, v[i]);
        assert(v@.take(i as int).push(v@[i as int]) =~= v@.take(i + 1));
    }
    assert(v@.take(n as int) =~= v@);
    s
}

/// The characters of `s` from `from` up to `to`.
pub fn sub_chars(s: &[char], from: usize, to: usize) -> (res: Vec<char>)
    requires
        from <= to <= s@.len(),
    ensures
        res@ == s@.subrange(from as int, to as int),
{
    let mut out: Vec<char> = Vec::new();
    for i in from..to
        invariant
            to <= s@.len(),
            out@ == s@.subrange(from as int, i as int),
    {
        out.push(s[i]);
        assert(s@.subrange(from as int, i as int).push(s@[i as int]) =~= s@.subrange(
            from as int,
            i + 1,
        ));
    }
    out
}

/// Whether `a` and `b` hold the same characters.
pub fn chars_eq(a: &[char], b: &[char]) -> (res: bool)
    ensures
        res == (a@ == b@),
{
    if a.len() != b.len() {
        return false;
    }
    let n = a.len();
    for i in 0..n
        invariant
            n == a@.len(),
            n == b@.len(),
            forall|j: int| 0 <= j < i ==> a@[j] == b@[j],
    {
        if a[i] != b[i] {
            return false;
        }
    }
    assert(a@ =~= b@);
    true
}

/// Whether `p` occurs in `s` at position `i`.
fn matches_at(s: &[char], i: usize, p: &[char]) -> (res: bool)
    requires
        i + p@.len() <= s@.len(),
    ensures
        res == (s@.subrange(i as int, i + p@.len()) == p@),
{
    let m = p.len();
    let sn = s.len();
    let mut j: usize = 0;
    while j < m
        invariant
            m == p@.len(),
            sn == s@.len(),
            i + m <= s@.len(),
            j <= m,
            forall|k: int| 0 <= k < j ==> s@[i + k] == p@[k],
        decreases m - j,
    {
        if s[i + j] != p[j] {
            assert(s@.subrange(i as int, i + p@.len())[j as int] != p@[j as int]);
            return false;
        }
        j = j + 1;
    }
    assert(s@.subrange(i as int, i + p@.len()) =~= p@);
    true
}

/// `s` with every occurrence of `p` replaced by `r`, as `str::replace` gives it.
pub fn replace_chars(s: &[char], p: &[char], r: &[char]) -> (res: Vec<char>)
    ensures
        res@ == spec_replace(s@, p@, r@),
{
    let n = s.len();
    let m = p.len();
    let mut out: Vec<char> = Vec::new();
    let mut i: usize = 0;
    assert(s@.skip(0) =~= s@);
    while i < n
        invariant
            n == s@.len(),
            m == p@.len(),
            i <= n,
            spec_replace(s@, p@, r@) == out@ + spec_replace(s@.skip(i as int), p@, r@),
        decreases n - i,
    {
        let ghost rest = s@.skip(i as int);
        assert(rest.drop_first() =~= s@.skip(i + 1));
        assert(rest[0] == s@[i as int]);
        if m == 0 {
            let ghost before = out@;
            out.extend_from_slice(r);
            out.push(s[i]);
            assert(out@ =~= before + r@ + seq![s@[i as int]]);
            i = i + 1;
        } else if m <= n - i && matches_at(s, i, p) {
            assert(rest.take(m as int) =~= s@.subrange(i as int, i + m));
            assert(rest.skip(m as int) =~= s@.skip(i + m));
            let ghost before = out@;
            out.extend_from_slice(r);
            assert(out@ =~= before + r@);
            i = i + m;
        } else {
            if m <= n - i {
                assert(rest.take(m as int) =~= s@.subrange(i as int, i + m));
            } else {
                assert(rest.drop_first().len() < m);
                assert(seq![rest[0]] + rest.drop_first() =~= rest);
            }
            let ghost before = out@;
            out.push(s[i]);
            assert(out@ =~= before + seq![s@[i as int]]);
            i = i + 1;
        }
    }
    if m == 0 {
        let ghost before = out@;
        out.extend_from_slice(r);
        assert(out@ =~= before + r@);
    }
    assert(s@.skip(n as int) =~= Seq::<char>::empty());
    out
}

/// `s` with every occurrence of `p` replaced by `r` (`str::replace`).
pub fn replace_all(s: &str, p: &str, r: &str) -> (res: String)
    ensures
        res@ == spec_replace(s@, p@, r@),
{
    let sv = chars_of(s);
    let pv = chars_of(p);
    let rv = chars_of(r);
    let out = replace_chars(sv.as_slice(), pv.as_slice(), rv.as_slice());
    string_of(out.as_slice())
}

/// The pieces of `s` between the occurrences of `c` (`str::split`).
pub fn split_chars(s: &[char], c: char) -> (res: Vec<Vec<char>>)
    ensures
        views(res@) == spec_split(s@, c),
{
    let n = s.len();
    let mut done: Vec<Vec<char>> = Vec::new();
    let mut cur: Vec<char> = Vec::new();
    assert(s@.take(0) =~= Seq::<char>::empty());
    for i in 0..n
        invariant
            n == s@.len(),
            views(done@).push(cur@) == spec_split(s@.take(i as int), c),
    {
        let ghost t = s@.take(i + 1);
        assert(t.drop_last() =~= s@.take(i as int));
        assert(t.last() == s@[i as int]);
        if s[i] == c {
            let ghost d0 = done@;
            done.push(cur);
            cur = Vec::new();
            assert(views(done@) =~= views(d0).push(views(done@).last()));
            assert(views(done@).push(cur@) =~= views(d0).push(views(done@).last()).push(
                Seq::<char>::empty(),
            ));
        } else {
            let ghost c0 = cur@;
            cur.push(s[i]);
            assert(views(done@).push(cur@) =~= views(done@).push(c0).update(
                views(done@).len() as int,
                c0.push(s@[i as int]),
            ));
        }
    }
    assert(s@.take(n as int) =~= s@);
    let ghost d0 = done@;
    done.push(cur);
    assert(views(done@) =~= views(d0).push(views(done@).last()));
    done
}

/// The two items of `s.splitn(2, c)`: the part before the first `c`, and the
/// part after it if `c` occurs.
pub fn split_once_chars(s: &[char], c: char) -> (res: (Vec<char>, Option<Vec<char>>))
    ensures
        res.0@ == spec_split_once(s@, c).0,
        res.1 is Some == spec_split_once(s@, c).1 is Some,
        res.1 matches Some(b) ==> b@ == spec_split_once(s@, c).1->0,
{
    let n = s.len();
    let mut i: usize = 0;
    assert(s@.skip(0) =~= s@);
    assert(s@.take(0) + spec_split_once(s@, c).0 =~= spec_split_once(s@, c).0);
    while i < n && s[i] != c
        invariant
            n == s@.len(),
            i <= n,
            forall|k: int| 0 <= k < i ==> s@[k] != c,
            spec_split_once(s@, c) == (s@.take(i as int) + spec_split_once(s@.skip(i as int), c).0,
            spec_split_once(s@.skip(i as int), c).1),
        decreases n - i,
    {
        let ghost rest = s@.skip(i as int);
        assert(rest.drop_first() =~= s@.skip(i + 1));
        assert(s@.take(i as int) + seq![s@[i as int]] =~= s@.take(i + 1));
        i = i + 1;
    }
    let before = sub_chars(s, 0, i);
    if i < n {
        let after = sub_chars(s, i + 1, n);
        assert(s@.skip(i as int).drop_first() =~= s@.subrange(i + 1, n as int));
        assert(s@.take(i as int) + Seq::<char>::empty() =~= s@.take(i as int));
        assert(before@ =~= s@.take(i as int));
        (before, Some(after))
    } else {
        assert(s@.skip(i as int) =~= Seq::<char>::empty());
        assert(s@.take(i as int) + Seq::<char>::empty() =~= s@.take(i as int));
        assert(before@ =~= s@.take(i as int));
        (before, None)
    }
}

/// The pieces of `parts` with `sep` between neighbours (`join`).
pub fn join_chars(parts: &Vec<Vec<char>>, sep: &[char]) -> (res: Vec<char>)
    ensures
        res@ == spec_join(views(parts@), sep@),
{
    let n = parts.len();
    let mut out: Vec<char> = Vec::new();
    assert(views(parts@).take(0) =~= Seq::<Seq<char>>::empty());
    for i in 0..n
        invariant
            n == parts@.len(),
            out@ == spec_join(views(parts@).take(i as int), sep@),
    {
        let ghost before = out@;
        let ghost t = views(parts@).take(i + 1);
        assert(t.drop_last() =~= views(parts@).take(i as int));
        assert(t.last() == parts@[i as int]@);
        if i > 0 {
            out.extend_from_slice(sep);
        }
        out.extend_from_slice(parts[i].as_slice());
        if i == 0 {
            assert(out@ =~= t[0]);
        } else {
            assert(out@ =~= before + sep@ + t.last());
        }
    }
    assert(views(parts@).take(n as int) =~= views(parts@));
    out
}

/// `s` without the prefix `p`, if it starts with `p` (`str::strip_prefix`).
pub fn strip_prefix_chars(s: &[char], p: &[char]) -> (res: Option<Vec<char>>)
    ensures
        res is Some == p@.is_prefix_of(s@),
        res matches Some(t) ==> t@ == s@.skip(p@.len() as int),
{
    if p.len() <= s.len() && matches_at(s, 0, p) {
        assert(s@.subrange(0, p@.len() as int) =~= s@.take(p@.len() as int));
        let t = sub_chars(s, p.len(), s.len());
        assert(t@ =~= s@.skip(p@.len() as int));
        Some(t)
    } else {
        proof {
            if p@.len() <= s@.len() {
                assert(s@.subrange(0, p@.len() as int) =~= s@.take(p@.len() as int));
            }
        }
        None
    }
}

/// Whether `c` is white space (`char::is_whitespace`).
pub fn char_is_white(c: char) -> (res: bool)
    ensures
        res == is_white(c),
{
    let n = c as u32;
    (0x09 <= n && n <= 0x0d) || n == 0x20 || n == 0x85 || n == 0xa0 || n == 0x1680 || (0x2000
        <= n && n <= 0x200a) || n == 0x2028 || n == 0x2029 || n == 0x202f || n == 0x205f || n
        == 0x3000
}

/// `s` without its leading and trailing white space (`str::trim`).
pub fn trim_chars(s: &[char]) -> (res: Vec<char>)
    ensures
        res@ == spec_trim(s@),
{
    let n = s.len();
    let mut i: usize = 0;
    assert(s@.skip(0) =~= s@);
    while i < n && char_is_white(s[i])
        invariant
            n == s@.len(),
            i <= n,
            lead_white(s@) == i + lead_white(s@.skip(i as int)),
        decreases n - i,
    {
        assert(s@.skip(i as int).drop_first() =~= s@.skip(i + 1));
        assert(s@.skip(i as int)[0] == s@[i as int]);
        i = i + 1;
    }
    if i < n {
        assert(s@.skip(i as int)[0] == s@[i as int]);
    }
    assert(lead_white(s@.skip(i as int)) == 0);
    let ghost t = s@.skip(i as int);
    let mut j: usize = n;
    assert(t.take(t.len() as int) =~= t);
    while j > i && char_is_white(s[j - 1])
        invariant
            n == s@.len(),
            i <= j <= n,
            t == s@.skip(i as int),
            trail_white(t) == (n - j) + trail_white(t.take(j - i)),
        decreases j,
    {
        let ghost u = t.take(j - i);
        assert(u.drop_last() =~= t.take(j - 1 - i));
        assert(u.last() == s@[j - 1]);
        j = j - 1;
    }
    if j > i {
        assert(t.take(j - i).last() == s@[j - 1]);
    }
    assert(trail_white(t.take(j - i)) == 0);
    let res = sub_chars(s, i, j);
    assert(res@ =~= t.take(t.len() - trail_white(t)));
    res
}

/// Whether `s.trim()` is empty.
pub fn chars_blank(s: &[char]) -> (res: bool)
    ensures
        res == is_blank(s@),
{
    let n = s.len();
    for i in 0..n
        invariant
            n == s@.len(),
            forall|k: int| 0 <= k < i ==> is_white(#[trigger] s@[k]),
    {
        if !char_is_white(s[i]) {
            return false;
        }
    }
    true
}

/// Converts a sequence of character vectors into strings.
pub fn strings_of(v: &Vec<Vec<char>>) -> (res: Vec<String>)
    ensures
        res@.len() == v@.len(),
        forall|i: int| 0 <= i < v@.len() ==> (#[trigger] res@[i])@ == v@[i]@,
{
    let mut out: Vec<String> = Vec::new();
    for i in 0..v.len()
        invariant
            out@.len() == i,
            forall|k: int| 0 <= k < i ==> (#[trigger] out@[k])@ == v@[k]@,
    {
        out.push(string_of(v[i].as_slice()));
    }
    out
}

} // verus!
