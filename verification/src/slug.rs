//! URL slugs: lowercase words of letters and digits joined by single dashes.

use vstd::prelude::*;
use crate::text::{
    alphanumeric, ascii_char, ascii_lower, ascii_lower_char, ascii_text, ascii_upper, ascii_upper_char,
    is_alphanumeric, lowercase, string_from_range, to_lowercase,
};

verus! {

/// A character that belongs to a word of a slug: a letter or a digit. (The
/// dash is neither; spelling it out keeps every fact about slugs free of how
/// `alphanumeric` is stated.)
pub open spec fn word_char(c: char) -> bool {
    alphanumeric(c) && c != '-'
}

/// One step of the left-to-right scan that builds a slug: the text built so
/// far and whether it was just extended by a dash.
pub open spec fn slug_step(acc: (Seq<char>, bool), c: char) -> (Seq<char>, bool) {
    if word_char(c) {
        (acc.0.push(c), false)
    } else if !acc.1 && acc.0.len() > 0 {
        (acc.0.push('-'), true)
    } else {
        acc
    }
}

/// The scan over the whole of `t`: letters and digits are kept, and each run of
/// other characters that follows something kept becomes one dash.
pub open spec fn slug_scan(t: Seq<char>) -> (Seq<char>, bool)
    decreases t.len(),
{
    if t.len() == 0 {
        (Seq::empty(), false)
    } else {
        slug_step(slug_scan(t.drop_last()), t.last())
    }
}

/// `s` without its trailing dashes.
pub open spec fn strip_trailing_dashes(s: Seq<char>) -> Seq<char>
    decreases s.len(),
{
    if s.len() > 0 && s.last() == '-' {
        strip_trailing_dashes(s.drop_last())
    } else {
        s
    }
}

/// The slug of an already lowercased text.
pub open spec fn slug_of_text(t: Seq<char>) -> Seq<char> {
    strip_trailing_dashes(slug_scan(t).0)
}

/// The slug of a title or name, as `slugify` computes it.
pub open spec fn spec_slugify(s: Seq<char>) -> Seq<char> {
    slug_of_text(lowercase(s))
}

/// The characters of `s` other than dashes, in order.
pub open spec fn without_dashes(s: Seq<char>) -> Seq<char>
    decreases s.len(),
{
    if s.len() == 0 {
        s
    } else if s.last() == '-' {
        without_dashes(s.drop_last())
    } else {
        without_dashes(s.drop_last()).push(s.last())
    }
}

/// The letters and digits of `t`, in order.
pub open spec fn alphanumerics_of(t: Seq<char>) -> Seq<char>
    decreases t.len(),
{
    if t.len() == 0 {
        t
    } else if word_char(t.last()) {
        alphanumerics_of(t.drop_last()).push(t.last())
    } else {
        alphanumerics_of(t.drop_last())
    }
}

/// A slug holds only letters, digits and dashes, neither starts nor ends with a
/// dash, and never holds two dashes in a row.
pub open spec fn slug_shaped(s: Seq<char>) -> bool {
    &&& forall|k: int| 0 <= k < s.len() ==> s[k] == '-' || word_char(#[trigger] s[k])
    &&& s.len() > 0 ==> s[0] != '-' && s.last() != '-'
    &&& forall|k: int| 0 <= k < s.len() - 1 ==> !(#[trigger] s[k] == '-' && s[k + 1] == '-')
}

/// The words of `t`: its maximal runs of letters and digits, in order.
pub open spec fn words(t: Seq<char>) -> Seq<Seq<char>>
    decreases t.len(),
{
    if t.len() == 0 {
        Seq::empty()
    } else {
        let w = words(t.drop_last());
        let c = t.last();
        if !word_char(c) {
            w
        } else if t.len() > 1 && word_char(t[t.len() - 2]) {
            w.update(w.len() - 1, w.last().push(c))
        } else {
            w.push(seq![c])
        }
    }
}

/// The words of `ws` with a single dash between each two of them.
pub open spec fn join_with_dashes(ws: Seq<Seq<char>>) -> Seq<char>
    decreases ws.len(),
{
    if ws.len() == 0 {
        Seq::empty()
    } else if ws.len() == 1 {
        ws[0]
    } else {
        join_with_dashes(ws.drop_last()) + seq!['-'] + ws.last()
    }
}

/// Every word is non-empty and made of letters and digits.
pub open spec fn proper_words(ws: Seq<Seq<char>>) -> bool {
    forall|i: int| 0 <= i < ws.len() ==> {
        &&& (#[trigger] ws[i]).len() > 0
        &&& forall|k: int| 0 <= k < ws[i].len() ==> word_char(#[trigger] ws[i][k])
    }
}

proof fn lemma_scan(t: Seq<char>)
    ensures
        slug_scan(t).1 == (slug_scan(t).0.len() > 0 && slug_scan(t).0.last() == '-'),
        forall|k: int|
            0 <= k < slug_scan(t).0.len() ==> slug_scan(t).0[k] == '-' || word_char(
                #[trigger] slug_scan(t).0[k],
            ),
        slug_scan(t).0.len() > 0 ==> slug_scan(t).0[0] != '-',
        forall|k: int|
            0 <= k < slug_scan(t).0.len() - 1 ==> !(#[trigger] slug_scan(t).0[k] == '-'
                && slug_scan(t).0[k + 1] == '-'),
        without_dashes(slug_scan(t).0) == alphanumerics_of(t),
    decreases t.len(),
{
    if t.len() > 0 {
        let p = t.drop_last();
        lemma_scan(p);
        let o = slug_scan(p).0;
        let c = t.last();
        if word_char(c) {
            assert(o.push(c).drop_last() =~= o);
        } else if !slug_scan(p).1 && o.len() > 0 {
            assert(o.push('-').drop_last() =~= o);
        }
    }
}

proof fn lemma_strip(s: Seq<char>)
    ensures
        strip_trailing_dashes(s).len() <= s.len(),
        strip_trailing_dashes(s) =~= s.take(strip_trailing_dashes(s).len() as int),
        forall|k: int|
            strip_trailing_dashes(s).len() <= k < s.len() ==> #[trigger] s[k] == '-',
        strip_trailing_dashes(s).len() > 0 ==> strip_trailing_dashes(s).last() != '-',
        without_dashes(strip_trailing_dashes(s)) == without_dashes(s),
    decreases s.len(),
{
    if s.len() > 0 && s.last() == '-' {
        lemma_strip(s.drop_last());
        let r = strip_trailing_dashes(s.drop_last());
        assert(s.drop_last().take(r.len() as int) =~= s.take(r.len() as int));
        assert forall|k: int| r.len() <= k < s.len() implies #[trigger] s[k] == '-' by {
            if k < s.len() - 1 {
                assert(s[k] == s.drop_last()[k]);
            }
        }
    } else {
        assert(s.take(s.len() as int) =~= s);
    }
}

/// The slug of a lowercased text is slug-shaped, and its letters and digits
/// are exactly those of the text, in order.
proof fn lemma_slug_of_text(t: Seq<char>)
    ensures
        slug_shaped(slug_of_text(t)),
        without_dashes(slug_of_text(t)) == alphanumerics_of(t),
{
    lemma_scan(t);
    let o = slug_scan(t).0;
    lemma_strip(o);
    let r = slug_of_text(t);
    assert forall|k: int| 0 <= k < r.len() implies r[k] == '-' || word_char(#[trigger] r[k]) by {
        assert(r[k] == o[k]);
    }
    assert forall|k: int| 0 <= k < r.len() - 1 implies !(#[trigger] r[k] == '-' && r[k + 1] == '-') by {
        assert(r[k] == o[k]);
        assert(r[k + 1] == o[k + 1]);
    }
    if r.len() > 0 {
        assert(r[0] == o[0]);
    }
}

proof fn lemma_join_last(ws: Seq<Seq<char>>)
    requires
        proper_words(ws),
    ensures
        ws.len() == 0 <==> join_with_dashes(ws).len() == 0,
        ws.len() > 0 ==> join_with_dashes(ws).last() == ws.last().last(),
    decreases ws.len(),
{
    if ws.len() > 1 {
        assert(proper_words(ws.drop_last()));
        lemma_join_last(ws.drop_last());
        assert(ws.last() == ws[ws.len() - 1]);
    } else if ws.len() == 1 {
        assert(ws[0].len() > 0);
    }
}

proof fn lemma_join_extend_last(ws: Seq<Seq<char>>, c: char)
    requires
        ws.len() > 0,
    ensures
        join_with_dashes(ws.update(ws.len() - 1, ws.last().push(c))) == join_with_dashes(ws).push(c),
{
    let u = ws.update(ws.len() - 1, ws.last().push(c));
    if ws.len() == 1 {
        assert(u[0] == ws[0].push(c));
    } else {
        assert(u.drop_last() =~= ws.drop_last());
        assert(u.last() == ws.last().push(c));
        assert(join_with_dashes(u) =~= join_with_dashes(ws).push(c));
    }
}

proof fn lemma_join_push_word(ws: Seq<Seq<char>>, w: Seq<char>)
    ensures
        ws.len() == 0 ==> join_with_dashes(ws.push(w)) == w,
        ws.len() > 0 ==> join_with_dashes(ws.push(w)) == join_with_dashes(ws) + seq!['-'] + w,
{
    assert(ws.push(w).drop_last() =~= ws);
    if ws.len() == 0 {
        assert(ws.push(w)[0] == w);
    }
}

/// The words of a text are non-empty runs of letters and digits, and a text
/// that ends in a letter or digit has at least one word.
proof fn lemma_words_proper(t: Seq<char>)
    ensures
        proper_words(words(t)),
        t.len() > 0 && word_char(t.last()) ==> words(t).len() > 0,
    decreases t.len(),
{
    if t.len() > 0 {
        let p = t.drop_last();
        let c = t.last();
        lemma_words_proper(p);
        let w = words(p);
        if word_char(c) {
            if t.len() > 1 && word_char(t[t.len() - 2]) {
                assert(p.last() == t[t.len() - 2]);
                let u = w.update(w.len() - 1, w.last().push(c));
                assert forall|i: int| 0 <= i < u.len() implies {
                    &&& (#[trigger] u[i]).len() > 0
                    &&& forall|k: int| 0 <= k < u[i].len() ==> word_char(#[trigger] u[i][k])
                } by {
                    if i == u.len() - 1 {
                        assert(u[i] == w[i].push(c));
                        assert forall|k: int| 0 <= k < u[i].len() implies word_char(#[trigger] u[i][k]) by {
                            if k < w[i].len() {
                                assert(u[i][k] == w[i][k]);
                            }
                        }
                    }
                }
            } else {
                let u = w.push(seq![c]);
                assert forall|i: int| 0 <= i < u.len() implies {
                    &&& (#[trigger] u[i]).len() > 0
                    &&& forall|k: int| 0 <= k < u[i].len() ==> word_char(#[trigger] u[i][k])
                } by {
                    if i < w.len() {
                        assert(u[i] == w[i]);
                    } else {
                        assert(u[i] == seq![c]);
                    }
                }
            }
        }
    }
}

/// The scan builds the words joined by dashes, followed by one pending dash
/// when other characters came after the last word.
proof fn lemma_scan_joins_words(t: Seq<char>)
    ensures
        slug_scan(t).1 == (t.len() > 0 && words(t).len() > 0 && !word_char(t.last())),
        slug_scan(t).0 == if slug_scan(t).1 {
            join_with_dashes(words(t)) + seq!['-']
        } else {
            join_with_dashes(words(t))
        },
    decreases t.len(),
{
    if t.len() > 0 {
        let p = t.drop_last();
        let c = t.last();
        lemma_scan_joins_words(p);
        lemma_words_proper(p);
        let w = words(p);
        lemma_join_last(w);
        if word_char(c) {
            if t.len() > 1 && word_char(t[t.len() - 2]) {
                assert(p.last() == t[t.len() - 2]);
                lemma_join_extend_last(w, c);
            } else {
                if p.len() > 0 {
                    assert(p.last() == t[t.len() - 2]);
                }
                lemma_join_push_word(w, seq![c]);
            }
        }
    }
}

/// The slug of a lowercased text is its words joined by single dashes.
proof fn lemma_slug_is_joined_words(t: Seq<char>)
    ensures
        slug_of_text(t) == join_with_dashes(words(t)),
{
    lemma_scan_joins_words(t);
    lemma_words_proper(t);
    let j = join_with_dashes(words(t));
    lemma_join_last(words(t));
    if words(t).len() > 0 {
        let lw = words(t).last();
        assert(lw == words(t)[words(t).len() - 1]);
        assert(lw.last() == lw[lw.len() - 1]);
        assert(j.last() != '-');
    }
    assert(strip_trailing_dashes(j) == j);
    if slug_scan(t).1 {
        let o = j + seq!['-'];
        assert(o.drop_last() =~= j);
        assert(o.last() == '-');
        assert(strip_trailing_dashes(o) == strip_trailing_dashes(j));
    }
}

/// Appending a word after a text that ends in a separator (or is empty) adds
/// that word to the text's words.
proof fn lemma_words_append_word(x: Seq<char>, w: Seq<char>)
    requires
        x.len() > 0 ==> !word_char(x.last()),
        w.len() > 0,
        forall|k: int| 0 <= k < w.len() ==> word_char(#[trigger] w[k]),
    ensures
        words(x + w) == words(x).push(w),
    decreases w.len(),
{
    if w.len() == 1 {
        assert((x + w).drop_last() =~= x);
        assert((x + w).last() == w[0]);
        assert(w =~= seq![w[0]]);
        if x.len() > 0 {
            assert((x + w)[(x + w).len() - 2] == x.last());
        }
    } else {
        let v = w.drop_last();
        assert forall|k: int| 0 <= k < v.len() implies word_char(#[trigger] v[k]) by {
            assert(v[k] == w[k]);
        }
        lemma_words_append_word(x, v);
        assert((x + w).drop_last() =~= x + v);
        assert((x + w)[(x + w).len() - 2] == w[w.len() - 2]);
        assert(word_char(w[w.len() - 2]));
        assert(word_char(w.last()));
        let ws = words(x).push(v);
        assert(v.push(w.last()) =~= w);
        assert(ws.last() == v);
        assert(ws.update(ws.len() - 1, ws.last().push(w.last())) =~= words(x).push(w));
    }
}

/// The words of the words joined by dashes are those words.
proof fn lemma_words_of_join(ws: Seq<Seq<char>>)
    requires
        proper_words(ws),
    ensures
        words(join_with_dashes(ws)) == ws,
    decreases ws.len(),
{
    if ws.len() == 0 {
        assert(words(Seq::<char>::empty()) == Seq::<Seq<char>>::empty());
    } else {
        let p = ws.drop_last();
        let w = ws.last();
        assert(proper_words(p));
        assert(w == ws[ws.len() - 1]);
        assert(forall|k: int| 0 <= k < w.len() ==> word_char(#[trigger] w[k]));
        lemma_join_push_word(p, w);
        assert(p.push(w) =~= ws);
        if p.len() == 0 {
            lemma_words_append_word(Seq::empty(), w);
            assert(Seq::<char>::empty() + w =~= w);
        } else {
            lemma_words_of_join(p);
            let x = join_with_dashes(p) + seq!['-'];
            assert(x.drop_last() =~= join_with_dashes(p));
            assert(words(x) == words(join_with_dashes(p)));
            lemma_words_append_word(x, w);
        }
    }
}

/// Slugging a slug gives it back: the slug of a lowercased text is its own
/// slug.
pub proof fn lemma_slug_idempotent(t: Seq<char>)
    ensures
        slug_of_text(slug_of_text(t)) == slug_of_text(t),
{
    lemma_slug_is_joined_words(t);
    lemma_words_proper(t);
    lemma_words_of_join(words(t));
    lemma_slug_is_joined_words(slug_of_text(t));
}

/// The words of a text made of a part that ends in a separator (or is empty)
/// followed by another part are the words of the two parts, in order.
proof fn lemma_words_concat(p: Seq<char>, q: Seq<char>)
    requires
        p.len() > 0 ==> !word_char(p.last()),
    ensures
        words(p + q) == words(p) + words(q),
    decreases q.len(),
{
    if q.len() == 0 {
        assert(p + q =~= p);
        assert(words(p) + words(q) =~= words(p));
    } else {
        let q1 = q.drop_last();
        let c = q.last();
        lemma_words_concat(p, q1);
        assert((p + q).drop_last() =~= p + q1);
        assert((p + q).last() == c);
        if word_char(c) {
            if q1.len() > 0 {
                assert((p + q)[(p + q).len() - 2] == q1.last());
                assert(q[q.len() - 2] == q1.last());
                if word_char(q1.last()) {
                    lemma_words_proper(q1);
                    let a = words(p);
                    let b = words(q1);
                    assert((a + b).update((a + b).len() - 1, (a + b).last().push(c)) =~= a + b.update(
                        b.len() - 1,
                        b.last().push(c),
                    ));
                } else {
                    assert(words(p) + words(q1).push(seq![c]) =~= (words(p) + words(q1)).push(seq![c]));
                }
            } else {
                assert(q1 =~= Seq::<char>::empty());
                assert(words(q1) =~= Seq::<Seq<char>>::empty());
                if p.len() > 0 {
                    assert((p + q)[(p + q).len() - 2] == p.last());
                }
                assert(words(p) + seq![seq![c]] =~= words(p).push(seq![c]));
            }
        }
    }
}

/// Which separator stands between two parts of a text does not change its
/// slug, and neither does repeating it: a space, an underscore, a dot or a dash
/// all give the same slug.
pub proof fn lemma_slug_separator_free(a: Seq<char>, b: Seq<char>, x: char, y: char)
    requires
        !word_char(x),
        !word_char(y),
    ensures
        slug_of_text(a + seq![x] + b) == slug_of_text(a + seq![y] + b),
        slug_of_text(a + seq![x, x] + b) == slug_of_text(a + seq![x] + b),
{
    let ax = a + seq![x];
    let ay = a + seq![y];
    let axx = a + seq![x, x];
    assert(ax.drop_last() =~= a);
    assert(ay.drop_last() =~= a);
    assert(axx.drop_last() =~= ax);
    assert(ax.last() == x);
    assert(ay.last() == y);
    assert(axx.last() == x);
    assert(words(ax) == words(a));
    assert(words(ay) == words(a));
    assert(words(axx) == words(ax));
    lemma_words_concat(ax, b);
    lemma_words_concat(ay, b);
    lemma_words_concat(axx, b);
    assert(a + seq![x] + b =~= ax + b);
    assert(a + seq![y] + b =~= ay + b);
    assert(a + seq![x, x] + b =~= axx + b);
    lemma_slug_is_joined_words(ax + b);
    lemma_slug_is_joined_words(ay + b);
    lemma_slug_is_joined_words(axx + b);
}

/// An ASCII character that lowercasing leaves as it is.
spec fn lower_ascii_char(c: char) -> bool {
    ascii_char(c) && !('A' <= c <= 'Z')
}

proof fn lemma_scan_keeps_lower_ascii(t: Seq<char>)
    requires
        forall|k: int| 0 <= k < t.len() ==> lower_ascii_char(#[trigger] t[k]),
    ensures
        forall|k: int| 0 <= k < slug_scan(t).0.len() ==> lower_ascii_char(#[trigger] slug_scan(t).0[k]),
    decreases t.len(),
{
    if t.len() > 0 {
        let p = t.drop_last();
        assert forall|k: int| 0 <= k < p.len() implies lower_ascii_char(#[trigger] p[k]) by {
            assert(p[k] == t[k]);
        }
        lemma_scan_keeps_lower_ascii(p);
        assert(lower_ascii_char(t[t.len() - 1]));
        assert(t.last() == t[t.len() - 1]);
        assert(lower_ascii_char('-'));
        let acc = slug_scan(p);
        let out = slug_scan(t).0;
        assert(slug_scan(t) == slug_step(acc, t.last()));
        assert forall|k: int| 0 <= k < out.len() implies lower_ascii_char(#[trigger] out[k]) by {
            if k < acc.0.len() {
                assert(out[k] == acc.0[k]);
            }
        }
    }
}

proof fn lemma_strip_is_prefix(s: Seq<char>)
    ensures
        strip_trailing_dashes(s).len() <= s.len(),
        forall|k: int|
            0 <= k < strip_trailing_dashes(s).len() ==> #[trigger] strip_trailing_dashes(s)[k] == s[k],
    decreases s.len(),
{
    if s.len() > 0 && s.last() == '-' {
        lemma_strip_is_prefix(s.drop_last());
    }
}

/// The slug of an ASCII text is ASCII and holds no capital letter, so
/// lowercasing leaves it as it is.
proof fn lemma_ascii_slug_is_lowercase(s: Seq<char>)
    requires
        ascii_text(s),
    ensures
        ascii_text(spec_slugify(s)),
        lowercase(spec_slugify(s)) == spec_slugify(s),
{
    let l = ascii_lower(s);
    assert forall|k: int| 0 <= k < l.len() implies lower_ascii_char(#[trigger] l[k]) by {
        assert(ascii_char(s[k]));
    }
    lemma_scan_keeps_lower_ascii(l);
    lemma_strip_is_prefix(slug_scan(l).0);
    let t = spec_slugify(s);
    assert(forall|k: int| 0 <= k < t.len() ==> lower_ascii_char(#[trigger] t[k]));
    assert(ascii_lower(t) =~= t);
}

/// Slugging a slug gives it back: for an ASCII text, the slug of its slug is
/// its slug.
pub proof fn lemma_slugify_idempotent_ascii(s: Seq<char>)
    requires
        ascii_text(s),
    ensures
        spec_slugify(spec_slugify(s)) == spec_slugify(s),
{
    lemma_ascii_slug_is_lowercase(s);
    lemma_slug_idempotent(lowercase(s));
}

/// Letter case does not matter: an ASCII text, its uppercase and its lowercase
/// form have the same slug.
pub proof fn lemma_slugify_ascii_case(s: Seq<char>)
    requires
        ascii_text(s),
    ensures
        spec_slugify(ascii_upper(s)) == spec_slugify(s),
        spec_slugify(ascii_lower(s)) == spec_slugify(s),
{
    let u = ascii_upper(s);
    let l = ascii_lower(s);
    assert forall|k: int| 0 <= k < u.len() implies ascii_char(#[trigger] u[k]) by {
        assert(ascii_char(s[k]));
    }
    assert forall|k: int| 0 <= k < l.len() implies ascii_char(#[trigger] l[k]) by {
        assert(ascii_char(s[k]));
    }
    assert forall|k: int| 0 <= k < s.len() implies #[trigger] ascii_lower_char(ascii_upper_char(s[k]))
        == ascii_lower_char(s[k]) by {
        assert(ascii_char(s[k]));
    }
    assert(ascii_lower(u) =~= l);
    assert(ascii_lower(l) =~= l);
}

/// Which ASCII separator stands between two parts of an ASCII text does not
/// change its slug, and neither does repeating it: `a b`, `a_b`, `a.b`, `a/b`,
/// `a-b` and `a__b` all give `a-b`.
pub proof fn lemma_slugify_ascii_separators(a: Seq<char>, b: Seq<char>, x: char, y: char)
    requires
        ascii_text(a),
        ascii_text(b),
        ascii_char(x),
        ascii_char(y),
        !alphanumeric(x),
        !alphanumeric(y),
    ensures
        spec_slugify(a + seq![x] + b) == spec_slugify(a + seq![y] + b),
        spec_slugify(a + seq![x, x] + b) == spec_slugify(a + seq![x] + b),
{
    let la = ascii_lower(a);
    let lb = ascii_lower(b);
    let sx = a + seq![x] + b;
    let sy = a + seq![y] + b;
    let sxx = a + seq![x, x] + b;
    assert forall|k: int| 0 <= k < sx.len() implies ascii_char(#[trigger] sx[k]) by {
        if k < a.len() {
            assert(ascii_char(a[k]));
        } else if k > a.len() {
            assert(ascii_char(b[k - a.len() - 1]));
        }
    }
    assert forall|k: int| 0 <= k < sy.len() implies ascii_char(#[trigger] sy[k]) by {
        if k < a.len() {
            assert(ascii_char(a[k]));
        } else if k > a.len() {
            assert(ascii_char(b[k - a.len() - 1]));
        }
    }
    assert forall|k: int| 0 <= k < sxx.len() implies ascii_char(#[trigger] sxx[k]) by {
        if k < a.len() {
            assert(ascii_char(a[k]));
        } else if k > a.len() + 1 {
            assert(ascii_char(b[k - a.len() - 2]));
        }
    }
    assert(ascii_lower(sx) =~= la + seq![x] + lb);
    assert(ascii_lower(sy) =~= la + seq![y] + lb);
    assert(ascii_lower(sxx) =~= la + seq![x, x] + lb);
    lemma_slug_separator_free(la, lb, x, y);
}


/// The slug of a text that is already lowercase: letters and digits are kept,
/// each run of other characters between two of them becomes a single dash,
/// and nothing else is kept.
pub fn slug_of_lowercase(t: &str) -> (r: String)
    ensures
        r@ == slug_of_text(t@),
        r@ == join_with_dashes(words(t@)),
        slug_shaped(r@),
        without_dashes(r@) == alphanumerics_of(t@),
{
    let mut out: Vec<char> = Vec::new();
    let mut prev_dash = false;
    for c in it: t.chars()
        invariant
            it.seq() == t@,
            (out@, prev_dash) == slug_scan(it.seq().take(it.index())),
    {
        let ghost before = it.seq().take(it.index());
        let ghost after = it.seq().take(it.index() + 1);
        proof {
            assert(after.drop_last() =~= before);
            assert(after.last() == c);
        }
        let keep = is_alphanumeric(c);
        if keep {
            out.push(c);
            prev_dash = false;
        } else if !prev_dash && out.len() > 0 {
            out.push('-');
            prev_dash = true;
        }
    }
    proof {
        assert(t@.take(t@.len() as int) =~= t@);
        assert(out@.take(out@.len() as int) =~= out@);
    }
    assert(out@ == slug_scan(t@).0);
    let mut n = out.len();
    while n > 0 && out[n - 1] == '-'
        invariant
            n <= out@.len(),
            strip_trailing_dashes(slug_scan(t@).0) == strip_trailing_dashes(out@.take(n as int)),
        decreases n,
    {
        proof {
            assert(out@.take(n as int).drop_last() =~= out@.take(n - 1));
        }
        n = n - 1;
    }
    proof {
        lemma_slug_of_text(t@);
        lemma_slug_is_joined_words(t@);
    }
    string_from_range(&out, 0, n)
}

/// Turns a title or a directory name into a URL slug: the text is lowercased,
/// then letters and digits are kept, each run of other characters between two
/// of them becomes a single dash, and nothing else is kept.
pub fn slugify(s: &str) -> (r: String)
    ensures
        r@ == spec_slugify(s@),
        r@ == join_with_dashes(words(lowercase(s@))),
        slug_shaped(r@),
        without_dashes(r@) == alphanumerics_of(lowercase(s@)),
{
    let lower = to_lowercase(s);
    slug_of_lowercase(lower.as_str())
}

} // verus!
