//! Character-level helpers: whitespace, trimming and code-fence removal.
use vstd::prelude::*;

verus! {

/// Unicode `White_Space`, the set that `char::is_whitespace` and `str::trim` use.
pub open spec fn is_space(c: char) -> bool {
    ('\u{9}' <= c && c <= '\u{d}') || c == ' ' || c == '\u{85}' || c == '\u{a0}'
        || c == '\u{1680}' || ('\u{2000}' <= c && c <= '\u{200a}') || c == '\u{2028}'
        || c == '\u{2029}' || c == '\u{202f}' || c == '\u{205f}' || c == '\u{3000}'
}

pub open spec fn trim_start(s: Seq<char>) -> Seq<char>
    decreases s.len(),
{
    if s.len() > 0 && is_space(s[0]) {
        trim_start(s.drop_first())
    } else {
        s
    }
}

pub open spec fn trim_end(s: Seq<char>) -> Seq<char>
    decreases s.len(),
{
    if s.len() > 0 && is_space(s.last()) {
        trim_end(s.drop_last())
    } else {
        s
    }
}

/// Leading and trailing whitespace removed.
pub open spec fn trim(s: Seq<char>) -> Seq<char> {
    trim_end(trim_start(s))
}

pub open spec fn starts_with(s: Seq<char>, p: Seq<char>) -> bool {
    p.len() <= s.len() && s.subrange(0, p.len() as int) == p
}

pub open spec fn ends_with(s: Seq<char>, p: Seq<char>) -> bool {
    p.len() <= s.len() && s.subrange(s.len() - p.len(), s.len() as int) == p
}

/// The fence marker: three backticks.
pub open spec fn fence() -> Seq<char> {
    seq!['`', '`', '`']
}

/// The fence marker followed by the `json` language tag.
pub open spec fn json_fence() -> Seq<char> {
    fence() + seq!['j', 's', 'o', 'n']
}

/// Trimmed text with one opening fence (tagged `json` or not) and one closing
/// fence removed, trimmed again.
pub open spec fn strip_fences(s: Seq<char>) -> Seq<char> {
    let t = trim(s);
    let u = if starts_with(t, json_fence()) {
        t.skip(7)
    } else if starts_with(t, fence()) {
        t.skip(3)
    } else {
        t
    };
    let v = if ends_with(u, fence()) {
        u.take(u.len() - 3)
    } else {
        u
    };
    trim(v)
}

pub fn is_whitespace(c: char) -> (r: bool)
    ensures
        r == is_space(c),
{
    ('\u{9}' <= c && c <= '\u{d}') || c == ' ' || c == '\u{85}' || c == '\u{a0}'
        || c == '\u{1680}' || ('\u{2000}' <= c && c <= '\u{200a}') || c == '\u{2028}'
        || c == '\u{2029}' || c == '\u{202f}' || c == '\u{205f}' || c == '\u{3000}'
}

/// Relies on `str::chars`: the characters of `s`, in order.
#[verifier::external_body]
pub(crate) fn chars_of(s: &str) -> (r: Vec<char>)
    ensures
        r@ == s@,
{
    s.chars().collect()
}

/// Relies on `String::from_iter` over characters: the string of `v`, in order.
#[verifier::external_body]
pub(crate) fn string_of(v: &Vec<char>) -> (r: String)
    ensures
        r@ == v@,
{
    v.iter().collect()
}

proof fn lemma_trim_start_step(s: Seq<char>, i: int)
    requires
        0 <= i < s.len(),
        is_space(s[i]),
    ensures
        trim_start(s.subrange(i, s.len() as int)) == trim_start(s.subrange(i + 1, s.len() as int)),
{
    assert(s.subrange(i, s.len() as int).drop_first() =~= s.subrange(i + 1, s.len() as int));
}

proof fn lemma_trim_end_step(s: Seq<char>, j: int)
    requires
        0 < j <= s.len(),
        is_space(s[j - 1]),
    ensures
        trim_end(s.subrange(0, j)) == trim_end(s.subrange(0, j - 1)),
{
    assert(s.subrange(0, j).drop_last() =~= s.subrange(0, j - 1));
}

/// The first index in `[from, to)` of `v` that is not whitespace, or `to`.
pub(crate) fn skip_spaces(v: &Vec<char>, from: usize, to: usize) -> (r: usize)
    requires
        from <= to <= v@.len(),
    ensures
        from <= r <= to,
        v@.subrange(r as int, to as int) == trim_start(v@.subrange(from as int, to as int)),
{
    let ghost s = v@.subrange(from as int, to as int);
    let mut i: usize = from;
    while i < to && is_whitespace(v[i])
        invariant
            from <= i <= to <= v@.len(),
            s == v@.subrange(from as int, to as int),
            trim_start(s) == trim_start(v@.subrange(i as int, to as int)),
        decreases to - i,
    {
        proof {
            lemma_trim_start_step(v@.subrange(0, to as int), i as int);
            assert(v@.subrange(0, to as int).subrange(i as int, to as int) =~= v@.subrange(i as int, to as int));
            assert(v@.subrange(0, to as int).subrange(i + 1, to as int) =~= v@.subrange(i + 1, to as int));
        }
        i = i + 1;
    }
    proof {
        let w = v@.subrange(i as int, to as int);
        if w.len() > 0 {
            assert(w[0] == v@[i as int]);
        }
        assert(trim_start(w) == w);
    }
    i
}

/// The bounds `[start, end)` of `trim(v@)` inside `v`.
pub(crate) fn trim_bounds(v: &Vec<char>, from: usize, to: usize) -> (r: (usize, usize))
    requires
        from <= to <= v@.len(),
    ensures
        from <= r.0 <= r.1 <= to,
        v@.subrange(r.0 as int, r.1 as int) == trim(v@.subrange(from as int, to as int)),
{
    let ghost s = v@.subrange(from as int, to as int);
    let i = skip_spaces(v, from, to);
    let mut j: usize = to;
    while j > i && is_whitespace(v[j - 1])
        invariant
            from <= i <= j <= to <= v@.len(),
            trim(s) == trim_end(v@.subrange(i as int, j as int)),
        decreases j - i,
    {
        proof {
            let w = v@.subrange(i as int, to as int);
            lemma_trim_end_step(w, j - i);
            assert(w.subrange(0, j - i) =~= v@.subrange(i as int, j as int));
            assert(w.subrange(0, j - i - 1) =~= v@.subrange(i as int, j - 1));
        }
        j = j - 1;
    }
    proof {
        let w = v@.subrange(i as int, j as int);
        if w.len() > 0 {
            assert(w.last() == v@[j - 1]);
        }
        assert(trim_end(w) == w);
    }
    (i, j)
}

proof fn lemma_trim_start_shape(s: Seq<char>)
    ensures
        trim_start(s).len() == 0 || !is_space(trim_start(s)[0]),
    decreases s.len(),
{
    if s.len() > 0 && is_space(s[0]) {
        lemma_trim_start_shape(s.drop_first());
    }
}

proof fn lemma_trim_end_shape(s: Seq<char>)
    ensures
        trim_end(s).len() <= s.len(),
        trim_end(s) == s.take(trim_end(s).len() as int),
        trim_end(s).len() == 0 || !is_space(trim_end(s).last()),
    decreases s.len(),
{
    if s.len() > 0 && is_space(s.last()) {
        lemma_trim_end_shape(s.drop_last());
        let r = trim_end(s.drop_last());
        assert(s.drop_last().take(r.len() as int) =~= s.take(r.len() as int));
    } else {
        assert(s.take(s.len() as int) =~= s);
    }
}

/// What `trim` returns begins and ends with a non-space character, or is empty.
proof fn lemma_trim_shape(s: Seq<char>)
    ensures
        trim(s).len() == 0 || (!is_space(trim(s)[0]) && !is_space(trim(s).last())),
{
    lemma_trim_start_shape(s);
    lemma_trim_end_shape(trim_start(s));
    let r = trim(s);
    if r.len() > 0 {
        assert(r[0] == trim_start(s).take(r.len() as int)[0]);
    }
}

/// Trimming twice is trimming once.
pub proof fn lemma_trim_idempotent(s: Seq<char>)
    ensures
        trim(trim(s)) == trim(s),
{
    lemma_trim_shape(s);
}

/// Removing code fences a second time changes nothing, unless the first pass
/// left text that itself begins or ends with a fence marker.
pub proof fn lemma_strip_fences_idempotent(s: Seq<char>)
    requires
        !starts_with(strip_fences(s), fence()),
        !ends_with(strip_fences(s), fence()),
    ensures
        strip_fences(strip_fences(s)) == strip_fences(s),
{
    let r = strip_fences(s);
    lemma_trim_shape(r);
    assert(trim(r) == r) by {
        let v = {
            let t = trim(s);
            let u = if starts_with(t, json_fence()) {
                t.skip(7)
            } else if starts_with(t, fence()) {
                t.skip(3)
            } else {
                t
            };
            if ends_with(u, fence()) {
                u.take(u.len() - 3)
            } else {
                u
            }
        };
        lemma_trim_idempotent(v);
    }
    if starts_with(r, json_fence()) {
        assert(r.subrange(0, 3) =~= r.subrange(0, 7).subrange(0, 3));
        assert(json_fence().subrange(0, 3) =~= fence());
    }
}

fn fence_at(v: &Vec<char>, i: usize) -> (r: bool)
    requires
        i + 3 <= v.len(),
    ensures
        r == (v@.subrange(i as int, i + 3) == fence()),
{
    let r = v[i] == '`' && v[i + 1] == '`' && v[i + 2] == '`';
    proof {
        if r {
            assert(v@.subrange(i as int, i + 3) =~= fence());
        } else if v@.subrange(i as int, i + 3) == fence() {
            assert(v@.subrange(i as int, i + 3)[0] == '`');
            assert(v@.subrange(i as int, i + 3)[1] == '`');
            assert(v@.subrange(i as int, i + 3)[2] == '`');
        }
    }
    r
}

fn json_fence_at(v: &Vec<char>, i: usize) -> (r: bool)
    requires
        i + 7 <= v.len(),
    ensures
        r == (v@.subrange(i as int, i + 7) == json_fence()),
{
    let r = fence_at(v, i) && v[i + 3] == 'j' && v[i + 4] == 's' && v[i + 5] == 'o' && v[
        i + 6] == 'n';
    proof {
        let w = v@.subrange(i as int, i + 7);
        if r {
            assert(w =~= json_fence());
        } else if w == json_fence() {
            assert(w.subrange(0, 3) =~= v@.subrange(i as int, i + 3));
            assert(json_fence().subrange(0, 3) =~= fence());
            assert(w[3] == 'j' && w[4] == 's' && w[5] == 'o' && w[6] == 'n');
        }
    }
    r
}

/// Removes a code fence from each end of a generated reply: trims, drops one
/// opening ```` ```json ```` or ```` ``` ```` marker and one closing ```` ``` ````
/// marker, and trims again.
pub fn strip_code_fences(s: &str) -> (r: &str)
    ensures
        r@ == strip_fences(s@),
{
    let v = chars_of(s);
    let n = v.len();
    let (a, b) = trim_bounds(&v, 0, n);
    let ghost t = v@.subrange(a as int, b as int);
    proof {
        assert(v@.subrange(0, n as int) =~= v@);
    }
    let c: usize = if b - a >= 7 && json_fence_at(&v, a) {
        proof {
            assert(t.subrange(0, 7) =~= v@.subrange(a as int, a + 7));
        }
        a + 7
    } else if b - a >= 3 && fence_at(&v, a) {
        proof {
            assert(t.subrange(0, 3) =~= v@.subrange(a as int, a + 3));
            if t.len() >= 7 {
                assert(t.subrange(0, 7) != json_fence()) by {
                    assert(t.subrange(0, 7) =~= v@.subrange(a as int, a + 7));
                }
            }
        }
        a + 3
    } else {
        proof {
            if t.len() >= 7 {
                assert(t.subrange(0, 7) =~= v@.subrange(a as int, a + 7));
            }
            if t.len() >= 3 {
                assert(t.subrange(0, 3) =~= v@.subrange(a as int, a + 3));
            }
        }
        a
    };
    let ghost u = v@.subrange(c as int, b as int);
    proof {
        if starts_with(t, json_fence()) {
            assert(u =~= t.skip(7));
        } else if starts_with(t, fence()) {
            assert(u =~= t.skip(3));
        } else {
            assert(u =~= t);
        }
    }
    let d: usize = if b - c >= 3 && fence_at(&v, b - 3) {
        proof {
            assert(u.subrange(u.len() - 3, u.len() as int) =~= v@.subrange(b - 3, b as int));
        }
        b - 3
    } else {
        proof {
            if u.len() >= 3 {
                assert(u.subrange(u.len() - 3, u.len() as int) =~= v@.subrange(b - 3, b as int));
            }
        }
        b
    };
    proof {
        if ends_with(u, fence()) {
            assert(v@.subrange(c as int, d as int) =~= u.take(u.len() - 3));
        } else {
            assert(v@.subrange(c as int, d as int) =~= u);
        }
    }
    let (e, f) = trim_bounds(&v, c, d);
    s.substring_char(e, f)
}

} // verus!
