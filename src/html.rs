//! Lyrics extraction from a song page's HTML.
use vstd::prelude::*;
use crate::text::{chars_of, string_of, trim, trim_start, trim_bounds, skip_spaces};

verus! {

/// `p` occurs in `s` at index `i`.
pub open spec fn occurs_at(s: Seq<char>, i: int, p: Seq<char>) -> bool {
    0 <= i && i + p.len() <= s.len() && s.subrange(i, i + p.len()) == p
}

/// The first index at or after `i` where `p` occurs in `s`.
pub open spec fn find_from(s: Seq<char>, p: Seq<char>, i: int) -> Option<int>
    decreases s.len() + 1 - i,
{
    if i < 0 || i + p.len() > s.len() {
        None
    } else if occurs_at(s, i, p) {
        Some(i)
    } else {
        find_from(s, p, i + 1)
    }
}

pub open spec fn amp() -> Seq<char> { seq!['&', 'a', 'm', 'p', ';'] }
pub open spec fn lt() -> Seq<char> { seq!['&', 'l', 't', ';'] }
pub open spec fn gt() -> Seq<char> { seq!['&', 'g', 't', ';'] }
pub open spec fn quot() -> Seq<char> { seq!['&', 'q', 'u', 'o', 't', ';'] }
pub open spec fn apos() -> Seq<char> { seq!['&', 'a', 'p', 'o', 's', ';'] }
pub open spec fn hex_apos() -> Seq<char> { seq!['&', '#', 'x', '2', '7', ';'] }
pub open spec fn dec_apos() -> Seq<char> { seq!['&', '#', '3', '9', ';'] }

/// The entity at index `i`, as its length and the character it stands for;
/// the first entry of the table that matches wins.
pub open spec fn entity_at(s: Seq<char>, i: int) -> Option<(int, char)> {
    if occurs_at(s, i, amp()) {
        Some((5, '&'))
    } else if occurs_at(s, i, lt()) {
        Some((4, '<'))
    } else if occurs_at(s, i, gt()) {
        Some((4, '>'))
    } else if occurs_at(s, i, quot()) {
        Some((6, '"'))
    } else if occurs_at(s, i, apos()) {
        Some((6, '\''))
    } else if occurs_at(s, i, hex_apos()) {
        Some((6, '\''))
    } else if occurs_at(s, i, dec_apos()) {
        Some((5, '\''))
    } else {
        None
    }
}

/// The text between `<` and `>` starts, after leading whitespace, with `br`
/// in any case.
pub open spec fn is_break_tag(inner: Seq<char>) -> bool {
    let t = trim_start(inner);
    t.len() >= 2 && (t[0] == 'b' || t[0] == 'B') && (t[1] == 'r' || t[1] == 'R')
}

/// `s` from index `i` on, with tags removed (a `br` tag becomes a line
/// break), entities of the table decoded, and other characters kept.
pub open spec fn decode_from(s: Seq<char>, i: int) -> Seq<char>
    decreases s.len() - i,
{
    if i < 0 || i >= s.len() {
        Seq::empty()
    } else if s[i] == '<' {
        match find_from(s, seq!['>'], i) {
            Some(e) => if i < e < s.len() {
                (if is_break_tag(s.subrange(i + 1, e)) { seq!['\n'] } else { Seq::empty() })
                    + decode_from(s, e + 1)
            } else {
                Seq::empty()
            },
            None => decode_from(s, i + 1),
        }
    } else if s[i] == '&' {
        match entity_at(s, i) {
            Some((n, c)) => if 0 < n && i + n <= s.len() { seq![c] + decode_from(s, i + n) } else { Seq::empty() },
            None => seq!['&'] + decode_from(s, i + 1),
        }
    } else {
        seq![s[i]] + decode_from(s, i + 1)
    }
}

/// `find_from` finds nothing before `i`, and what it finds occurs there.
pub proof fn lemma_find_from(s: Seq<char>, p: Seq<char>, i: int)
    ensures
        find_from(s, p, i) matches Some(k) ==> i <= k && occurs_at(s, k, p),
    decreases s.len() + 1 - i,
{
    if !(i < 0 || i + p.len() > s.len()) && !occurs_at(s, i, p) {
        lemma_find_from(s, p, i + 1);
    }
}

fn occurs_in(v: &Vec<char>, i: usize, p: &Vec<char>) -> (r: bool)
    ensures
        r == occurs_at(v@, i as int, p@),
{
    if i > v.len() || p.len() > v.len() - i {
        return false;
    }
    let mut k: usize = 0;
    while k < p.len()
        invariant
            i + p@.len() <= v.len(),
            k <= p@.len(),
            forall|j: int| 0 <= j < k ==> v@[i + j] == p@[j],
        decreases p@.len() - k,
    {
        if v[i + k] != p[k] {
            proof {
                assert(v@.subrange(i as int, i + p@.len())[k as int] != p@[k as int]);
            }
            return false;
        }
        k = k + 1;
    }
    assert(v@.subrange(i as int, i + p@.len()) =~= p@);
    true
}

/// The first occurrence of `p` in `v` at or after `from`.
pub(crate) fn find_in(v: &Vec<char>, p: &Vec<char>, from: usize) -> (r: Option<usize>)
    ensures
        r matches Some(k) ==> find_from(v@, p@, from as int) == Some(k as int),
        r is None ==> find_from(v@, p@, from as int) is None,
{
    let mut i: usize = from;
    while i <= v.len() && p.len() <= v.len() - i
        invariant
            from <= i,
            find_from(v@, p@, from as int) == find_from(v@, p@, i as int),
        decreases v@.len() + 1 - i,
    {
        if occurs_in(v, i, p) {
            return Some(i);
        }
        if i == v.len() {
            proof {
                assert(v@.subrange(i as int, i as int) =~= p@);
            }
            return None;
        }
        i = i + 1;
    }
    None
}

fn entity_in(v: &Vec<char>, i: usize) -> (r: Option<(usize, char)>)
    ensures
        r matches Some(x) ==> entity_at(v@, i as int) == Some((x.0 as int, x.1)),
        r is None ==> entity_at(v@, i as int) is None,
{
    if occurs_in(v, i, &vec!['&', 'a', 'm', 'p', ';']) {
        proof { assert(seq!['&', 'a', 'm', 'p', ';'] =~= amp()); }
        Some((5, '&'))
    } else if occurs_in(v, i, &vec!['&', 'l', 't', ';']) {
        Some((4, '<'))
    } else if occurs_in(v, i, &vec!['&', 'g', 't', ';']) {
        Some((4, '>'))
    } else if occurs_in(v, i, &vec!['&', 'q', 'u', 'o', 't', ';']) {
        Some((6, '"'))
    } else if occurs_in(v, i, &vec!['&', 'a', 'p', 'o', 's', ';']) {
        Some((6, '\''))
    } else if occurs_in(v, i, &vec!['&', '#', 'x', '2', '7', ';']) {
        Some((6, '\''))
    } else if occurs_in(v, i, &vec!['&', '#', '3', '9', ';']) {
        Some((5, '\''))
    } else {
        None
    }
}

pub open spec fn div_open() -> Seq<char> { seq!['<', 'd', 'i', 'v'] }
pub open spec fn div_close() -> Seq<char> { seq!['<', '/', 'd', 'i', 'v', '>'] }

/// The attribute that marks a lyrics container.
pub open spec fn lyrics_marker() -> Seq<char> {
    seq!['d', 'a', 't', 'a', '-', 'l', 'y', 'r', 'i', 'c', 's', '-', 'c', 'o', 'n', 't', 'a', 'i',
        'n', 'e', 'r', '=', '"', 't', 'r', 'u', 'e', '"']
}

/// Where a container whose content starts at `i`, with `depth` open
/// elements, ends: the index of the `</div>` that closes the outermost one,
/// or the end of `s` when it is never closed.
pub open spec fn container_end(s: Seq<char>, i: int, depth: nat) -> int
    decreases s.len() + 1 - i,
{
    if i < 0 || i >= s.len() || depth == 0 {
        i
    } else if occurs_at(s, i, div_open()) {
        container_end(s, i + 4, depth + 1)
    } else if occurs_at(s, i, div_close()) {
        if depth == 1 {
            i
        } else {
            container_end(s, i + 6, (depth - 1) as nat)
        }
    } else {
        container_end(s, i + 1, depth)
    }
}

/// The lyrics of the containers found in `s` from `pos` on, joined to `acc`:
/// each container's decoded and trimmed text, after a line break when
/// something came before it.
pub open spec fn lyrics_from(s: Seq<char>, pos: int, acc: Seq<char>) -> Seq<char>
    decreases s.len() + 1 - pos,
{
    match find_from(s, lyrics_marker(), pos) {
        None => acc,
        Some(t) => match find_from(s, seq!['>'], t) {
            None => acc,
            Some(o) => {
                let e = container_end(s, o + 1, 1);
                let section = trim(decode_from(s.subrange(o + 1, e), 0));
                let next = if acc.len() == 0 {
                    section
                } else {
                    acc.push('\n') + section
                };
                if pos < e <= s.len() {
                    lyrics_from(s, e, next)
                } else {
                    next
                }
            },
        },
    }
}

/// The lyrics of every container on the page.
pub open spec fn lyrics_of(s: Seq<char>) -> Seq<char> {
    lyrics_from(s, 0, Seq::empty())
}

pub proof fn lemma_container_end_bounds(s: Seq<char>, i: int, depth: nat)
    requires
        0 <= i <= s.len(),
    ensures
        i <= container_end(s, i, depth) <= s.len(),
    decreases s.len() + 1 - i,
{
    if i < 0 || i >= s.len() || depth == 0 {
    } else if occurs_at(s, i, div_open()) {
        lemma_container_end_bounds(s, i + 4, depth + 1);
    } else if occurs_at(s, i, div_close()) {
        if depth != 1 {
            lemma_container_end_bounds(s, i + 6, (depth - 1) as nat);
        }
    } else {
        lemma_container_end_bounds(s, i + 1, depth);
    }
}

/// Decodes `v`: tags dropped, `br` tags turned into line breaks, the
/// entities of the table replaced.
fn decode_chars(v: &Vec<char>) -> (r: Vec<char>)
    ensures
        r@ == decode_from(v@, 0),
{
    let ghost s = v@;
    let gt = vec!['>'];
    let mut out: Vec<char> = Vec::new();
    let mut i: usize = 0;
    while i < v.len()
        invariant
            s == v@,
            gt@ == seq!['>'],
            i <= v@.len(),
            out@ + decode_from(s, i as int) == decode_from(s, 0),
        decreases v@.len() - i,
    {
        let ghost rest = decode_from(s, i as int);
        if v[i] == '<' {
            match find_in(v, &gt, i) {
                Some(e) => {
                    proof {
                        lemma_find_from(s, gt@, i as int);
                        assert(s.subrange(e as int, e + 1)[0] == s[e as int]);
                    }
                    let k = skip_spaces(v, i + 1, e);
                    let br = e - k >= 2 && (v[k] == 'b' || v[k] == 'B') && (v[k + 1] == 'r' || v[k
                        + 1] == 'R');
                    proof {
                        let t = trim_start(s.subrange(i + 1, e as int));
                        assert(t == s.subrange(k as int, e as int));
                        if t.len() >= 2 {
                            assert(t[0] == s[k as int] && t[1] == s[k + 1]);
                        }
                        assert(br == is_break_tag(s.subrange(i + 1, e as int)));
                    }
                    if br {
                        proof {
                            assert(out@.push('\n') + decode_from(s, e + 1) =~= out@ + rest);
                        }
                        out.push('\n');
                    } else {
                        proof {
                            assert(out@ + decode_from(s, e + 1) =~= out@ + rest);
                        }
                    }
                    i = e + 1;
                },
                None => {
                    i = i + 1;
                },
            }
        } else if v[i] == '&' {
            match entity_in(v, i) {
                Some((n, c)) => {
                    proof {
                        assert(out@.push(c) + decode_from(s, i + n) =~= out@ + rest);
                    }
                    out.push(c);
                    i = i + n;
                },
                None => {
                    proof {
                        assert(out@.push('&') + decode_from(s, i + 1) =~= out@ + rest);
                    }
                    out.push('&');
                    i = i + 1;
                },
            }
        } else {
            proof {
                assert(out@.push(v@[i as int]) + decode_from(s, i + 1) =~= out@ + rest);
            }
            out.push(v[i]);
            i = i + 1;
        }
    }
    proof {
        assert(out@ + decode_from(s, i as int) =~= out@);
    }
    out
}

/// Strips tags, turns `<br>` tags into line breaks and decodes the common
/// entities of an HTML fragment.
pub fn html_to_text(fragment: &str) -> (r: String)
    ensures
        r@ == decode_from(fragment@, 0),
{
    let v = chars_of(fragment);
    let out = decode_chars(&v);
    string_of(&out)
}

/// The index at which the container whose content starts at `from` ends.
fn container_end_in(v: &Vec<char>, from: usize) -> (r: usize)
    requires
        from <= v@.len(),
    ensures
        r == container_end(v@, from as int, 1),
        from <= r <= v@.len(),
{
    let open = vec!['<', 'd', 'i', 'v'];
    let close = vec!['<', '/', 'd', 'i', 'v', '>'];
    proof {
        assert(open@ =~= div_open());
        assert(close@ =~= div_close());
        lemma_container_end_bounds(v@, from as int, 1);
    }
    let mut depth: usize = 1;
    let mut scan: usize = from;
    while scan < v.len()
        invariant
            from <= scan <= v@.len(),
            1 <= depth <= scan + 1,
            open@ == div_open(),
            close@ == div_close(),
            container_end(v@, scan as int, depth as nat) == container_end(v@, from as int, 1),
        decreases v@.len() - scan,
    {
        if occurs_in(v, scan, &open) {
            depth = depth + 1;
            scan = scan + 4;
        } else if occurs_in(v, scan, &close) {
            if depth == 1 {
                return scan;
            }
            depth = depth - 1;
            scan = scan + 6;
        } else {
            scan = scan + 1;
        }
    }
    scan
}

pub(crate) fn copy_range(v: &Vec<char>, from: usize, to: usize) -> (r: Vec<char>)
    requires
        from <= to <= v@.len(),
    ensures
        r@ == v@.subrange(from as int, to as int),
{
    let mut r: Vec<char> = Vec::new();
    let mut i: usize = from;
    while i < to
        invariant
            from <= i <= to <= v@.len(),
            r@ == v@.subrange(from as int, i as int),
        decreases to - i,
    {
        r.push(v[i]);
        i = i + 1;
        proof {
            assert(r@ =~= v@.subrange(from as int, i as int));
        }
    }
    r
}

fn append_range(out: &mut Vec<char>, v: &Vec<char>, from: usize, to: usize)
    requires
        from <= to <= v@.len(),
    ensures
        final(out)@ == old(out)@ + v@.subrange(from as int, to as int),
{
    let ghost start = out@;
    let mut i: usize = from;
    while i < to
        invariant
            from <= i <= to <= v@.len(),
            out@ == start + v@.subrange(from as int, i as int),
        decreases to - i,
    {
        out.push(v[i]);
        i = i + 1;
        proof {
            assert(out@ =~= start + v@.subrange(from as int, i as int));
        }
    }
}

/// The most characters of lyrics handed on.
pub const LYRICS_CAP: usize = 3000;

/// `l`, cut to its first `LYRICS_CAP` characters when longer.
pub open spec fn capped(l: Seq<char>) -> Seq<char> {
    if l.len() <= LYRICS_CAP {
        l
    } else {
        l.take(LYRICS_CAP as int)
    }
}

/// The lyrics of a page as handed on: all of them, cut to `LYRICS_CAP`
/// characters.
pub open spec fn extracted_lyrics(s: Seq<char>) -> Seq<char> {
    capped(lyrics_of(s))
}

/// Extracts the plain-text lyrics of every `data-lyrics-container="true"`
/// element of a page, one line break between containers, and keeps at most
/// `LYRICS_CAP` characters of them.
pub fn extract_lyrics_from_html(html: &str) -> (r: String)
    ensures
        r@ == extracted_lyrics(html@),
{
    let v = chars_of(html);
    let marker = vec!['d', 'a', 't', 'a', '-', 'l', 'y', 'r', 'i', 'c', 's', '-', 'c', 'o', 'n',
        't', 'a', 'i', 'n', 'e', 'r', '=', '"', 't', 'r', 'u', 'e', '"'];
    let gt = vec!['>'];
    proof {
        assert(marker@ =~= lyrics_marker());
    }
    let mut result: Vec<char> = Vec::new();
    let mut pos: usize = 0;
    loop
        invariant
            pos <= v@.len(),
            marker@ == lyrics_marker(),
            gt@ == seq!['>'],
            lyrics_from(v@, pos as int, result@) == lyrics_of(v@),
        ensures
            result@ == lyrics_of(v@),
        decreases v@.len() - pos,
    {
        let t = match find_in(&v, &marker, pos) {
            Some(t) => t,
            None => break,
        };
        let o = match find_in(&v, &gt, t) {
            Some(o) => o,
            None => break,
        };
        proof {
            lemma_find_from(v@, marker@, pos as int);
            lemma_find_from(v@, gt@, t as int);
            assert(gt@.len() == 1);
            assert(occurs_at(v@, o as int, gt@));
            assert(o + 1 <= v.len());
        }
        let e = container_end_in(&v, o + 1);
        let section = copy_range(&v, o + 1, e);
        let text = decode_chars(&section);
        let (a, b) = trim_bounds(&text, 0, text.len());
        proof {
            assert(text@.subrange(0, text@.len() as int) =~= text@);
        }
        if result.len() > 0 {
            result.push('\n');
        }
        append_range(&mut result, &text, a, b);
        pos = e;
    }
    if result.len() <= LYRICS_CAP {
        string_of(&result)
    } else {
        let head = copy_range(&result, 0, LYRICS_CAP);
        proof {
            assert(head@ =~= result@.take(LYRICS_CAP as int));
        }
        string_of(&head)
    }
}

proof fn lemma_find_first(s: Seq<char>, p: Seq<char>, i: int, k: int)
    requires
        0 <= i <= k,
        occurs_at(s, k, p),
        forall|j: int| i <= j < k ==> !occurs_at(s, j, p),
    ensures
        find_from(s, p, i) == Some(k),
    decreases k - i,
{
    if i < k {
        lemma_find_first(s, p, i + 1, k);
    }
}

proof fn lemma_find_none(s: Seq<char>, p: Seq<char>, i: int)
    requires
        0 <= i,
        forall|j: int| i <= j ==> !occurs_at(s, j, p),
    ensures
        find_from(s, p, i) is None,
    decreases s.len() + 1 - i,
{
    if i + p.len() <= s.len() {
        lemma_find_none(s, p, i + 1);
    }
}

proof fn lemma_plain_decodes(s: Seq<char>, i: int)
    requires
        0 <= i <= s.len(),
        forall|j: int| i <= j < s.len() ==> s[j] != '<' && s[j] != '&',
    ensures
        decode_from(s, i) == s.skip(i),
    decreases s.len() - i,
{
    if i < s.len() {
        lemma_plain_decodes(s, i + 1);
        assert(seq![s[i]] + s.skip(i + 1) =~= s.skip(i));
    } else {
        assert(s.skip(i) =~= Seq::<char>::empty());
    }
}

proof fn lemma_plain_run(s: Seq<char>, j: int, end: int)
    requires
        0 <= j <= end,
        occurs_at(s, end, div_close()),
        forall|k: int| j <= k < end ==> s[k] != '<',
    ensures
        container_end(s, j, 1) == end,
    decreases end - j,
{
    if j < end {
        if occurs_at(s, j, div_open()) {
            assert(s.subrange(j, j + 4)[0] == s[j]);
        }
        if occurs_at(s, j, div_close()) {
            assert(s.subrange(j, j + 6)[0] == s[j]);
        }
        lemma_plain_run(s, j + 1, end);
    }
}

/// A page without any lyrics container yields no lyrics.
pub proof fn lemma_no_container_no_lyrics(h: Seq<char>)
    requires
        forall|i: int| !occurs_at(h, i, lyrics_marker()),
    ensures
        extracted_lyrics(h) == Seq::<char>::empty(),
{
    lemma_find_none(h, lyrics_marker(), 0);
}

/// The opening tag of a lyrics container: `<div data-lyrics-container="true">`.
pub open spec fn container_open() -> Seq<char> {
    seq!['<', 'd', 'i', 'v', ' '] + lyrics_marker() + seq!['>']
}

proof fn lemma_mismatch(s: Seq<char>, j: int, p: Seq<char>, k: int)
    requires
        0 <= k < p.len(),
        0 <= j + k < s.len(),
        s[j + k] != p[k],
    ensures
        !occurs_at(s, j, p),
{
    if occurs_at(s, j, p) {
        assert(s.subrange(j, j + p.len())[k] == s[j + k]);
    }
}

/// A page `a`, one container holding plain text `p` (no tag, no entity),
/// then `c`, where neither `a` nor `c` holds the container marker, yields
/// `p` trimmed, provided that fits under the cap.
#[verifier::rlimit(50)]
pub proof fn lemma_single_plain_container(a: Seq<char>, p: Seq<char>, c: Seq<char>)
    requires
        forall|i: int| !occurs_at(a, i, lyrics_marker()),
        forall|i: int| !occurs_at(c, i, lyrics_marker()),
        forall|k: int| 0 <= k < p.len() ==> p[k] != '<' && p[k] != '&',
        trim(p).len() <= LYRICS_CAP,
    ensures
        extracted_lyrics(a + container_open() + p + div_close() + c) == trim(p),
{
    let m = lyrics_marker();
    let h = a + container_open() + p + div_close() + c;
    let al = a.len() as int;
    let t = al + 5;
    let o = t + 28;
    let ps = o + 1;
    let pe = ps + p.len();
    assert(h.len() == pe + 6 + c.len());
    assert forall|k: int| 0 <= k < 28 implies m[k] != '<' && m[k] != '>' by {}
    assert(container_open()[1] == 'd' && container_open()[2] == 'i');
    assert(container_open()[3] == 'v' && container_open()[4] == ' ');
    assert(h[al] == '<' && h[al + 1] == 'd' && h[al + 2] == 'i' && h[al + 3] == 'v' && h[al + 4]
        == ' ');
    assert(m[0] == 'd' && m[1] == 'a');
    assert(h.subrange(t, t + 28) =~= m);
    assert forall|j: int| 0 <= j < t implies !occurs_at(h, j, m) by {
        if j + 28 <= al {
            if occurs_at(h, j, m) {
                assert(a.subrange(j, j + 28) =~= h.subrange(j, j + 28));
                assert(occurs_at(a, j, m));
            }
        } else if j <= al {
            lemma_mismatch(h, j, m, al - j);
        } else if j == al + 1 {
            assert(h[j + 1] == 'i');
            lemma_mismatch(h, j, m, 1);
        } else {
            assert(h[j] != 'd');
            lemma_mismatch(h, j, m, 0);
        }
    }
    lemma_find_first(h, m, 0, t);
    assert(h.subrange(o, o + 1) =~= seq!['>']);
    assert forall|j: int| t <= j < o implies !occurs_at(h, j, seq!['>']) by {
        assert(h[j] == m[j - t]);
        lemma_mismatch(h, j, seq!['>'], 0);
    }
    lemma_find_first(h, seq!['>'], t, o);
    assert(h.subrange(pe, pe + 6) =~= div_close());
    assert forall|k: int| ps <= k < pe implies h[k] != '<' by {
        assert(h[k] == p[k - ps]);
    }
    lemma_plain_run(h, ps, pe);
    assert(h.subrange(ps, pe) =~= p);
    lemma_plain_decodes(p, 0);
    assert(p.skip(0) =~= p);
    assert(h[pe + 5] == '>');
    assert forall|j: int| pe <= j implies !occurs_at(h, j, m) by {
        if j < pe + 6 {
            if j + 28 <= h.len() {
                lemma_mismatch(h, j, m, pe + 5 - j);
            }
        } else if occurs_at(h, j, m) {
            assert(c.subrange(j - pe - 6, j - pe - 6 + 28) =~= h.subrange(j, j + 28));
            assert(occurs_at(c, j - pe - 6, m));
        }
    }
    lemma_find_none(h, m, pe);
    assert(decode_from(h.subrange(ps, pe), 0) == p);
    assert(lyrics_from(h, pe, trim(p)) == trim(p));
    assert(lyrics_from(h, 0, Seq::empty()) == lyrics_from(h, pe, trim(p)));
}

/// The lyrics of a page as handed on; none when they are blank.
pub open spec fn lyrics_excerpt(page: Seq<char>) -> Option<Seq<char>> {
    let l = extracted_lyrics(page);
    if trim(l).len() == 0 {
        None
    } else {
        Some(l)
    }
}

/// The lyrics of a fetched song page, at most `LYRICS_CAP` characters of
/// them, or none when the page holds only blank lyrics.
pub fn fetch_genius_lyrics(page: &str) -> (r: Option<String>)
    ensures
        r matches Some(l) ==> lyrics_excerpt(page@) == Some(l@),
        r is None ==> lyrics_excerpt(page@) is None,
{
    let lyrics = extract_lyrics_from_html(page);
    let v = chars_of(lyrics.as_str());
    let (a, b) = trim_bounds(&v, 0, v.len());
    proof {
        assert(v@.subrange(0, v@.len() as int) =~= v@);
    }
    if a == b {
        None
    } else {
        Some(lyrics)
    }
}

} // verus!
