//! Cover art: where to look it up, the high-resolution address, and the
//! data URL that embeds it.
use vstd::prelude::*;
use crate::catalog::{search_term, search_term_text};
use crate::html::{find_from, find_in, lemma_find_from, copy_range};
use crate::json::{json_string_at, string_at};
use crate::text::{chars_of, string_of};
use base64::Engine;

verus! {

pub open spec fn artwork_url(title: Seq<char>, artist: Seq<char>) -> Seq<char> {
    "https://itunes.apple.com/search?term="@ + search_term(artist, title)
        + "&media=music&entity=song&limit=1"@
}

/// The address of a catalog search for one song.
pub fn artwork_search_url(title: &str, artist: &str) -> (r: String)
    ensures
        r@ == artwork_url(title@, artist@),
{
    let mut s = String::from_str("https://itunes.apple.com/search?term=");
    let q = search_term_text(artist, title);
    s.append(q.as_str());
    s.append("&media=music&entity=song&limit=1");
    s
}

/// `s` from `i` on, each occurrence of `p` (found left to right, without
/// overlap) replaced by `q`.
pub open spec fn replaced_from(s: Seq<char>, p: Seq<char>, q: Seq<char>, i: int) -> Seq<char>
    decreases s.len() + 1 - i,
{
    if i < 0 || i > s.len() || p.len() == 0 {
        s.skip(i)
    } else {
        match find_from(s, p, i) {
            None => s.skip(i),
            Some(k) => if i <= k && k + p.len() <= s.len() {
                s.subrange(i, k) + q + replaced_from(s, p, q, k + p.len())
            } else {
                s.skip(i)
            },
        }
    }
}

fn replace_all(s: &str, p: &Vec<char>, q: &Vec<char>) -> (r: String)
    requires
        p@.len() > 0,
    ensures
        r@ == replaced_from(s@, p@, q@, 0),
{
    let v = chars_of(s);
    let mut out: Vec<char> = Vec::new();
    let mut i: usize = 0;
    loop
        invariant
            i <= v@.len(),
            p@.len() > 0,
            v@ == s@,
            out@ + replaced_from(v@, p@, q@, i as int) == replaced_from(v@, p@, q@, 0),
        decreases v@.len() - i,
    {
        match find_in(&v, p, i) {
            None => {
                let rest = copy_range(&v, i, v.len());
                proof {
                    assert(v@.subrange(i as int, v@.len() as int) =~= v@.skip(i as int));
                }
                let ghost before = out@;
                let mut j: usize = 0;
                while j < rest.len()
                    invariant
                        j <= rest@.len(),
                        out@ == before + rest@.take(j as int),
                    decreases rest@.len() - j,
                {
                    out.push(rest[j]);
                    j = j + 1;
                    proof {
                        assert(out@ =~= before + rest@.take(j as int));
                    }
                }
                proof {
                    assert(rest@.take(j as int) =~= rest@);
                }
                return string_of(&out);
            },
            Some(k) => {
                proof {
                    lemma_find_from(v@, p@, i as int);
                    assert(k + p@.len() <= v.len());
                }
                let ghost before = out@;
                let mut j: usize = i;
                while j < k
                    invariant
                        i <= j <= k,
                        k + p@.len() <= v@.len(),
                        out@ == before + v@.subrange(i as int, j as int),
                    decreases k - j,
                {
                    out.push(v[j]);
                    j = j + 1;
                    proof {
                        assert(out@ =~= before + v@.subrange(i as int, j as int));
                    }
                }
                let mut t: usize = 0;
                while t < q.len()
                    invariant
                        t <= q@.len(),
                        out@ == before + v@.subrange(i as int, k as int) + q@.take(t as int),
                    decreases q@.len() - t,
                {
                    out.push(q[t]);
                    t = t + 1;
                    proof {
                        assert(out@ =~= before + v@.subrange(i as int, k as int) + q@.take(t as int));
                    }
                }
                proof {
                    assert(q@.take(t as int) =~= q@);
                    assert(out@ + replaced_from(v@, p@, q@, k + p@.len()) =~= before + replaced_from(
                        v@,
                        p@,
                        q@,
                        i as int,
                    ));
                }
                i = k + p.len();
            },
        }
    }
}

/// The 600-pixel form of a cover address: each `100x100bb` becomes
/// `600x600bb`.
pub open spec fn hd_address(url: Seq<char>) -> Seq<char> {
    replaced_from(
        url,
        seq!['1', '0', '0', 'x', '1', '0', '0', 'b', 'b'],
        seq!['6', '0', '0', 'x', '6', '0', '0', 'b', 'b'],
        0,
    )
}

/// The high-resolution cover address from a song search reply.
pub fn hd_artwork_url(reply: &str) -> (r: Option<String>)
    ensures
        r matches Some(u) ==> (json_string_at(reply@, "/results/0/artworkUrl100"@) matches Some(a)
            && u@ == hd_address(a)),
        r is None ==> json_string_at(reply@, "/results/0/artworkUrl100"@) is None,
{
    match string_at(reply, "/results/0/artworkUrl100") {
        Some(a) => {
            let p = vec!['1', '0', '0', 'x', '1', '0', '0', 'b', 'b'];
            let q = vec!['6', '0', '0', 'x', '6', '0', '0', 'b', 'b'];
            proof {
                assert(p@ =~= seq!['1', '0', '0', 'x', '1', '0', '0', 'b', 'b']);
                assert(q@ =~= seq!['6', '0', '0', 'x', '6', '0', '0', 'b', 'b']);
            }
            Some(replace_all(a.as_str(), &p, &q))
        },
        None => None,
    }
}

/// The standard base64 alphabet.
pub open spec fn b64_char(n: u8) -> char {
    if n < 26 {
        ((n + 65) as u8) as char
    } else if n < 52 {
        ((n + 71) as u8) as char
    } else if n < 62 {
        ((n - 4) as u8) as char
    } else if n == 62 {
        '+'
    } else {
        '/'
    }
}

/// Standard base64 with `=` padding: three bytes to four characters.
pub open spec fn base64(b: Seq<u8>) -> Seq<char>
    decreases b.len(),
{
    if b.len() == 0 {
        Seq::empty()
    } else if b.len() == 1 {
        seq![b64_char(b[0] >> 2), b64_char((b[0] & 3) << 4), '=', '=']
    } else if b.len() == 2 {
        seq![
            b64_char(b[0] >> 2),
            b64_char(((b[0] & 3) << 4) | (b[1] >> 4)),
            b64_char((b[1] & 15) << 2),
            '=',
        ]
    } else {
        seq![
            b64_char(b[0] >> 2),
            b64_char(((b[0] & 3) << 4) | (b[1] >> 4)),
            b64_char(((b[1] & 15) << 2) | (b[2] >> 6)),
            b64_char(b[2] & 63),
        ] + base64(b.skip(3))
    }
}

/// Relies on `base64::Engine::encode` with `general_purpose::STANDARD`:
/// standard alphabet, padded. It panics only when the encoded length
/// overflows `usize`.
#[verifier::external_body]
fn base64_encode(b: &Vec<u8>) -> (r: String)
    requires
        b@.len() <= usize::MAX / 2,
    ensures
        r@ == base64(b@),
{
    base64::engine::general_purpose::STANDARD.encode(b)
}

/// A JPEG data URL embedding `bytes`; none when there are no bytes.
pub fn artwork_data_url(bytes: &Vec<u8>) -> (r: Option<String>)
    requires
        bytes@.len() <= usize::MAX / 2,
    ensures
        bytes@.len() == 0 ==> r is None,
        bytes@.len() > 0 ==> (r matches Some(u) && u@ == "data:image/jpeg;base64,"@ + base64(bytes@)),
{
    if bytes.len() == 0 {
        return None;
    }
    let mut s = String::from_str("data:image/jpeg;base64,");
    let e = base64_encode(bytes);
    s.append(e.as_str());
    Some(s)
}

} // verus!
