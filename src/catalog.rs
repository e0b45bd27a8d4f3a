//! Release year and genre from a music catalog search.
use vstd::prelude::*;
use crate::html::{occurs_at, find_from, find_in, lemma_find_from};
use crate::json::{json_string_at, json_array_len_at, string_at, array_len_at};
use crate::text::{chars_of};
use crate::url::{decimal, url_encode, url_encoded, decimal_text};

verus! {

/// What `str::to_lowercase` returns for `s`.
pub uninterp spec fn lower_of(s: Seq<char>) -> Seq<char>;

/// Relies on `str::to_lowercase`: the result depends on the characters alone.
#[verifier::external_body]
fn lowercase(s: &str) -> (r: String)
    ensures
        r@ == lower_of(s@),
{
    s.to_lowercase()
}

/// `needle` occurs somewhere in `hay`.
pub open spec fn contains(hay: Seq<char>, needle: Seq<char>) -> bool {
    exists|i: int| occurs_at(hay, i, needle)
}

proof fn lemma_find_some_iff(s: Seq<char>, p: Seq<char>, i: int)
    requires
        0 <= i,
    ensures
        find_from(s, p, i) is None ==> forall|j: int| i <= j ==> !occurs_at(s, j, p),
    decreases s.len() + 1 - i,
{
    if !(i + p.len() > s.len()) && !occurs_at(s, i, p) {
        lemma_find_some_iff(s, p, i + 1);
    }
}

fn contains_text(hay: &str, needle: &str) -> (r: bool)
    ensures
        r == contains(hay@, needle@),
{
    let h = chars_of(hay);
    let n = chars_of(needle);
    let found = find_in(&h, &n, 0);
    proof {
        lemma_find_from(h@, n@, 0);
        lemma_find_some_iff(h@, n@, 0);
    }
    found.is_some()
}

/// A catalog entry matches the request when its title contains the album
/// and its artist contains the artist, both compared in lower case.
pub open spec fn entry_matches(title: Seq<char>, name: Seq<char>, album: Seq<char>, artist: Seq<
    char,
>) -> bool {
    contains(lower_of(title), lower_of(album)) && contains(lower_of(name), lower_of(artist))
}

pub fn candidate_matches(title: &str, name: &str, album: &str, artist: &str) -> (r: bool)
    ensures
        r == entry_matches(title@, name@, album@, artist@),
{
    let t = lowercase(title);
    let n = lowercase(name);
    let al = lowercase(album);
    let ar = lowercase(artist);
    contains_text(t.as_str(), al.as_str()) && contains_text(n.as_str(), ar.as_str())
}

/// `artist`, a space, then `name`, encoded for a query string.
pub open spec fn search_term(artist: Seq<char>, name: Seq<char>) -> Seq<char> {
    url_encoded(vstd::utf8::encode_utf8(artist + seq![' '] + name))
}

pub(crate) fn search_term_text(artist: &str, name: &str) -> (r: String)
    ensures
        r@ == search_term(artist@, name@),
{
    let mut s = String::from_str(artist);
    s.append(" ");
    s.append(name);
    proof {
        assert(" "@ =~= seq![' ']) by {
            reveal_strlit(" ");
        }
    }
    url_encode(s.as_str())
}

pub open spec fn catalog_url(artist: Seq<char>, album: Seq<char>) -> Seq<char> {
    "https://itunes.apple.com/search?term="@ + search_term(artist, album)
        + "&media=music&entity=album&limit=10"@
}

/// The address of a catalog search for up to ten albums.
pub fn catalog_search_url(artist: &str, album: &str) -> (r: String)
    ensures
        r@ == catalog_url(artist@, album@),
{
    let mut s = String::from_str("https://itunes.apple.com/search?term=");
    let q = search_term_text(artist, album);
    s.append(q.as_str());
    s.append("&media=music&entity=album&limit=10");
    s
}

/// The pointer to field `key` of result `i`.
pub open spec fn result_pointer(i: nat, key: Seq<char>) -> Seq<char> {
    "/results/"@ + decimal(i) + "/"@ + key
}

/// Field `key` of result `i` as a string, empty when absent.
pub open spec fn result_field(doc: Seq<char>, i: nat, key: Seq<char>) -> Seq<char> {
    match json_string_at(doc, result_pointer(i, key)) {
        Some(v) => v,
        None => Seq::empty(),
    }
}

pub open spec fn result_matches(doc: Seq<char>, i: nat, artist: Seq<char>, album: Seq<char>) -> bool {
    entry_matches(
        result_field(doc, i, "collectionName"@),
        result_field(doc, i, "artistName"@),
        album,
        artist,
    )
}

/// The first result from `i` on, below `n`, that matches.
pub open spec fn first_match_from(
    doc: Seq<char>,
    n: nat,
    i: nat,
    artist: Seq<char>,
    album: Seq<char>,
) -> Option<nat>
    decreases n - i,
{
    if i >= n {
        None
    } else if result_matches(doc, i, artist, album) {
        Some(i)
    } else {
        first_match_from(doc, n, i + 1, artist, album)
    }
}

/// The first matching entry of the `results` array.
pub open spec fn catalog_hit(doc: Seq<char>, artist: Seq<char>, album: Seq<char>) -> Option<nat> {
    match json_array_len_at(doc, "/results"@) {
        Some(n) => first_match_from(doc, n, 0, artist, album),
        None => None,
    }
}

/// The first four characters of a date, or nothing when it is shorter.
pub open spec fn year_of(date: Seq<char>) -> Seq<char> {
    if date.len() >= 4 {
        date.take(4)
    } else {
        Seq::empty()
    }
}

/// Release year and genre of the first matching entry, each empty when
/// unknown.
pub open spec fn catalog_metadata(body: Option<Seq<char>>, artist: Seq<char>, album: Seq<char>) -> (
    Seq<char>,
    Seq<char>,
) {
    match body {
        None => (Seq::empty(), Seq::empty()),
        Some(doc) => match catalog_hit(doc, artist, album) {
            None => (Seq::empty(), Seq::empty()),
            Some(i) => (
                match json_string_at(doc, result_pointer(i, "releaseDate"@)) {
                    Some(d) => year_of(d),
                    None => Seq::empty(),
                },
                result_field(doc, i, "primaryGenreName"@),
            ),
        },
    }
}

fn result_pointer_text(i: usize, key: &str) -> (r: String)
    ensures
        r@ == result_pointer(i as nat, key@),
{
    let mut s = String::from_str("/results/");
    let d = decimal_text(i as u64);
    s.append(d.as_str());
    s.append("/");
    s.append(key);
    s
}

fn result_field_text(doc: &str, i: usize, key: &str) -> (r: String)
    ensures
        r@ == result_field(doc@, i as nat, key@),
{
    let p = result_pointer_text(i, key);
    match string_at(doc, p.as_str()) {
        Some(v) => v,
        None => String::new(),
    }
}

/// Release year and genre of the album from a catalog search reply (none
/// when the search failed).
pub fn itunes_album_metadata(body: Option<&str>, artist: &str, album: &str) -> (r: (String, String))
    ensures
        (r.0@, r.1@) == catalog_metadata(body.deep_view(), artist@, album@),
{
    match body {
        Some(doc) => metadata_from(doc, artist, album),
        None => (String::new(), String::new()),
    }
}

fn metadata_from(doc: &str, artist: &str, album: &str) -> (r: (String, String))
    ensures
        (r.0@, r.1@) == catalog_metadata(Some(doc@), artist@, album@),
{
    let n = match array_len_at(doc, "/results") {
        Some(n) => n,
        None => {
            return (String::new(), String::new());
        },
    };
    let mut i: usize = 0;
    while i < n
        invariant
            i <= n,
            json_array_len_at(doc@, "/results"@) == Some(n as nat),
            first_match_from(doc@, n as nat, 0, artist@, album@) == first_match_from(
                doc@,
                n as nat,
                i as nat,
                artist@,
                album@,
            ),
        decreases n - i,
    {
        let title = result_field_text(doc, i, "collectionName");
        let name = result_field_text(doc, i, "artistName");
        if candidate_matches(title.as_str(), name.as_str(), album, artist) {
            let date_ptr = result_pointer_text(i, "releaseDate");
            let year = match string_at(doc, date_ptr.as_str()) {
                Some(d) => {
                    if d.as_str().unicode_len() >= 4 {
                        proof {
                            assert(d@.subrange(0, 4) =~= d@.take(4));
                        }
                        String::from_str(d.as_str().substring_char(0, 4))
                    } else {
                        String::new()
                    }
                },
                None => String::new(),
            };
            let genre = result_field_text(doc, i, "primaryGenreName");
            proof {
                assert(result_matches(doc@, i as nat, artist@, album@));
                assert(first_match_from(doc@, n as nat, i as nat, artist@, album@) == Some(i as nat));
                assert(catalog_hit(doc@, artist@, album@) == Some(i as nat));
            }
            return (year, genre);
        }
        i = i + 1;
    }
    (String::new(), String::new())
}

} // verus!
