//! The track the media player reports.
use vstd::prelude::*;
use crate::html::{find_from, find_in, lemma_find_from, copy_range};
use crate::text::{chars_of, string_of, trim, trim_bounds};

verus! {

#[derive(Debug, Clone)]
pub struct Track {
    pub title: String,
    pub artist: String,
    pub album: String,
    pub is_playing: bool,
}

pub open spec fn separator() -> Seq<char> {
    seq!['|', '|', '|']
}

/// The three separator positions of a report, when it has three.
pub open spec fn separators(s: Seq<char>) -> Option<(int, int, int)> {
    match find_from(s, separator(), 0) {
        None => None,
        Some(a) => match find_from(s, separator(), a + 3) {
            None => None,
            Some(b) => match find_from(s, separator(), b + 3) {
                None => None,
                Some(c) => Some((a, b, c)),
            },
        },
    }
}

/// `track` is what the report `output` describes: its trimmed text cut at
/// the first three separators into title, artist, album and a state that
/// reads `playing` when the player plays.
pub open spec fn describes(output: Seq<char>, track: Track) -> bool {
    let s = trim(output);
    match separators(s) {
        Some((a, b, c)) => {
            &&& track.title@ == s.subrange(0, a)
            &&& track.artist@ == s.subrange(a + 3, b)
            &&& track.album@ == s.subrange(b + 3, c)
            &&& track.is_playing == (trim(s.subrange(c + 3, s.len() as int)) == "playing"@)
        },
        None => false,
    }
}

/// A report has a track when its trimmed text holds three separators.
pub open spec fn has_track(output: Seq<char>) -> bool {
    separators(trim(output)) is Some
}

fn equals_playing(v: &Vec<char>, from: usize, to: usize) -> (r: bool)
    requires
        from <= to <= v@.len(),
    ensures
        r == (v@.subrange(from as int, to as int) == "playing"@),
{
    proof {
        reveal_strlit("playing");
    }
    let w = copy_range(v, from, to);
    let r = w.len() == 7 && w[0] == 'p' && w[1] == 'l' && w[2] == 'a' && w[3] == 'y' && w[4] == 'i'
        && w[5] == 'n' && w[6] == 'g';
    proof {
        if r {
            assert(w@ =~= "playing"@);
        } else if w@ == "playing"@ {
            assert(w@.len() == 7);
            assert(w@[0] == 'p' && w@[1] == 'l' && w@[2] == 'a' && w@[3] == 'y');
            assert(w@[4] == 'i' && w@[5] == 'n' && w@[6] == 'g');
        }
    }
    r
}

/// The track in the player's report `title|||artist|||album|||state`; none
/// when the report is blank or has fewer than three separators.
pub fn parse_track(output: &str) -> (r: Option<Track>)
    ensures
        r is Some <==> has_track(output@),
        r matches Some(t) ==> describes(output@, t),
{
    let all = chars_of(output);
    let (lo, hi) = trim_bounds(&all, 0, all.len());
    let v = copy_range(&all, lo, hi);
    proof {
        assert(all@.subrange(0, all@.len() as int) =~= all@);
    }
    let ghost s = v@;
    let sep = vec!['|', '|', '|'];
    proof {
        assert(sep@ =~= separator());
    }
    let a = match find_in(&v, &sep, 0) {
        Some(a) => a,
        None => {
            return None;
        },
    };
    proof {
        lemma_find_from(s, sep@, 0);
    }
    let b = match find_in(&v, &sep, a + 3) {
        Some(b) => b,
        None => {
            return None;
        },
    };
    proof {
        lemma_find_from(s, sep@, a + 3);
    }
    let c = match find_in(&v, &sep, b + 3) {
        Some(c) => c,
        None => {
            return None;
        },
    };
    proof {
        lemma_find_from(s, sep@, b + 3);
    }
    let (p, q) = trim_bounds(&v, c + 3, v.len());
    let playing = equals_playing(&v, p, q);
    let track = Track {
        title: string_of(&copy_range(&v, 0, a)),
        artist: string_of(&copy_range(&v, a + 3, b)),
        album: string_of(&copy_range(&v, b + 3, c)),
        is_playing: playing,
    };
    Some(track)
}

} // verus!
