//! The two enrichment flows as state machines: each step names the request
//! the host must perform next, and the host hands back its reply (none when
//! the request failed).
use vstd::prelude::*;
use crate::catalog::{catalog_metadata, catalog_search_url, catalog_url, itunes_album_metadata, search_term, search_term_text};
use crate::config::Config;
use crate::html::{fetch_genius_lyrics, lyrics_excerpt};
use crate::json::{json_int_at, json_string_at, is_json_text, int_at, is_json, string_at};
use crate::prompt::{album_prompt, build_album_prompt, build_lyrics_prompt, lyrics_prompt};
use crate::text::{strip_code_fences, strip_fences};
use crate::url::{signed_decimal, signed_decimal_text};

verus! {

/// Token budget of the album request.
pub const ALBUM_MAX_TOKENS: u64 = 400;

/// Token budget of the lyrics request.
pub const LYRICS_MAX_TOKENS: u64 = 450;

/// A request the host performs on the flow's behalf.
#[derive(Debug, Clone)]
pub enum Request {
    /// A JSON API call; with `bearer`, authorised by that token.
    Get { url: String, bearer: Option<String> },
    /// A web page, fetched as a browser would.
    Page { url: String },
    /// A text-generation call with `prompt` as the single user message.
    Generate { key: String, max_tokens: u64, prompt: String },
}

/// What a flow wants next: a request, or its final result.
#[derive(Debug, Clone)]
pub enum Step<T> {
    Call(Request),
    Done(Option<T>),
}

pub open spec fn is_get<T>(s: Step<T>, url: Seq<char>, bearer: Option<Seq<char>>) -> bool {
    match s {
        Step::Call(Request::Get { url: u, bearer: b }) => u@ == url && b.deep_view() == bearer,
        _ => false,
    }
}

pub open spec fn is_page<T>(s: Step<T>, url: Seq<char>) -> bool {
    match s {
        Step::Call(Request::Page { url: u }) => u@ == url,
        _ => false,
    }
}

pub open spec fn is_generate<T>(s: Step<T>, key: Seq<char>, max_tokens: u64, prompt: Seq<char>) -> bool {
    match s {
        Step::Call(Request::Generate { key: k, max_tokens: m, prompt: p }) => k@ == key && m
            == max_tokens && p@ == prompt,
        _ => false,
    }
}

pub open spec fn genius_search_url(artist: Seq<char>, name: Seq<char>) -> Seq<char> {
    "https://api.genius.com/search?q="@ + search_term(artist, name)
}

pub open spec fn genius_song_url(id: int) -> Seq<char> {
    "https://api.genius.com/songs/"@ + signed_decimal(id)
}

pub open spec fn genius_album_url(id: int) -> Seq<char> {
    "https://api.genius.com/albums/"@ + signed_decimal(id)
}

/// The string at `pointer` of a reply, empty when absent.
pub open spec fn field_or_empty(doc: Seq<char>, pointer: Seq<char>) -> Seq<char> {
    match json_string_at(doc, pointer) {
        Some(v) => v,
        None => Seq::empty(),
    }
}

pub open spec fn int_in_reply(reply: Option<Seq<char>>, pointer: Seq<char>) -> Option<int> {
    match reply {
        Some(b) => json_int_at(b, pointer),
        None => None,
    }
}

pub open spec fn string_in_reply(reply: Option<Seq<char>>, pointer: Seq<char>) -> Option<Seq<char>> {
    match reply {
        Some(b) => json_string_at(b, pointer),
        None => None,
    }
}

/// The album description of an album reply; empty when absent, empty or `?`.
pub open spec fn description_of(reply: Option<Seq<char>>) -> Seq<char> {
    match string_in_reply(reply, "/response/album/description_preview"@) {
        Some(d) => if d.len() > 0 && d != "?"@ {
            d
        } else {
            Seq::empty()
        },
        None => Seq::empty(),
    }
}

/// The JSON object a generation reply carries: its text, fences removed,
/// when that is JSON.
pub open spec fn generated_json(reply: Seq<char>) -> Option<Seq<char>> {
    match json_string_at(reply, "/content/0/text"@) {
        Some(t) => if is_json_text(strip_fences(t)) {
            Some(strip_fences(t))
        } else {
            None
        },
        None => None,
    }
}

pub open spec fn generated_in_reply(reply: Option<Seq<char>>) -> Option<Seq<char>> {
    match reply {
        Some(b) => generated_json(b),
        None => None,
    }
}

/// The JSON text a generation reply carries, with code fences removed;
/// none when the reply has no text or the text is not JSON.
pub fn extract_claude_json(response: &str) -> (r: Option<String>)
    ensures
        r.deep_view() == generated_json(response@),
{
    match string_at(response, "/content/0/text") {
        Some(t) => {
            let clean = strip_code_fences(t.as_str());
            if is_json(clean) {
                Some(String::from_str(clean))
            } else {
                None
            }
        },
        None => None,
    }
}

fn generated_in(reply: &Option<String>) -> (r: Option<String>)
    ensures
        r.deep_view() == generated_in_reply(reply.deep_view()),
{
    match reply {
        Some(b) => extract_claude_json(b.as_str()),
        None => None,
    }
}

fn string_in(reply: &Option<String>, pointer: &str) -> (r: Option<String>)
    ensures
        r.deep_view() == string_in_reply(reply.deep_view(), pointer@),
{
    match reply {
        Some(b) => string_at(b.as_str(), pointer),
        None => None,
    }
}

fn int_in(reply: &Option<String>, pointer: &str) -> (r: Option<i64>)
    ensures
        r matches Some(v) ==> int_in_reply(reply.deep_view(), pointer@) == Some(v as int),
        r is None ==> int_in_reply(reply.deep_view(), pointer@) is None,
{
    match reply {
        Some(b) => int_at(b.as_str(), pointer),
        None => None,
    }
}

fn field_text(doc: &str, pointer: &str) -> (r: String)
    ensures
        r@ == field_or_empty(doc@, pointer@),
{
    match string_at(doc, pointer) {
        Some(v) => v,
        None => String::new(),
    }
}

/// The album description from an album reply, empty when there is none.
pub fn genius_album_description(reply: &Option<String>) -> (r: String)
    ensures
        r@ == description_of(reply.deep_view()),
{
    match string_in(reply, "/response/album/description_preview") {
        Some(d) => {
            if !d.as_str().is_empty() && !(d == String::from_str("?")) {
                d
            } else {
                String::new()
            }
        },
        None => String::new(),
    }
}

fn genius_search(artist: &str, name: &str) -> (r: String)
    ensures
        r@ == genius_search_url(artist@, name@),
{
    let mut s = String::from_str("https://api.genius.com/search?q=");
    let q = search_term_text(artist, name);
    s.append(q.as_str());
    s
}

fn genius_entity(base: &str, id: i64) -> (r: String)
    ensures
        r@ == base@ + signed_decimal(id as int),
{
    let mut s = String::from_str(base);
    let d = signed_decimal_text(id);
    s.append(d.as_str());
    s
}

/// Album context and catalog metadata.
#[derive(Debug, Clone)]
pub struct AlbumInfo {
    pub release_year: String,
    pub genre: String,
    pub context: String,
    pub notable_fact: String,
}

/// A reading of a song's lyrics.
#[derive(Debug, Clone)]
pub struct LyricsAnalysis {
    pub interpretation: String,
}

#[derive(Debug, Clone, Copy, PartialEq, Eq, Structural)]
pub enum AlbumStage {
    /// Waiting for the catalog search.
    Catalog,
    /// Waiting for the lyrics-database search.
    Search,
    /// Waiting for the song entity.
    Song,
    /// Waiting for the album entity.
    Album,
    /// Waiting for the generated text.
    Generation,
    Finished,
}

/// Album enrichment: catalog metadata, then a description through search,
/// song and album, then a generated context.
#[derive(Debug, Clone)]
pub struct AlbumInfoFlow {
    pub album: String,
    pub artist: String,
    pub genius_token: String,
    pub anthropic_key: String,
    pub release_year: String,
    pub genre: String,
    pub stage: AlbumStage,
}

/// The album result for catalog metadata and a generated JSON object.
pub open spec fn album_info_is(
    info: AlbumInfo,
    year: Seq<char>,
    genre: Seq<char>,
    doc: Seq<char>,
) -> bool {
    &&& info.release_year@ == year
    &&& info.genre@ == genre
    &&& info.context@ == field_or_empty(doc, "/context"@)
    &&& info.notable_fact@ == field_or_empty(doc, "/notable_fact"@)
}

impl AlbumInfoFlow {
    /// Same request: album, artist and credentials.
    pub open spec fn same_request(self, other: AlbumInfoFlow) -> bool {
        &&& self.album@ == other.album@
        &&& self.artist@ == other.artist@
        &&& self.genius_token@ == other.genius_token@
        &&& self.anthropic_key@ == other.anthropic_key@
    }

    /// `next` waits for the generated text of the album prompt over
    /// `description`, and `s` asks for it.
    pub open spec fn generates(next: AlbumInfoFlow, s: Step<AlbumInfo>, description: Seq<char>) -> bool {
        &&& next.stage == AlbumStage::Generation
        &&& is_generate(
            s,
            next.anthropic_key@,
            ALBUM_MAX_TOKENS,
            album_prompt(next.album@, next.artist@, next.release_year@, next.genre@, description),
        )
    }

    /// One step of the flow, from `prev` on `reply`, to `next` asking `s`.
    pub open spec fn advances(
        prev: AlbumInfoFlow,
        next: AlbumInfoFlow,
        reply: Option<Seq<char>>,
        s: Step<AlbumInfo>,
    ) -> bool {
        &&& next.same_request(prev)
        &&& prev.stage != AlbumStage::Catalog ==> next.release_year@ == prev.release_year@
            && next.genre@ == prev.genre@
        &&& match prev.stage {
            AlbumStage::Catalog => {
                &&& (next.release_year@, next.genre@) == catalog_metadata(
                    reply,
                    prev.artist@,
                    prev.album@,
                )
                &&& next.stage == AlbumStage::Search
                &&& is_get(s, genius_search_url(prev.artist@, prev.album@), Some(prev.genius_token@))
            },
            AlbumStage::Search => match int_in_reply(reply, "/response/hits/0/result/id"@) {
                Some(id) => next.stage == AlbumStage::Song && is_get(
                    s,
                    genius_song_url(id),
                    Some(prev.genius_token@),
                ),
                None => Self::generates(next, s, Seq::empty()),
            },
            AlbumStage::Song => match int_in_reply(reply, "/response/song/album/id"@) {
                Some(id) => next.stage == AlbumStage::Album && is_get(
                    s,
                    genius_album_url(id),
                    Some(prev.genius_token@),
                ),
                None => Self::generates(next, s, Seq::empty()),
            },
            AlbumStage::Album => Self::generates(next, s, description_of(reply)),
            AlbumStage::Generation => {
                &&& next.stage == AlbumStage::Finished
                &&& match generated_in_reply(reply) {
                    Some(doc) => match s {
                        Step::Done(Some(info)) => album_info_is(
                            info,
                            prev.release_year@,
                            prev.genre@,
                            doc,
                        ),
                        _ => false,
                    },
                    None => s matches Step::Done(None),
                }
            },
            AlbumStage::Finished => false,
        }
    }

    /// Begins album enrichment. Without both credentials it ends at once,
    /// with no result and no request; otherwise it asks for the catalog
    /// search.
    pub fn start(album: &str, artist: &str, config: &Config) -> (r: (AlbumInfoFlow, Step<AlbumInfo>))
        ensures
            r.0.album@ == album@,
            r.0.artist@ == artist@,
            r.0.genius_token@ == config.api.genius_token@,
            r.0.anthropic_key@ == config.api.anthropic_key@,
            !config.keys_present() ==> r.0.stage == AlbumStage::Finished && r.1 matches Step::Done(
                None,
            ),
            config.keys_present() ==> r.0.stage == AlbumStage::Catalog && is_get(
                r.1,
                catalog_url(artist@, album@),
                None,
            ),
    {
        let ready = config.has_keys();
        let flow = AlbumInfoFlow {
            album: String::from_str(album),
            artist: String::from_str(artist),
            genius_token: config.api.genius_token.clone(),
            anthropic_key: config.api.anthropic_key.clone(),
            release_year: String::new(),
            genre: String::new(),
            stage: if ready {
                AlbumStage::Catalog
            } else {
                AlbumStage::Finished
            },
        };
        if !ready {
            return (flow, Step::Done(None));
        }
        let url = catalog_search_url(artist, album);
        (flow, Step::Call(Request::Get { url, bearer: None }))
    }

    fn generate(&mut self, description: &str) -> (r: Step<AlbumInfo>)
        ensures
            final(self).same_request(*old(self)),
            final(self).release_year@ == old(self).release_year@,
            final(self).genre@ == old(self).genre@,
            Self::generates(*final(self), r, description@),
    {
        let prompt = build_album_prompt(
            self.album.as_str(),
            self.artist.as_str(),
            self.release_year.as_str(),
            self.genre.as_str(),
            description,
        );
        self.stage = AlbumStage::Generation;
        Step::Call(
            Request::Generate {
                key: self.anthropic_key.clone(),
                max_tokens: ALBUM_MAX_TOKENS,
                prompt,
            },
        )
    }

    /// Takes the reply to the last request (none when it failed) and says
    /// what comes next.
    pub fn resume(&mut self, reply: Option<String>) -> (r: Step<AlbumInfo>)
        requires
            old(self).stage != AlbumStage::Finished,
        ensures
            Self::advances(*old(self), *final(self), reply.deep_view(), r),
    {
        proof {
            reveal_strlit("");
        }
        match self.stage {
            AlbumStage::Catalog => {
                let (year, genre) = match &reply {
                    Some(b) => itunes_album_metadata(Some(b.as_str()), self.artist.as_str(), self.album.as_str()),
                    None => itunes_album_metadata(None, self.artist.as_str(), self.album.as_str()),
                };
                self.release_year = year;
                self.genre = genre;
                self.stage = AlbumStage::Search;
                let url = genius_search(self.artist.as_str(), self.album.as_str());
                Step::Call(Request::Get { url, bearer: Some(self.genius_token.clone()) })
            },
            AlbumStage::Search => match int_in(&reply, "/response/hits/0/result/id") {
                Some(id) => {
                    self.stage = AlbumStage::Song;
                    let url = genius_entity("https://api.genius.com/songs/", id);
                    Step::Call(Request::Get { url, bearer: Some(self.genius_token.clone()) })
                },
                None => self.generate(""),
            },
            AlbumStage::Song => match int_in(&reply, "/response/song/album/id") {
                Some(id) => {
                    self.stage = AlbumStage::Album;
                    let url = genius_entity("https://api.genius.com/albums/", id);
                    Step::Call(Request::Get { url, bearer: Some(self.genius_token.clone()) })
                },
                None => self.generate(""),
            },
            AlbumStage::Album => {
                let description = genius_album_description(&reply);
                self.generate(description.as_str())
            },
            _ => {
                self.stage = AlbumStage::Finished;
                match generated_in(&reply) {
                    Some(doc) => {
                        let info = AlbumInfo {
                            release_year: self.release_year.clone(),
                            genre: self.genre.clone(),
                            context: field_text(doc.as_str(), "/context"),
                            notable_fact: field_text(doc.as_str(), "/notable_fact"),
                        };
                        Step::Done(Some(info))
                    },
                    None => Step::Done(None),
                }
            },
        }
    }
}

#[derive(Debug, Clone, Copy, PartialEq, Eq, Structural)]
pub enum LyricsStage {
    /// Waiting for the lyrics-database search.
    Search,
    /// Waiting for the song page.
    Page,
    /// Waiting for the generated text.
    Generation,
    Finished,
}

/// Lyrics interpretation: a search for the song, its page's lyrics, then a
/// generated reading. A failed search or page only leaves the lyrics out of
/// the prompt.
#[derive(Debug, Clone)]
pub struct LyricsFlow {
    pub title: String,
    pub artist: String,
    pub genius_token: String,
    pub anthropic_key: String,
    pub stage: LyricsStage,
}

/// The lyrics handed to the prompt for a page reply.
pub open spec fn lyrics_in_reply(reply: Option<Seq<char>>) -> Option<Seq<char>> {
    match reply {
        Some(page) => lyrics_excerpt(page),
        None => None,
    }
}

impl LyricsFlow {
    /// Same request: title, artist and credentials.
    pub open spec fn same_request(self, other: LyricsFlow) -> bool {
        &&& self.title@ == other.title@
        &&& self.artist@ == other.artist@
        &&& self.genius_token@ == other.genius_token@
        &&& self.anthropic_key@ == other.anthropic_key@
    }

    /// One step of the flow, from `prev` on `reply`, to `next` asking `s`.
    pub open spec fn advances(
        prev: LyricsFlow,
        next: LyricsFlow,
        reply: Option<Seq<char>>,
        s: Step<LyricsAnalysis>,
    ) -> bool {
        &&& next.same_request(prev)
        &&& match prev.stage {
            LyricsStage::Search => match string_in_reply(reply, "/response/hits/0/result/url"@) {
                Some(url) => next.stage == LyricsStage::Page && is_page(s, url),
                None => {
                    &&& next.stage == LyricsStage::Generation
                    &&& is_generate(
                        s,
                        prev.anthropic_key@,
                        LYRICS_MAX_TOKENS,
                        lyrics_prompt(prev.title@, prev.artist@, None),
                    )
                },
            },
            LyricsStage::Page => {
                &&& next.stage == LyricsStage::Generation
                &&& is_generate(
                    s,
                    prev.anthropic_key@,
                    LYRICS_MAX_TOKENS,
                    lyrics_prompt(prev.title@, prev.artist@, lyrics_in_reply(reply)),
                )
            },
            LyricsStage::Generation => {
                &&& next.stage == LyricsStage::Finished
                &&& match generated_in_reply(reply) {
                    Some(doc) => match s {
                        Step::Done(Some(a)) => a.interpretation@ == field_or_empty(
                            doc,
                            "/interpretation"@,
                        ),
                        _ => false,
                    },
                    None => s matches Step::Done(None),
                }
            },
            LyricsStage::Finished => false,
        }
    }

    /// Begins lyrics interpretation. Without both credentials it ends at
    /// once, with no result and no request; otherwise it asks for the song
    /// search.
    pub fn start(title: &str, artist: &str, config: &Config) -> (r: (LyricsFlow, Step<LyricsAnalysis>))
        ensures
            r.0.title@ == title@,
            r.0.artist@ == artist@,
            r.0.genius_token@ == config.api.genius_token@,
            r.0.anthropic_key@ == config.api.anthropic_key@,
            !config.keys_present() ==> r.0.stage == LyricsStage::Finished && r.1 matches Step::Done(
                None,
            ),
            config.keys_present() ==> r.0.stage == LyricsStage::Search && is_get(
                r.1,
                genius_search_url(artist@, title@),
                Some(config.api.genius_token@),
            ),
    {
        let ready = config.has_keys();
        let flow = LyricsFlow {
            title: String::from_str(title),
            artist: String::from_str(artist),
            genius_token: config.api.genius_token.clone(),
            anthropic_key: config.api.anthropic_key.clone(),
            stage: if ready {
                LyricsStage::Search
            } else {
                LyricsStage::Finished
            },
        };
        if !ready {
            return (flow, Step::Done(None));
        }
        let url = genius_search(artist, title);
        (flow, Step::Call(Request::Get { url, bearer: Some(config.api.genius_token.clone()) }))
    }

    /// Takes the reply to the last request (none when it failed) and says
    /// what comes next.
    pub fn resume(&mut self, reply: Option<String>) -> (r: Step<LyricsAnalysis>)
        requires
            old(self).stage != LyricsStage::Finished,
        ensures
            Self::advances(*old(self), *final(self), reply.deep_view(), r),
    {
        match self.stage {
            LyricsStage::Search => match string_in(&reply, "/response/hits/0/result/url") {
                Some(url) => {
                    self.stage = LyricsStage::Page;
                    Step::Call(Request::Page { url })
                },
                None => {
                    let prompt = build_lyrics_prompt(self.title.as_str(), self.artist.as_str(), None);
                    self.stage = LyricsStage::Generation;
                    Step::Call(
                        Request::Generate {
                            key: self.anthropic_key.clone(),
                            max_tokens: LYRICS_MAX_TOKENS,
                            prompt,
                        },
                    )
                },
            },
            LyricsStage::Page => {
                let lyrics = match &reply {
                    Some(page) => fetch_genius_lyrics(page.as_str()),
                    None => None,
                };
                let prompt = match &lyrics {
                    Some(l) => build_lyrics_prompt(self.title.as_str(), self.artist.as_str(), Some(l.as_str())),
                    None => build_lyrics_prompt(self.title.as_str(), self.artist.as_str(), None),
                };
                self.stage = LyricsStage::Generation;
                Step::Call(
                    Request::Generate {
                        key: self.anthropic_key.clone(),
                        max_tokens: LYRICS_MAX_TOKENS,
                        prompt,
                    },
                )
            },
            _ => {
                self.stage = LyricsStage::Finished;
                match generated_in(&reply) {
                    Some(doc) => Step::Done(
                        Some(LyricsAnalysis { interpretation: field_text(doc.as_str(), "/interpretation") }),
                    ),
                    None => Step::Done(None),
                }
            },
        }
    }
}

} // verus!
