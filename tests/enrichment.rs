use enhanced_music::artwork::{artwork_data_url, artwork_search_url, hd_artwork_url};
use enhanced_music::catalog::{candidate_matches, catalog_search_url, itunes_album_metadata};
use enhanced_music::config::{ApiConfig, Config};
use enhanced_music::enrich::{
    extract_claude_json, genius_album_description, AlbumInfo, AlbumInfoFlow, AlbumStage,
    LyricsAnalysis, LyricsFlow, LyricsStage, Request, Step,
};
use enhanced_music::prompt::{build_album_prompt, build_lyrics_prompt};
use enhanced_music::track::parse_track;

fn config(token: &str, key: &str) -> Config {
    Config {
        api: ApiConfig { genius_token: token.to_string(), anthropic_key: key.to_string() },
    }
}

fn generation_reply(text: &str) -> String {
    let escaped = text.replace('\\', "\\\\").replace('"', "\\\"").replace('\n', "\\n");
    format!("{{\"content\":[{{\"type\":\"text\",\"text\":\"{}\"}}]}}", escaped)
}

#[test]
fn has_keys_needs_both() {
    assert!(config("t", "k").has_keys());
    assert!(!config("", "k").has_keys());
    assert!(!config("t", "").has_keys());
    assert!(!Config::default().has_keys());
}

#[test]
fn catalog_match_is_case_insensitive_substring() {
    assert!(candidate_matches("Discovery (2001 Remaster)", "Daft Punk", "Discovery", "Daft Punk"));
    assert!(candidate_matches("DISCOVERY", "daft punk", "discovery", "DAFT PUNK"));
    assert!(!candidate_matches("Homework", "Daft Punk", "Discovery", "Daft Punk"));
    assert!(!candidate_matches("Discovery", "Punk", "Discovery", "Daft Punk"));
}

#[test]
fn catalog_metadata_takes_first_match() {
    let body = r#"{"results":[
        {"collectionName":"Homework","artistName":"Daft Punk","releaseDate":"1997-01-20T08:00:00Z","primaryGenreName":"House"},
        {"collectionName":"Discovery (2001 Remaster)","artistName":"Daft Punk","releaseDate":"2001-03-07T08:00:00Z","primaryGenreName":"Dance"},
        {"collectionName":"Discovery","artistName":"Daft Punk","releaseDate":"2009-01-01","primaryGenreName":"Pop"}]}"#;
    let (year, genre) = itunes_album_metadata(Some(body), "Daft Punk", "Discovery");
    assert_eq!(year, "2001");
    assert_eq!(genre, "Dance");
}

#[test]
fn catalog_metadata_degrades_to_empty() {
    assert_eq!(itunes_album_metadata(None, "A", "B"), (String::new(), String::new()));
    assert_eq!(itunes_album_metadata(Some("not json"), "A", "B"), (String::new(), String::new()));
    assert_eq!(
        itunes_album_metadata(Some(r#"{"results":[]}"#), "A", "B"),
        (String::new(), String::new())
    );
    let partial = r#"{"results":[{"collectionName":"B","artistName":"A","releaseDate":"99"}]}"#;
    assert_eq!(itunes_album_metadata(Some(partial), "A", "B"), (String::new(), String::new()));
    let genre_only = r#"{"results":[{"collectionName":"B","artistName":"A","primaryGenreName":"Rock"}]}"#;
    assert_eq!(itunes_album_metadata(Some(genre_only), "a", "b"), (String::new(), "Rock".to_string()));
}

#[test]
fn catalog_url_shape() {
    assert_eq!(
        catalog_search_url("Daft Punk", "Discovery"),
        "https://itunes.apple.com/search?term=Daft+Punk+Discovery&media=music&entity=album&limit=10"
    );
    assert_eq!(
        artwork_search_url("One More Time", "Daft Punk"),
        "https://itunes.apple.com/search?term=Daft+Punk+One+More+Time&media=music&entity=song&limit=1"
    );
}

#[test]
fn album_prompt_with_and_without_description() {
    assert_eq!(
        build_album_prompt("Discovery", "Daft Punk", "2001", "Dance", ""),
        "En te basant sur tes connaissances, pour l'album \"Discovery\" de Daft Punk (sorti en 2001, genre : Dance), réponds en français.\n\nRéponds UNIQUEMENT avec ce JSON valide (sans markdown) :{\"context\":\"2-3 phrases sur le contexte et la genèse de l'album\",\"notable_fact\":\"Un fait marquant ou anecdote sur cet album\"}"
    );
    assert_eq!(
        build_album_prompt("X", "Y", "", "Rock", "Desc"),
        "Pour l'album \"X\" de Y, basé sur cette description :\nDesc\nRéponds en français.\n\nRéponds UNIQUEMENT avec ce JSON valide (sans markdown) :{\"context\":\"2-3 phrases sur le contexte et la genèse de l'album\",\"notable_fact\":\"Un fait marquant ou anecdote sur cet album\"}"
    );
}

#[test]
fn lyrics_prompt_with_and_without_lyrics() {
    let tail = " : le thème principal, l'émotion portée, et ce que l'artiste cherche à exprimer. Sois précis et va au-delà du simple résumé.\n\nRéponds UNIQUEMENT avec ce JSON (sans markdown) : {\"interpretation\": \"...\"}";
    assert_eq!(
        build_lyrics_prompt("T", "A", Some("la la")),
        format!("Tu es un expert en musique et en analyse de textes. Pour le morceau \"T\" de A, voici les paroles :\n\nla la\n\nBasé sur ces paroles, explique en 3-4 phrases en français{}", tail)
    );
    assert_eq!(
        build_lyrics_prompt("T", "A", None),
        format!("Tu es un expert en musique et en analyse de textes. Pour le morceau \"T\" de A, explique en 3-4 phrases en français (en te basant sur tes connaissances){}", tail)
    );
}

#[test]
fn empty_lyrics_use_knowledge_prompt() {
    assert_eq!(build_lyrics_prompt("T", "A", Some("")), build_lyrics_prompt("T", "A", None));
    assert_ne!(build_lyrics_prompt("T", "A", Some("x")), build_lyrics_prompt("T", "A", None));
}

#[test]
fn generated_json_unwrapped() {
    let reply = generation_reply("```json\n{\"context\":\"c\"}\n```");
    assert_eq!(extract_claude_json(&reply), Some("{\"context\":\"c\"}".to_string()));
    assert_eq!(extract_claude_json(&generation_reply("no json here")), None);
    assert_eq!(extract_claude_json("{\"content\":[]}"), None);
    assert_eq!(extract_claude_json("garbage"), None);
}

#[test]
fn album_description_filters_placeholder() {
    let r = |d: &str| Some(format!("{{\"response\":{{\"album\":{{\"description_preview\":\"{}\"}}}}}}", d));
    assert_eq!(genius_album_description(&r("A great album")), "A great album");
    assert_eq!(genius_album_description(&r("?")), "");
    assert_eq!(genius_album_description(&r("")), "");
    assert_eq!(genius_album_description(&None), "");
}

#[test]
fn missing_credentials_make_no_request() {
    for c in [config("", "k"), config("t", ""), config("", "")] {
        let (flow, step) = AlbumInfoFlow::start("Discovery", "Daft Punk", &c);
        assert!(matches!(step, Step::Done(None)));
        assert_eq!(flow.stage, AlbumStage::Finished);
        let (flow, step) = LyricsFlow::start("One More Time", "Daft Punk", &c);
        assert!(matches!(step, Step::Done(None)));
        assert_eq!(flow.stage, LyricsStage::Finished);
    }
}

fn expect_get(step: Step<AlbumInfo>) -> (String, Option<String>) {
    match step {
        Step::Call(Request::Get { url, bearer }) => (url, bearer),
        other => panic!("expected a GET, got {:?}", other),
    }
}

#[test]
fn album_flow_end_to_end() {
    let c = config("tok", "key");
    let (mut flow, step) = AlbumInfoFlow::start("Discovery", "Daft Punk", &c);
    let (url, bearer) = expect_get(step);
    assert!(url.contains("term=Daft+Punk+Discovery"));
    assert_eq!(bearer, None);
    let catalog = r#"{"results":[{"collectionName":"Discovery","artistName":"Daft Punk","releaseDate":"2001-03-07","primaryGenreName":"Dance"}]}"#;
    let (url, bearer) = expect_get(flow.resume(Some(catalog.to_string())));
    assert_eq!(url, "https://api.genius.com/search?q=Daft+Punk+Discovery");
    assert_eq!(bearer, Some("tok".to_string()));
    let step = flow.resume(None);
    match step {
        Step::Call(Request::Generate { key, max_tokens, prompt }) => {
            assert_eq!(key, "key");
            assert_eq!(max_tokens, 400);
            assert_eq!(prompt, build_album_prompt("Discovery", "Daft Punk", "2001", "Dance", ""));
        }
        other => panic!("expected generation, got {:?}", other),
    }
    let reply = generation_reply("```json\n{\"context\":\"...\",\"notable_fact\":\"...\"}\n```");
    match flow.resume(Some(reply)) {
        Step::Done(Some(info)) => {
            assert_eq!(info.release_year, "2001");
            assert_eq!(info.genre, "Dance");
            assert_eq!(info.context, "...");
            assert_eq!(info.notable_fact, "...");
        }
        other => panic!("expected a result, got {:?}", other),
    }
    assert_eq!(flow.stage, AlbumStage::Finished);
}

#[test]
fn album_flow_follows_song_and_album() {
    let c = config("tok", "key");
    let (mut flow, _) = AlbumInfoFlow::start("Discovery", "Daft Punk", &c);
    flow.resume(None);
    let search = r#"{"response":{"hits":[{"result":{"id":42,"url":"u"}}]}}"#;
    let (url, _) = expect_get(flow.resume(Some(search.to_string())));
    assert_eq!(url, "https://api.genius.com/songs/42");
    let song = r#"{"response":{"song":{"album":{"id":7}}}}"#;
    let (url, _) = expect_get(flow.resume(Some(song.to_string())));
    assert_eq!(url, "https://api.genius.com/albums/7");
    let album = r#"{"response":{"album":{"description_preview":"Robots."}}}"#;
    match flow.resume(Some(album.to_string())) {
        Step::Call(Request::Generate { prompt, .. }) => {
            assert_eq!(prompt, build_album_prompt("Discovery", "Daft Punk", "", "", "Robots."));
        }
        other => panic!("expected generation, got {:?}", other),
    }
}

#[test]
fn album_flow_malformed_generation_gives_nothing() {
    let c = config("tok", "key");
    for reply in [
        Some(generation_reply("{\"context\": \"unterminated")),
        Some("{\"content\":[{\"type\":\"text\"}]}".to_string()),
        Some("not json".to_string()),
        None,
    ] {
        let (mut flow, _) = AlbumInfoFlow::start("A", "B", &c);
        flow.resume(None);
        flow.resume(None);
        assert_eq!(flow.stage, AlbumStage::Generation);
        assert!(matches!(flow.resume(reply), Step::Done(None)));
    }
}

#[test]
fn album_flow_missing_fields_default_to_empty() {
    let c = config("tok", "key");
    let (mut flow, _) = AlbumInfoFlow::start("A", "B", &c);
    flow.resume(None);
    flow.resume(None);
    match flow.resume(Some(generation_reply("{\"other\": 1}"))) {
        Step::Done(Some(info)) => {
            assert_eq!(info.context, "");
            assert_eq!(info.notable_fact, "");
        }
        other => panic!("expected a result, got {:?}", other),
    }
}

#[test]
fn lyrics_flow_end_to_end() {
    let c = config("tok", "key");
    let (mut flow, step) = LyricsFlow::start("One More Time", "Daft Punk", &c);
    match step {
        Step::Call(Request::Get { url, bearer }) => {
            assert_eq!(url, "https://api.genius.com/search?q=Daft+Punk+One+More+Time");
            assert_eq!(bearer, Some("tok".to_string()));
        }
        other => panic!("expected a GET, got {:?}", other),
    }
    let search = r#"{"response":{"hits":[{"result":{"id":1,"url":"https://genius.com/song"}}]}}"#;
    match flow.resume(Some(search.to_string())) {
        Step::Call(Request::Page { url }) => assert_eq!(url, "https://genius.com/song"),
        other => panic!("expected a page, got {:?}", other),
    }
    let page = "<div data-lyrics-container=\"true\">One more time<br>we're gonna celebrate</div>";
    match flow.resume(Some(page.to_string())) {
        Step::Call(Request::Generate { key, max_tokens, prompt }) => {
            assert_eq!(key, "key");
            assert_eq!(max_tokens, 450);
            assert_eq!(
                prompt,
                build_lyrics_prompt("One More Time", "Daft Punk", Some("One more time\nwe're gonna celebrate"))
            );
        }
        other => panic!("expected generation, got {:?}", other),
    }
    let step: Step<LyricsAnalysis> = flow.resume(Some(generation_reply("{\"interpretation\": \"Joy.\"}")));
    match step {
        Step::Done(Some(a)) => assert_eq!(a.interpretation, "Joy."),
        other => panic!("expected a result, got {:?}", other),
    }
}

#[test]
fn lyrics_flow_no_hit_uses_knowledge_prompt() {
    let c = config("tok", "key");
    for reply in [Some("{\"response\":{\"hits\":[]}}".to_string()), None] {
        let (mut flow, _) = LyricsFlow::start("T", "A", &c);
        match flow.resume(reply) {
            Step::Call(Request::Generate { key, max_tokens, prompt }) => {
                assert_eq!(key, "key");
                assert_eq!(max_tokens, 450);
                assert_eq!(prompt, build_lyrics_prompt("T", "A", None));
            }
            other => panic!("expected generation, got {:?}", other),
        }
        assert_eq!(flow.stage, LyricsStage::Generation);
        let step = flow.resume(Some(generation_reply("{\"interpretation\": \"x\"}")));
        assert!(matches!(step, Step::Done(Some(_))));
    }
}

#[test]
fn lyrics_flow_without_page_uses_knowledge_prompt() {
    let c = config("tok", "key");
    let (mut flow, _) = LyricsFlow::start("T", "A", &c);
    flow.resume(Some(r#"{"response":{"hits":[{"result":{"url":"p"}}]}}"#.to_string()));
    match flow.resume(None) {
        Step::Call(Request::Generate { prompt, .. }) => {
            assert_eq!(prompt, build_lyrics_prompt("T", "A", None));
        }
        other => panic!("expected generation, got {:?}", other),
    }
}

#[test]
fn artwork_address_and_data_url() {
    let reply = r#"{"results":[{"artworkUrl100":"https://x/100x100bb/a/100x100bb.jpg"}]}"#;
    assert_eq!(hd_artwork_url(reply), Some("https://x/600x600bb/a/600x600bb.jpg".to_string()));
    assert_eq!(hd_artwork_url(r#"{"results":[]}"#), None);
    assert_eq!(artwork_data_url(&vec![1, 2, 3]), Some("data:image/jpeg;base64,AQID".to_string()));
    assert_eq!(artwork_data_url(&vec![255, 0]), Some("data:image/jpeg;base64,/wA=".to_string()));
    assert_eq!(artwork_data_url(&vec![]), None);
}

#[test]
fn track_report_parsing() {
    let t = parse_track("One More Time|||Daft Punk|||Discovery|||playing\n").unwrap();
    assert_eq!(t.title, "One More Time");
    assert_eq!(t.artist, "Daft Punk");
    assert_eq!(t.album, "Discovery");
    assert!(t.is_playing);
    let p = parse_track("a|||b|||c|||paused").unwrap();
    assert!(!p.is_playing);
    let extra = parse_track("a|||b|||c|||d|||playing").unwrap();
    assert_eq!(extra.album, "c");
    assert!(!extra.is_playing);
    assert!(parse_track("   ").is_none());
    assert!(parse_track("a|||b|||c").is_none());
}
