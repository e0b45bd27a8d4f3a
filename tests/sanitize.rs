use enhanced_music::html::{extract_lyrics_from_html, fetch_genius_lyrics, html_to_text};
use enhanced_music::text::strip_code_fences;
use enhanced_music::url::{decimal_text, signed_decimal_text, url_encode};

#[test]
fn strip_fences_json_tagged() {
    assert_eq!(strip_code_fences("```json\n{\"a\":1}\n```"), "{\"a\":1}");
}

#[test]
fn strip_fences_plain_fence_and_spaces() {
    assert_eq!(strip_code_fences("  \n```\n{\"a\":1}\n```  \n"), "{\"a\":1}");
}

#[test]
fn strip_fences_without_fence_only_trims() {
    assert_eq!(strip_code_fences("  {\"a\":1}\t"), "{\"a\":1}");
    assert_eq!(strip_code_fences(""), "");
}

#[test]
fn strip_fences_removes_one_marker_each_side() {
    assert_eq!(strip_code_fences("``````"), "");
    assert_eq!(strip_code_fences("```json```"), "");
}

#[test]
fn strip_fences_twice_equals_once() {
    for t in ["```json\n{\"x\": 2}\n```", "  plain  ", "```\nabc", "abc\n```", "\u{3000}x\u{a0}"] {
        let once = strip_code_fences(t).to_string();
        assert_eq!(strip_code_fences(&once), once);
    }
}

#[test]
fn strip_fences_second_pass_differs_on_nested_fence() {
    let once = strip_code_fences("``` ```x```").to_string();
    assert_eq!(once, "```x");
    assert_eq!(strip_code_fences(&once), "x");
}

#[test]
fn decode_entities_and_break() {
    assert_eq!(html_to_text("A &amp; B<br>C"), "A & B\nC");
}

#[test]
fn decode_all_table_entities() {
    assert_eq!(html_to_text("&lt;&gt;&quot;&apos;&#x27;&#39;&amp;amp;"), "<>\"'''&amp;");
}

#[test]
fn decode_unknown_entity_kept() {
    assert_eq!(html_to_text("a &nbsp; & b"), "a &nbsp; & b");
}

#[test]
fn decode_break_variants_and_other_tags() {
    assert_eq!(html_to_text("x< BR/>y<Br >z<i>w</i><p>"), "x\ny\nzw");
}

#[test]
fn decode_unclosed_tag_drops_bracket() {
    assert_eq!(html_to_text("a < b"), "a  b");
}

#[test]
fn decode_keeps_multibyte_text() {
    assert_eq!(html_to_text("Été <b>à</b> Noël"), "Été à Noël");
}

#[test]
fn lyrics_none_without_container() {
    assert_eq!(extract_lyrics_from_html("<html><div class=\"x\">hello</div></html>"), "");
    assert_eq!(extract_lyrics_from_html(""), "");
}

#[test]
fn lyrics_single_plain_container() {
    let h = "<body><div data-lyrics-container=\"true\" class=\"c\">  some words here \n</div><p>after</p>";
    assert_eq!(extract_lyrics_from_html(h), "some words here");
}

#[test]
fn lyrics_nested_markup() {
    let h = "<div data-lyrics-container=\"true\">Line one<br/><div class=\"a\"><i>two</i></div> &amp; three</div>tail";
    assert_eq!(extract_lyrics_from_html(h), "Line one\ntwo & three");
}

#[test]
fn lyrics_several_containers_joined() {
    let h = "<div data-lyrics-container=\"true\">Verse 1</div>x<div data-lyrics-container=\"true\">Verse 2</div>";
    assert_eq!(extract_lyrics_from_html(h), "Verse 1\nVerse 2");
}

#[test]
fn lyrics_unclosed_container_runs_to_end() {
    let h = "<div data-lyrics-container=\"true\">open <div>inner";
    assert_eq!(extract_lyrics_from_html(h), "open inner");
}

#[test]
fn lyrics_marker_without_bracket() {
    assert_eq!(extract_lyrics_from_html("<div data-lyrics-container=\"true\""), "");
}

#[test]
fn extractor_caps_at_three_thousand_chars() {
    let page = format!("<div data-lyrics-container=\"true\">{}</div>", "a".repeat(3001));
    assert_eq!(extract_lyrics_from_html(&page), "a".repeat(3000));
    let exact = format!("<div data-lyrics-container=\"true\">{}</div>", "b".repeat(3000));
    assert_eq!(extract_lyrics_from_html(&exact), "b".repeat(3000));
}

#[test]
fn lyrics_blank_page_gives_none() {
    assert_eq!(fetch_genius_lyrics("<div data-lyrics-container=\"true\">   </div>"), None);
    assert_eq!(fetch_genius_lyrics("nothing here"), None);
}

#[test]
fn lyrics_capped_at_three_thousand_chars() {
    let body = "é".repeat(3500);
    let page = format!("<div data-lyrics-container=\"true\">{}</div>", body);
    let l = fetch_genius_lyrics(&page).unwrap();
    assert_eq!(l.chars().count(), 3000);
    assert_eq!(l, "é".repeat(3000));
    let short = fetch_genius_lyrics("<div data-lyrics-container=\"true\">la la</div>");
    assert_eq!(short, Some("la la".to_string()));
}

#[test]
fn url_encode_space_is_plus() {
    assert_eq!(url_encode("Daft Punk"), "Daft+Punk");
}

#[test]
fn url_encode_escapes_each_byte() {
    assert_eq!(url_encode("Mötley"), "M%C3%B6tley");
}

#[test]
fn url_encode_unreserved_and_reserved() {
    assert_eq!(url_encode("a-b_c.d~"), "a-b_c.d%7E");
    assert_eq!(url_encode("AC/DC & co=1"), "AC%2FDC+%26+co%3D1");
    assert_eq!(url_encode(""), "");
}

#[test]
fn decimal_rendering() {
    assert_eq!(decimal_text(0), "0");
    assert_eq!(decimal_text(1234), "1234");
    assert_eq!(signed_decimal_text(-42), "-42");
    assert_eq!(signed_decimal_text(i64::MIN), "-9223372036854775808");
    assert_eq!(signed_decimal_text(i64::MAX), "9223372036854775807");
}
