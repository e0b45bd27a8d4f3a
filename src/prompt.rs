//! The prompts sent to the text-generation service.
use vstd::prelude::*;

verus! {

/// `" (sorti en <year>, genre : <genre>)"`, or nothing without a year.
pub open spec fn album_meta(year: Seq<char>, genre: Seq<char>) -> Seq<char> {
    if year.len() == 0 {
        Seq::empty()
    } else {
        " (sorti en "@ + year + ", genre : "@ + genre + ")"@
    }
}

/// The album prompt: grounded in the description when there is one, on the
/// model's own knowledge otherwise, and asking for a bare JSON object with
/// `context` and `notable_fact`.
pub open spec fn album_prompt(
    album: Seq<char>,
    artist: Seq<char>,
    year: Seq<char>,
    genre: Seq<char>,
    description: Seq<char>,
) -> Seq<char> {
    let meta = album_meta(year, genre);
    let base = if description.len() == 0 {
        "En te basant sur tes connaissances, pour l'album \""@ + album + "\" de "@ + artist + meta
            + ", réponds en français."@
    } else {
        "Pour l'album \""@ + album + "\" de "@ + artist + meta
            + ", basé sur cette description :\n"@ + description + "\nRéponds en français."@
    };
    base + "\n\nRéponds UNIQUEMENT avec ce JSON valide (sans markdown) :{\"context\":\"2-3 phrases sur le contexte et la genèse de l'album\",\"notable_fact\":\"Un fait marquant ou anecdote sur cet album\"}"@
}

pub fn build_album_prompt(
    album: &str,
    artist: &str,
    year: &str,
    genre: &str,
    description: &str,
) -> (r: String)
    ensures
        r@ == album_prompt(album@, artist@, year@, genre@, description@),
{
    let mut meta = String::new();
    if !year.is_empty() {
        meta.append(" (sorti en ");
        meta.append(year);
        meta.append(", genre : ");
        meta.append(genre);
        meta.append(")");
    }
    let mut s = String::new();
    if description.is_empty() {
        s.append("En te basant sur tes connaissances, pour l'album \"");
        s.append(album);
        s.append("\" de ");
        s.append(artist);
        s.append(meta.as_str());
        s.append(", réponds en français.");
    } else {
        s.append("Pour l'album \"");
        s.append(album);
        s.append("\" de ");
        s.append(artist);
        s.append(meta.as_str());
        s.append(", basé sur cette description :\n");
        s.append(description);
        s.append("\nRéponds en français.");
    }
    s.append(
        "\n\nRéponds UNIQUEMENT avec ce JSON valide (sans markdown) :{\"context\":\"2-3 phrases sur le contexte et la genèse de l'album\",\"notable_fact\":\"Un fait marquant ou anecdote sur cet album\"}",
    );
    proof {
        assert(meta@ =~= album_meta(year@, genre@));
        assert(s@ =~= album_prompt(album@, artist@, year@, genre@, description@));
    }
    s
}

/// The lyrics prompt: grounded in the lyrics when some were found, on the
/// model's own knowledge otherwise, and asking for a bare JSON object with
/// `interpretation`.
pub open spec fn lyrics_prompt(title: Seq<char>, artist: Seq<char>, lyrics: Option<Seq<char>>) -> Seq<
    char,
> {
    let intro = "Tu es un expert en musique et en analyse de textes. Pour le morceau \""@ + title
        + "\" de "@ + artist;
    let body = match lyrics {
        Some(l) if l.len() > 0 => intro + ", voici les paroles :\n\n"@ + l
            + "\n\nBasé sur ces paroles, explique en 3-4 phrases en français"@,
        _ => intro + ", explique en 3-4 phrases en français (en te basant sur tes connaissances)"@,
    };
    body + " : le thème principal, l'émotion portée, et ce que l'artiste cherche à exprimer. Sois précis et va au-delà du simple résumé.\n\nRéponds UNIQUEMENT avec ce JSON (sans markdown) : {\"interpretation\": \"...\"}"@
}

pub fn build_lyrics_prompt(title: &str, artist: &str, lyrics: Option<&str>) -> (r: String)
    ensures
        r@ == lyrics_prompt(title@, artist@, lyrics.deep_view()),
{
    let mut s = String::new();
    s.append("Tu es un expert en musique et en analyse de textes. Pour le morceau \"");
    s.append(title);
    s.append("\" de ");
    s.append(artist);
    match lyrics {
        Some(l) if !l.is_empty() => {
            s.append(", voici les paroles :\n\n");
            s.append(l);
            s.append("\n\nBasé sur ces paroles, explique en 3-4 phrases en français");
        },
        _ => {
            s.append(", explique en 3-4 phrases en français (en te basant sur tes connaissances)");
        },
    }
    s.append(
        " : le thème principal, l'émotion portée, et ce que l'artiste cherche à exprimer. Sois précis et va au-delà du simple résumé.\n\nRéponds UNIQUEMENT avec ce JSON (sans markdown) : {\"interpretation\": \"...\"}",
    );
    proof {
        assert(s@ =~= lyrics_prompt(title@, artist@, lyrics.deep_view()));
    }
    s
}

} // verus!
