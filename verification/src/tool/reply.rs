//! What the tools say: the text of each success.

use crate::client::spotify::v1::search::artist::Artist;
use crate::discovery::Discovered;
use crate::error::{Failure, FailureView};
use crate::model::excluded_artist::ExcludedArtist;
use crate::model::music_genre::MusicGenre;
use crate::model::music_search_progress::MusicSearchProgress;
use crate::text::{decimal, joined, push_decimal, push_joined, texts};
use vstd::prelude::*;

verus! {


/// The lines that describe one found artist.
pub open spec fn artist_entry(artist: Artist) -> Seq<char> {
    "アーティストID: "@ + artist.id@ + "\nアーティスト名: "@ + artist.name@ + "\nジャンル: "@ + joined(
        texts(artist.genres@),
        ","@,
    ) + "\nURI: "@ + artist.uri@ + "\n"@
}

/// The entries of the artists, in their order.
pub open spec fn artist_entries(artists: Seq<Artist>) -> Seq<char>
    decreases artists.len(),
{
    if artists.len() == 0 {
        Seq::empty()
    } else {
        artist_entries(artists.drop_last()) + artist_entry(artists.last())
    }
}

/// What a search of `genre` that found `artists` answers.
pub open spec fn search_text(genre: Seq<char>, artists: Seq<Artist>) -> Seq<char> {
    if artists.len() == 0 {
        "ジャンル '"@ + genre + "' に一致するアーティストが見つかりませんでした。"@
    } else {
        "ジャンル '"@ + genre + "' の検索結果:\n\n"@ + artist_entries(artists)
    }
}

/// The line that says whether one artist is followed.
pub open spec fn following_line(followed: bool) -> Seq<char> {
    if followed {
        "フォロー済み\n"@
    } else {
        "未フォロー\n"@
    }
}

/// The lines for the flags, in their order.
pub open spec fn following_lines(flags: Seq<bool>) -> Seq<char>
    decreases flags.len(),
{
    if flags.len() == 0 {
        Seq::empty()
    } else {
        following_lines(flags.drop_last()) + following_line(flags.last())
    }
}

/// What a check of followed artists answers.
pub open spec fn following_text(flags: Seq<bool>) -> Seq<char> {
    "アーティストのフォロー状況:\n"@ + following_lines(flags)
}

/// The lines that describe one excluded artist.
pub open spec fn excluded_entry(row: ExcludedArtist) -> Seq<char> {
    "アーティストID: "@ + row.id@ + "\nアーティスト名: "@ + row.name@ + "\n"@
}

/// The entries of the rows, in their order.
pub open spec fn excluded_entries(rows: Seq<ExcludedArtist>) -> Seq<char>
    decreases rows.len(),
{
    if rows.len() == 0 {
        Seq::empty()
    } else {
        excluded_entries(rows.drop_last()) + excluded_entry(rows.last())
    }
}

/// What a lookup in the exclusion list answers.
pub open spec fn excluded_text(rows: Seq<ExcludedArtist>) -> Seq<char> {
    "除外されているアーティスト:\n"@ + excluded_entries(rows)
}

/// The lines that describe one genre.
pub open spec fn genre_entry(genre: MusicGenre) -> Seq<char> {
    "ID: "@ + decimal(genre.id as nat) + "\nジャンル名: "@ + genre.name@ + "\n検索キー: "@
        + genre.search_key@ + "\n\n"@
}

/// The entries of the genres, in their order.
pub open spec fn genre_entries(genres: Seq<MusicGenre>) -> Seq<char>
    decreases genres.len(),
{
    if genres.len() == 0 {
        Seq::empty()
    } else {
        genre_entries(genres.drop_last()) + genre_entry(genres.last())
    }
}

/// What the list of genres answers.
pub open spec fn genres_text(genres: Seq<MusicGenre>) -> Seq<char> {
    "音楽ジャンル:\n"@ + genre_entries(genres)
}

/// What a lookup of a genre's progress answers.
pub open spec fn progress_text(found: Option<MusicSearchProgress>) -> Seq<char> {
    match found {
        Some(row) => "音楽ジャンルID: "@ + decimal(row.music_genre_id as nat) + "\n現在の検索位置: "@
            + decimal(row.position as nat),
        None => "音楽検索の進捗が見つかりません"@,
    }
}

/// What is answered when a genre's progress has been started.
pub open spec fn started_text(music_genre_id: u32) -> Seq<char> {
    "音楽ジャンルID: "@ + decimal(music_genre_id as nat) + " の音楽検索の進捗を登録しました"@
}

/// What is answered when a genre's progress has been advanced.
pub open spec fn advanced_text(music_genre_id: u32) -> Seq<char> {
    "音楽ジャンルID: "@ + decimal(music_genre_id as nat) + " の音楽検索の進捗を更新しました"@
}

fn push_artist(out: &mut String, artist: &Artist)
    ensures
        final(out)@ == old(out)@ + artist_entry(*artist),
{
    out.append("アーティストID: ");
    out.append(artist.id.as_str());
    out.append("\nアーティスト名: ");
    out.append(artist.name.as_str());
    out.append("\nジャンル: ");
    push_joined(out, artist.genres.as_slice(), ",");
    out.append("\nURI: ");
    out.append(artist.uri.as_str());
    out.append("\n");
    assert(out@ =~= old(out)@ + artist_entry(*artist));
}

/// The text that lists the artists found for `genre`, or says that there
/// are none.
pub fn search_output(genre: &str, artists: &[Artist]) -> (output: String)
    ensures
        output@ == search_text(genre@, artists@),
{
    let mut output = "ジャンル '".to_owned();
    output.append(genre);
    if artists.len() == 0 {
        output.append("' に一致するアーティストが見つかりませんでした。");
        return output;
    }
    output.append("' の検索結果:\n\n");
    let ghost head = output@;
    let mut i: usize = 0;
    assert(artists@.take(0) =~= Seq::<Artist>::empty());
    assert(output@ =~= head + artist_entries(artists@.take(0)));
    while i < artists.len()
        invariant
            i <= artists.len(),
            output@ == head + artist_entries(artists@.take(i as int)),
        decreases artists.len() - i,
    {
        push_artist(&mut output, &artists[i]);
        proof {
            assert(artists@.take(i + 1).drop_last() =~= artists@.take(i as int));
            assert(artists@.take(i + 1).last() == artists@[i as int]);
            assert(output@ =~= head + artist_entries(artists@.take(i + 1)));
        }
        i += 1;
    }
    assert(artists@.take(i as int) =~= artists@);
    output
}

/// The text of a check of followed artists: a heading, then one line per
/// flag, in the order of the flags.
pub fn following_output(flags: &[bool]) -> (output: String)
    ensures
        output@ == following_text(flags@),
{
    let mut output = "アーティストのフォロー状況:\n".to_owned();
    let ghost head = output@;
    let mut i: usize = 0;
    assert(flags@.take(0) =~= Seq::<bool>::empty());
    assert(output@ =~= head + following_lines(flags@.take(0)));
    while i < flags.len()
        invariant
            i <= flags.len(),
            output@ == head + following_lines(flags@.take(i as int)),
        decreases flags.len() - i,
    {
        if flags[i] {
            output.append("フォロー済み\n");
        } else {
            output.append("未フォロー\n");
        }
        proof {
            assert(flags@.take(i + 1).drop_last() =~= flags@.take(i as int));
            assert(flags@.take(i + 1).last() == flags@[i as int]);
            assert(output@ =~= head + following_lines(flags@.take(i + 1)));
        }
        i += 1;
    }
    assert(flags@.take(i as int) =~= flags@);
    output
}

/// The text of a lookup in the exclusion list: a heading, then one entry
/// per row, in the order of the rows.
pub fn excluded_output(rows: &[ExcludedArtist]) -> (output: String)
    ensures
        output@ == excluded_text(rows@),
{
    let mut output = "除外されているアーティスト:\n".to_owned();
    let ghost head = output@;
    let mut i: usize = 0;
    assert(rows@.take(0) =~= Seq::<ExcludedArtist>::empty());
    assert(output@ =~= head + excluded_entries(rows@.take(0)));
    while i < rows.len()
        invariant
            i <= rows.len(),
            output@ == head + excluded_entries(rows@.take(i as int)),
        decreases rows.len() - i,
    {
        let ghost before = output@;
        output.append("アーティストID: ");
        output.append(rows[i].id.as_str());
        output.append("\nアーティスト名: ");
        output.append(rows[i].name.as_str());
        output.append("\n");
        proof {
            assert(output@ =~= before + excluded_entry(rows@[i as int]));
            assert(rows@.take(i + 1).drop_last() =~= rows@.take(i as int));
            assert(rows@.take(i + 1).last() == rows@[i as int]);
            assert(output@ =~= head + excluded_entries(rows@.take(i + 1)));
        }
        i += 1;
    }
    assert(rows@.take(i as int) =~= rows@);
    output
}

/// The text of the list of genres: a heading, then one entry per genre, in
/// the order given.
pub fn genres_output(genres: &[MusicGenre]) -> (output: String)
    ensures
        output@ == genres_text(genres@),
{
    let mut output = "音楽ジャンル:\n".to_owned();
    let ghost head = output@;
    let mut i: usize = 0;
    assert(genres@.take(0) =~= Seq::<MusicGenre>::empty());
    assert(output@ =~= head + genre_entries(genres@.take(0)));
    while i < genres.len()
        invariant
            i <= genres.len(),
            output@ == head + genre_entries(genres@.take(i as int)),
        decreases genres.len() - i,
    {
        let ghost before = output@;
        output.append("ID: ");
        push_decimal(&mut output, genres[i].id);
        output.append("\nジャンル名: ");
        output.append(genres[i].name.as_str());
        output.append("\n検索キー: ");
        output.append(genres[i].search_key.as_str());
        output.append("\n\n");
        proof {
            assert(output@ =~= before + genre_entry(genres@[i as int]));
            assert(genres@.take(i + 1).drop_last() =~= genres@.take(i as int));
            assert(genres@.take(i + 1).last() == genres@[i as int]);
            assert(output@ =~= head + genre_entries(genres@.take(i + 1)));
        }
        i += 1;
    }
    assert(genres@.take(i as int) =~= genres@);
    output
}

/// The text of a lookup of a genre's progress: the genre and its position,
/// or the notice that the genre was never searched.
pub fn progress_output(found: Option<MusicSearchProgress>) -> (output: String)
    ensures
        output@ == progress_text(found),
{
    match found {
        Some(row) => {
            let mut output = "音楽ジャンルID: ".to_owned();
            push_decimal(&mut output, row.music_genre_id);
            output.append("\n現在の検索位置: ");
            push_decimal(&mut output, row.position);
            assert(output@ =~= progress_text(Some(row)));
            output
        },
        None => "音楽検索の進捗が見つかりません".to_owned(),
    }
}

/// The confirmation that a genre's progress has been started.
pub fn started_output(music_genre_id: u32) -> (output: String)
    ensures
        output@ == started_text(music_genre_id),
{
    let mut output = "音楽ジャンルID: ".to_owned();
    push_decimal(&mut output, music_genre_id);
    output.append(" の音楽検索の進捗を登録しました");
    assert(output@ =~= started_text(music_genre_id));
    output
}

/// The confirmation that a genre's progress has been advanced.
pub fn advanced_output(music_genre_id: u32) -> (output: String)
    ensures
        output@ == advanced_text(music_genre_id),
{
    let mut output = "音楽ジャンルID: ".to_owned();
    push_decimal(&mut output, music_genre_id);
    output.append(" の音楽検索の進捗を更新しました");
    assert(output@ =~= advanced_text(music_genre_id));
    output
}

/// Answers a discovery step: the artists that the step kept, one entry
/// each, or the step's failure.
pub fn discover(genre: &str, outcome: Result<Discovered, Failure>) -> (reply: Result<String, Failure>)
    ensures
        match (outcome, reply) {
            (Ok(discovered), Ok(text)) => text@ == search_text(genre@, discovered.artists@),
            (Err(failed), Err(failure)) => failure == failed,
            _ => false,
        },
{
    match outcome {
        Ok(discovered) => Ok(search_output(genre, discovered.artists.as_slice())),
        Err(failure) => Err(failure),
    }
}

/// The text or failure that an outcome holds.
pub open spec fn outcome_view(outcome: Result<String, Failure>) -> Result<Seq<char>, FailureView> {
    match outcome {
        Ok(text) => Ok(text@),
        Err(failure) => Err(failure@),
    }
}

} // verus!
