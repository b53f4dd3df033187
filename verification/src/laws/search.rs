//! Laws of the search for tracks, of the ranking and of the cache.
use vstd::prelude::*;
use crate::config::OutboundSettings;
use crate::laws::command::{cookies_named, way_out};
use crate::model::{Track, TrackSource};
use crate::records::{keep_readable, readable};
use crate::resolve::ytdl::{
    audio_score, checked_score, extract_tracks, finish_search, flat_search_args, flat_search_lines,
    flat_title, flat_video_to_track, flat_video_with_id, found_videos, is_best_video, lowered_fits,
    normalize_for_match, normalize_lowered, normalized, plan_search, plan_url, resolve_url_to_track,
    score_fits, score_lowered, score_title_for_audio, search_failure, video_to_track, video_with_id,
    FlatVideo, SearchOutcome, SearchPlan, SearchRequest, TrackCache, UrlOutcome, Video, VideoOutput,
    YtdlError,
};
use crate::text::{
    alphanumeric, ascii_only, byte_len, has_text, lines, lowercase, number_text, split_lines,
    trimmed, words,
};

verus! {

/// The messages of the errors.
pub proof fn law_search_messages(err: &YtdlError, r: String)
    requires
        call_ensures(YtdlError::message, (err,), r),
    ensures
        err is MissingBinary ==> r@ == "yt-dlp not available in PATH"@,
        err is InvocationFailed ==> r@ == "yt-dlp invocation failed: "@ + err->InvocationFailed_0@,
        err is ParseError ==> r@ == "failed to parse yt-dlp json: "@ + err->ParseError_0@,
{
}

/// A new cache is empty and keeps tracks for ten minutes.
pub proof fn law_new_cache(cache: &mut TrackCache, key: &str, now: u64, r: Option<Track>)
    requires
        call_ensures(TrackCache::new, (), *old(cache)),
        call_ensures(TrackCache::get, (cache, key, now), r),
    ensures
        r is None,
        old(cache).ttl() == 600_000_000_000,
{
}

/// A track that was put into the cache is given back under its key as long as no more than the
/// cache's time has passed, and afterwards no longer, nor at any time after that lookup. What is
/// found under another key is what was found before.
pub proof fn law_cache_calls(
    cache: &mut TrackCache,
    key: String,
    track: Track,
    now: u64,
    looked: &mut TrackCache,
    key_text: &str,
    later: u64,
    r: Option<Track>,
    again: &mut TrackCache,
    any_time: u64,
    r_again: Option<Track>,
)
    requires
        call_ensures(TrackCache::insert, (cache, key, track, now), ()),
        *old(looked) == *final(cache),
        key_text@ == key@,
        call_ensures(TrackCache::get, (looked, key_text, later), r),
        *old(again) == *final(looked),
        call_ensures(TrackCache::get, (again, key_text, any_time), r_again),
    ensures
        final(looked).ttl() == old(cache).ttl(),
        later - now <= old(cache).ttl() ==> r is Some && r->0@ == track@,
        later - now > old(cache).ttl() ==> r is None && r_again is None,
{
}

/// Looking a key up or putting a track in does not touch what is held under another key.
pub proof fn law_cache_keys_are_apart(
    cache: &mut TrackCache,
    key: String,
    track: Track,
    now: u64,
    before: &mut TrackCache,
    after: &mut TrackCache,
    other: &str,
    later: u64,
    a: Option<Track>,
    b: Option<Track>,
)
    requires
        call_ensures(TrackCache::insert, (cache, key, track, now), ()),
        *old(before) == *old(cache),
        *old(after) == *final(cache),
        other@ != key@,
        call_ensures(TrackCache::get, (before, other, later), a),
        call_ensures(TrackCache::get, (after, other, later), b),
    ensures
        a is Some <==> b is Some,
        a is Some ==> a->0@ == b->0@,
{
}

/// A text is normalized character by character: those of its lower case that are letters or digits
/// stay, and every other one becomes a space.
pub proof fn law_normalize(input: &str, lower: &str, r: String, of_lower: String)
    requires
        call_ensures(normalize_for_match, (input,), r),
        lower@ == lowercase(input@),
        call_ensures(normalize_lowered, (lower,), of_lower),
    ensures
        r@ == of_lower@,
        r@.len() == lower@.len(),
        forall|i: int|
            0 <= i < r@.len() ==> #[trigger] r@[i] == if alphanumeric(lower@[i]) {
                lower@[i]
            } else {
                ' '
            },
{
}

/// A text in ASCII is normalized to its letters, in lower case, and its digits, with a space in
/// place of every other character.
pub proof fn law_normalize_ascii(input: &str, r: String)
    requires
        ascii_only(input@),
        call_ensures(normalize_for_match, (input,), r),
    ensures
        r@.len() == input@.len(),
        forall|i: int|
            0 <= i < r@.len() ==> {
                let c = input@[i];
                &&& 'a' <= c && c <= 'z' || '0' <= c && c <= '9' ==> #[trigger] r@[i] == c
                &&& 'A' <= c && c <= 'Z' ==> r@[i] as int == c as int + 32
                &&& !('a' <= c && c <= 'z' || '0' <= c && c <= '9' || 'A' <= c && c <= 'Z')
                    ==> r@[i] == ' '
            },
{
}

/// A text in ASCII that is in lower case already keeps its letters and digits and gets a space in
/// place of every other character.
pub proof fn law_normalize_lowered_ascii(lower: &str, r: String)
    requires
        ascii_only(lower@),
        call_ensures(normalize_lowered, (lower,), r),
    ensures
        r@.len() == lower@.len(),
        forall|i: int|
            0 <= i < r@.len() ==> {
                let c = lower@[i];
                let kept = 'a' <= c && c <= 'z' || '0' <= c && c <= '9' || 'A' <= c && c <= 'Z';
                &&& kept ==> #[trigger] r@[i] == c
                &&& !kept ==> r@[i] == ' '
            },
{
}

/// What a lower-cased title is worth for a blank search: 60 if it holds "official audio", else 30
/// if it holds "audio"; and whatever it gained, 30 off if it holds "lyric", 30 off if it holds
/// "visualizer", 40 off if it holds "music video", "official video" or "mv", 40 off if it holds
/// "live", and 20 off if it holds "fan video" or "fan-made".
pub open spec fn worth(lower: Seq<char>) -> int {
    let bonus: int = if has_text(lower, "official audio"@) {
        60
    } else if has_text(lower, "audio"@) {
        30
    } else {
        0
    };
    bonus - points(30, has_text(lower, "lyric"@)) - points(30, has_text(lower, "visualizer"@))
        - points(
        40,
        has_text(lower, "music video"@) || has_text(lower, "official video"@) || has_text(
            lower,
            "mv"@,
        ),
    ) - points(40, has_text(lower, "live"@)) - points(
        20,
        has_text(lower, "fan video"@) || has_text(lower, "fan-made"@),
    )
}

/// So many points where something holds.
pub open spec fn points(n: int, holds: bool) -> int {
    if holds {
        n
    } else {
        0
    }
}

proof fn lemma_lyrics_hold_lyric(lower: Seq<char>)
    ensures
        has_text(lower, "lyrics"@) ==> has_text(lower, "lyric"@),
{
    reveal_strlit("lyrics");
    reveal_strlit("lyric");
    if has_text(lower, "lyrics"@) {
        let i = choose|i: int| crate::text::occurs_at(lower, "lyrics"@, i);
        assert(lower.subrange(i, i + 5) =~= lower.subrange(i, i + 6).take(5));
        assert("lyrics"@.take(5) =~= "lyric"@);
        assert(crate::text::occurs_at(lower, "lyric"@, i));
    }
}

/// The penalties of a title do not depend on its bonus, nor on one another: the score for a blank
/// search is the title's bonus and all its penalties.
pub proof fn law_title_alone(
    lower_title: &str,
    normalized_title: &str,
    blank: &str,
    r: i32,
)
    requires
        trimmed(blank@).len() == 0,
        call_ensures(score_lowered, (lower_title, normalized_title, blank), r),
    ensures
        r == worth(lower_title@),
{
    lemma_lyrics_hold_lyric(lower_title@);
}

/// What the words of a search are worth to a normalized title: a word of fewer than three bytes
/// nothing, any other 14 if it stands in the title and 9 off if it does not.
pub open spec fn worth_of_words(title: Seq<char>, tokens: Seq<Seq<char>>) -> int
    decreases tokens.len(),
{
    if tokens.len() == 0 {
        0
    } else {
        worth_of_words(title, tokens.drop_last()) + if byte_len(tokens.last()) < 3 {
            0
        } else if has_text(title, tokens.last()) {
            14
        } else {
            -9
        }
    }
}

proof fn lemma_worth_of_words(title: Seq<char>, tokens: Seq<Seq<char>>)
    ensures
        ({
            let counted = tokens.filter(|token: Seq<char>| byte_len(token) >= 3);
            let inside = counted.filter(|token: Seq<char>| has_text(title, token));
            &&& worth_of_words(title, tokens) == inside.len() * 14 - (counted.len() - inside.len())
                * 9
            &&& inside.len() <= counted.len() <= tokens.len()
        }),
    decreases tokens.len(),
{
    reveal(Seq::filter);
    let long = |token: Seq<char>| byte_len(token) >= 3;
    let held = |token: Seq<char>| has_text(title, token);
    if tokens.len() > 0 {
        let fewer = tokens.drop_last();
        lemma_worth_of_words(title, fewer);
        let kept = fewer.filter(long);
        if byte_len(tokens.last()) >= 3 {
            assert(tokens.filter(long) =~= kept.push(tokens.last()));
            assert(kept.push(tokens.last()).drop_last() =~= kept);
        } else {
            assert(tokens.filter(long) =~= kept);
        }
    } else {
        assert(tokens.filter(long) =~= Seq::empty());
        assert(tokens.filter(long).filter(held) =~= Seq::empty());
    }
}

/// The score for a search is the score for a blank one, 140 if the whole trimmed search stands in
/// the title, and what each word of the search is worth.
pub proof fn law_words_of_the_search(
    lower_title: &str,
    normalized_title: &str,
    search: &str,
    blank: &str,
    r: i32,
    alone: i32,
)
    requires
        lowered_fits(lower_title@, normalized_title@, search@),
        trimmed(search@).len() > 0,
        trimmed(blank@).len() == 0,
        call_ensures(score_lowered, (lower_title, normalized_title, search), r),
        call_ensures(score_lowered, (lower_title, normalized_title, blank), alone),
    ensures
        r == alone + points(140, has_text(normalized_title@, trimmed(search@))) + worth_of_words(
            normalized_title@,
            words(search@),
        ),
{
    lemma_worth_of_words(normalized_title@, words(search@));
}

/// A title is scored by its lower case, its normal form and the normal form of the search, and by
/// nothing else.
pub proof fn law_score_goes_by_the_normal_forms(
    title: &str,
    query: &str,
    lower: &str,
    normalized_title: String,
    normalized_query: String,
    title_form: &str,
    query_form: &str,
    r: i32,
    of_forms: i32,
)
    requires
        score_fits(title@, query@),
        lower@ == lowercase(title@),
        call_ensures(normalize_for_match, (title,), normalized_title),
        call_ensures(normalize_for_match, (query,), normalized_query),
        title_form@ == normalized_title@,
        query_form@ == normalized_query@,
        call_ensures(score_title_for_audio, (title, query), r),
        call_ensures(score_lowered, (lower, title_form, query_form), of_forms),
    ensures
        r == of_forms,
{
}

/// A score that can be counted is the score, and one for a search of a hundred million words or
/// fewer can be counted.
pub proof fn law_checked_score(title: &str, query: &str, r: Option<i32>, score: i32)
    requires
        call_ensures(checked_score, (title, query), r),
        r is Some ==> call_ensures(score_title_for_audio, (title, query), score),
    ensures
        r is Some ==> r->0 == score,
        words(normalized(query@)).len() <= 100_000_000 ==> r is Some && call_requires(
            score_title_for_audio,
            (title, query),
        ),
{
    lemma_worth_of_words(normalized(title@), words(normalized(query@)));
}

/// A video becomes a track with its title, its own link, else its page, its picture, its length in
/// milliseconds, its page and who put it up.
pub proof fn law_track_of_a_video(id: u128, video: Video, source: TrackSource, r: Track)
    requires
        call_ensures(video_with_id, (id, video, source), r),
        video.duration is Some ==> video.duration->0 <= u64::MAX / 1000,
    ensures
        call_requires(video_with_id, (id, video, source)),
        r.id == id,
        r.source == source,
        video.title is Some ==> r.title@ == video.title->0@,
        video.title is None ==> r.title@.len() == 0,
        video.url is Some ==> r.url@ == video.url->0@,
        video.url is None && video.webpage_url is Some ==> r.url@ == video.webpage_url->0@,
        video.url is None && video.webpage_url is None ==> r.url@.len() == 0,
        r.thumbnail.deep_view() == video.thumbnail.deep_view(),
        r.duration_ms is None <==> video.duration is None,
        r.duration_ms is Some ==> r.duration_ms->0 == 1000 * video.duration->0,
        r.original_url.deep_view() == video.webpage_url.deep_view(),
        r.artist.deep_view() == video.uploader.deep_view(),
{
    assert(r@.original_url == r.original_url.deep_view());
    assert(r@.artist == r.artist.deep_view());
    assert(r@.thumbnail == r.thumbnail.deep_view());
}

/// A found video becomes a track with its title, its own link, else its page, its picture, its
/// length, its page, which its identifier gives where none is told, and who put it up.
pub proof fn law_track_of_a_found_video(id: u128, video: FlatVideo, source: TrackSource, r: Track)
    requires
        call_ensures(flat_video_with_id, (id, video, source), r),
    ensures
        r.id == id,
        r.source == source,
        video.title is Some ==> r.title@ == video.title->0@,
        video.title is None ==> r.title@.len() == 0,
        r.thumbnail.deep_view() == video.thumbnail.deep_view(),
        r.duration_ms == video.duration_ms,
        r.artist.deep_view() == video.uploader.deep_view(),
        video.webpage_url is Some ==> r.original_url is Some && r.original_url->0@
            == video.webpage_url->0@,
        video.webpage_url is None && video.id is Some && video.id->0@.len() > 0 ==> r.original_url
            is Some && r.original_url->0@ == "https://www.youtube.com/watch?v="@ + video.id->0@,
        video.webpage_url is None && (video.id is None || video.id->0@.len() == 0)
            ==> r.original_url is None,
        video.url is Some ==> r.url@ == video.url->0@,
        video.url is None && r.original_url is Some ==> r.url@ == r.original_url->0@,
        video.url is None && r.original_url is None ==> r.url@.len() == 0,
{
    assert(r@.original_url == r.original_url.deep_view());
    assert(r@.artist == r.artist.deep_view());
    assert(r@.thumbnail == r.thumbnail.deep_view());
}

/// A new identifier is a random UUID, and else the track is the one under any other identifier.
pub proof fn law_new_identifiers(
    video: Video,
    flat: FlatVideo,
    source: TrackSource,
    a: Track,
    b: Track,
    same_a: Track,
    same_b: Track,
)
    requires
        call_ensures(video_to_track, (video, source), a),
        call_ensures(flat_video_to_track, (flat, source), b),
        call_ensures(video_with_id, (a.id, video, source), same_a),
        call_ensures(flat_video_with_id, (b.id, flat, source), same_b),
    ensures
        a@ == same_a@,
        b@ == same_b@,
        (a.id >> 76) & 0xf == 4 && (a.id >> 62) & 0x3 == 2,
        (b.id >> 76) & 0xf == 4 && (b.id >> 62) & 0x3 == 2,
{
}

/// One video gives one track, a list of videos a track for each and in their order, and no list
/// none.
pub proof fn law_tracks_of_an_output(
    output: VideoOutput,
    source: TrackSource,
    r: Vec<Track>,
    i: int,
    video: Video,
    track: Track,
)
    requires
        call_ensures(extract_tracks, (output, source), r),
        0 <= i < r@.len(),
        output is SingleVideo ==> video == output->SingleVideo_0,
        output is Playlist && output->Playlist_0 is Some ==> video == output->Playlist_0->0@[i],
        call_ensures(video_with_id, (r@[i].id, video, source), track),
    ensures
        output is SingleVideo ==> r@.len() == 1,
        output is Playlist && output->Playlist_0 is Some ==> r@.len()
            == output->Playlist_0->0@.len(),
        !(output is Playlist && output->Playlist_0 is None),
        r@[i]@ == track@,
        (r@[i].id >> 76) & 0xf == 4,
{
}

/// What a link leads to is told as its tracks; a program that could not be run is missing, and one
/// that failed says why.
pub proof fn law_resolved_link(
    outcome: UrlOutcome,
    source: TrackSource,
    r: Result<Vec<Track>, YtdlError>,
)
    requires
        call_ensures(resolve_url_to_track, (outcome, source), r),
    ensures
        outcome is CannotRun ==> r is Err && r->Err_0 is MissingBinary,
        outcome is Failed ==> r is Err && r->Err_0 is InvocationFailed
            && r->Err_0->InvocationFailed_0@ == outcome->Failed_0@,
        outcome is Found ==> r is Ok,
        outcome is Found && outcome->Found_0 is SingleVideo ==> r->Ok_0@.len() == 1,
        outcome is Found && outcome->Found_0 is Playlist && outcome->Found_0->Playlist_0 is None
            ==> r->Ok_0@.len() == 0,
        outcome is Found && outcome->Found_0 is Playlist && outcome->Found_0->Playlist_0 is Some
            ==> r->Ok_0@.len() == outcome->Found_0->Playlist_0->0@.len(),
{
}

/// The tracks that a link leads to are those of its videos, in their order.
pub proof fn law_resolved_tracks(
    output: VideoOutput,
    source: TrackSource,
    tracks: Vec<Track>,
    i: int,
    video: Video,
    track: Track,
)
    requires
        call_ensures(
            resolve_url_to_track,
            (UrlOutcome::Found(output), source),
            Ok::<Vec<Track>, YtdlError>(tracks),
        ),
        0 <= i < tracks@.len(),
        output is SingleVideo ==> video == output->SingleVideo_0,
        output is Playlist && output->Playlist_0 is Some ==> video == output->Playlist_0->0@[i],
        call_ensures(video_with_id, (tracks@[i].id, video, source), track),
    ensures
        tracks@[i]@ == track@,
        (tracks@[i].id >> 76) & 0xf == 4,
{
}

/// A blank query finds nothing and leaves the cache as it is; any other that the cache does not
/// answer is searched for: trimmed, with `(official audio)` for Spotify and `audio` for the
/// others, three videos for YouTube and one for the others, by the proxy unless it is for Spotify.
pub proof fn law_planned_search(
    cache: &mut TrackCache,
    query: &str,
    source: TrackSource,
    now: u64,
    r: SearchPlan,
)
    requires
        call_ensures(plan_search, (cache, query, source, now), r),
    ensures
        trimmed(query@).len() == 0 ==> r is Done && r->Done_0@.len() == 0 && final(cache).entries()
            == old(cache).entries(),
        trimmed(query@).len() > 0 && r is Done ==> r->Done_0@.len() == 1,
        r is Search ==> {
            let request = r->Search_0;
            &&& request.query@ == trimmed(query@)
            &&& source == TrackSource::Spotify ==> request.search_query@ == trimmed(query@)
                + " (official audio)"@ && request.cache_key@ == "Spotify"@ + ":"@
                + request.search_query@
            &&& source != TrackSource::Spotify ==> request.search_query@ == trimmed(query@)
                + " audio"@
            &&& source == TrackSource::Youtube ==> request.cache_key@ == "Youtube"@ + ":"@
                + request.search_query@
            &&& source == TrackSource::Soundcloud ==> request.cache_key@ == "Soundcloud"@ + ":"@
                + request.search_query@
            &&& source == TrackSource::Youtube ==> request.count == 3
            &&& source != TrackSource::Youtube ==> request.count == 1
            &&& request.use_proxy <==> source != TrackSource::Spotify
            &&& request.source == source
        },
        final(cache).ttl() == old(cache).ttl(),
{
}

/// What a search found is what the same search gives again, without being run, for as long as the
/// cache keeps it; after that it is run anew.
pub proof fn law_search_is_remembered(
    first: &mut TrackCache,
    query: &str,
    source: TrackSource,
    start: u64,
    request: SearchRequest,
    found: &mut TrackCache,
    videos: Vec<FlatVideo>,
    now: u64,
    tracks: Vec<Track>,
    again: &mut TrackCache,
    later: u64,
    r: SearchPlan,
)
    requires
        call_ensures(plan_search, (first, query, source, start), SearchPlan::Search(request)),
        *old(found) == *final(first),
        videos@.len() > 0,
        call_ensures(finish_search, (found, request, videos, now), Some(tracks)),
        *old(again) == *final(found),
        call_ensures(plan_search, (again, query, source, later), r),
        trimmed(query@).len() > 0,
    ensures
        later - now <= old(first).ttl() ==> r is Done && r->Done_0@.len() == 1 && r->Done_0@[0]@
            == tracks@[0]@,
        later - now > old(first).ttl() ==> r is Search,
{
}

/// The arguments of a search name how many videos are wanted and what is searched for, the cookie
/// file where there is one, and the way out where the search takes it.
pub proof fn law_search_arguments(
    request: &SearchRequest,
    settings: &OutboundSettings,
    source_addr: Option<&str>,
    r: Vec<String>,
)
    requires
        call_ensures(flat_search_args, (request, settings, source_addr), r),
    ensures
        r.deep_view() == seq![
            "--flat-playlist"@,
            "--dump-json"@,
            "--no-warnings"@,
            "ytsearch"@ + number_text(request.count as nat) + ":"@ + request.search_query@,
        ] + cookies_named(settings.cookies()) + (if request.use_proxy {
            way_out(settings.proxy(), source_addr.deep_view())
        } else {
            Seq::empty()
        }),
{
    assert(r.deep_view() =~= seq![
        "--flat-playlist"@,
        "--dump-json"@,
        "--no-warnings"@,
        "ytsearch"@ + number_text(request.count as nat) + ":"@ + request.search_query@,
    ] + cookies_named(settings.cookies()) + (if request.use_proxy {
        way_out(settings.proxy(), source_addr.deep_view())
    } else {
        Seq::empty()
    }));
}

/// The rows without those that hold nothing.
pub open spec fn without_blanks(rows: Seq<Seq<char>>) -> Seq<Seq<char>>
    decreases rows.len(),
{
    if rows.len() == 0 {
        Seq::empty()
    } else if trimmed(rows.last()).len() == 0 {
        without_blanks(rows.drop_last())
    } else {
        without_blanks(rows.drop_last()).push(rows.last())
    }
}

proof fn lemma_without_blanks(rows: Seq<Seq<char>>)
    ensures
        rows.filter(|line: Seq<char>| trimmed(line).len() > 0) == without_blanks(rows),
    decreases rows.len(),
{
    reveal(Seq::filter);
    let keep = |line: Seq<char>| trimmed(line).len() > 0;
    if rows.len() > 0 {
        lemma_without_blanks(rows.drop_last());
    }
    assert(rows.filter(keep) =~= without_blanks(rows));
}

/// The records of a search's output are its lines, as they are and in their order, without the
/// blank ones.
pub proof fn law_search_lines(stdout: &str, rows: Vec<String>, r: Vec<String>)
    requires
        call_ensures(flat_search_lines, (stdout,), r),
        call_ensures(split_lines, (stdout,), rows),
    ensures
        r.deep_view() == without_blanks(rows.deep_view()),
{
    lemma_without_blanks(lines(stdout@));
}

/// A search whose program could not be run lacks the program; one that failed says what the
/// program wrote, trimmed; else the videos are the records that could be read, in their order.
pub proof fn law_found_videos(
    outcome: SearchOutcome,
    r: Result<Vec<FlatVideo>, YtdlError>,
    stderr: &str,
    failure: YtdlError,
)
    requires
        call_ensures(found_videos, (outcome,), r),
        outcome is Failed ==> stderr@ == outcome->Failed_0@,
        call_ensures(search_failure, (stderr,), failure),
    ensures
        failure is InvocationFailed && failure->InvocationFailed_0@ == trimmed(stderr@),
        outcome is CannotRun ==> r is Err && r->Err_0 is MissingBinary,
        outcome is Failed ==> r is Err && r->Err_0 is InvocationFailed
            && r->Err_0->InvocationFailed_0@ == trimmed(outcome->Failed_0@),
        outcome is Printed ==> r is Ok && r->Ok_0@ == readable(outcome->Printed_0@),
{
}

/// The records of two rows that could be read are those of the one and then those of the other; a
/// record that could be read is kept, and one that could not is not.
pub proof fn law_readable<T>(a: Seq<Option<T>>, b: Seq<Option<T>>, record: T)
    ensures
        readable(a + b) == readable(a) + readable(b),
        readable(seq![Some(record)]) == seq![record],
        readable(seq![None::<T>]) == Seq::<T>::empty(),
    decreases b.len(),
{
    assert(seq![Some(record)].drop_last() =~= Seq::empty());
    assert(readable(Seq::<Option<T>>::empty()) =~= Seq::<T>::empty());
    assert(readable(seq![Some(record)]) =~= seq![record]);
    assert(seq![None::<T>].drop_last() =~= Seq::empty());
    if b.len() == 0 {
        assert(a + b =~= a);
        assert(readable(a) + readable(b) =~= readable(a));
    } else {
        law_readable(a, b.drop_last(), record);
        assert((a + b).drop_last() =~= a + b.drop_last());
        assert((a + b).last() == b.last());
        assert(readable(a + b) =~= readable(a) + readable(b));
    }
}

/// Keeping the readable records keeps nothing else.
pub proof fn law_keep_readable<T>(records: Vec<Option<T>>, r: Vec<T>)
    requires
        call_ensures(keep_readable::<T>, (records,), r),
    ensures
        r@ == readable(records@),
        r@.len() <= records@.len(),
{
    lemma_readable_len(records@);
}

proof fn lemma_readable_len<T>(records: Seq<Option<T>>)
    ensures
        readable(records).len() <= records.len(),
    decreases records.len(),
{
    if records.len() > 0 {
        lemma_readable_len(records.drop_last());
    }
}

/// Without videos a search gives no track and remembers nothing.
pub proof fn law_search_without_videos(
    cache: &mut TrackCache,
    request: SearchRequest,
    videos: Vec<FlatVideo>,
    now: u64,
    r: Option<Vec<Track>>,
)
    requires
        call_ensures(finish_search, (cache, request, videos, now), r),
        videos@.len() == 0,
    ensures
        r is Some && r->0@.len() == 0,
        final(cache).entries() == old(cache).entries(),
{
}

/// A search that gives no answer remembers nothing.
pub proof fn law_unranked_search(
    cache: &mut TrackCache,
    request: SearchRequest,
    videos: Vec<FlatVideo>,
    now: u64,
    r: Option<Vec<Track>>,
)
    requires
        call_ensures(finish_search, (cache, request, videos, now), r),
        r is None,
    ensures
        videos@.len() > 0,
        final(cache).entries() == old(cache).entries(),
        final(cache).ttl() == old(cache).ttl(),
{
}

/// The title that a found video is ranked by; empty where it has none.
pub open spec fn ranked_title(video: FlatVideo) -> Seq<char> {
    if video.title is Some {
        video.title->0@
    } else {
        Seq::empty()
    }
}

/// A search gives one track: that of a video whose title scores at least as high for the trimmed
/// query as every other, and higher than every one before it.
pub proof fn law_best_title_is_found(
    cache: &mut TrackCache,
    request: SearchRequest,
    videos: Vec<FlatVideo>,
    now: u64,
    tracks: Vec<Track>,
)
    requires
        call_ensures(finish_search, (cache, request, videos, now), Some(tracks)),
        videos@.len() > 0,
    ensures
        tracks@.len() == 1,
        (tracks@[0].id >> 76) & 0xf == 4,
        exists|k: int|
            0 <= k < videos@.len() && tracks@[0]@ == crate::resolve::ytdl::track_of_flat(
                tracks@[0].id,
                #[trigger] videos@[k],
                request.source,
            ) && forall|j: int|
                0 <= j < videos@.len() ==> {
                    let here = audio_score(ranked_title(videos@[k]), request.query@);
                    let there = audio_score(ranked_title(#[trigger] videos@[j]), request.query@);
                    there <= here && (j < k ==> there < here)
                },
{
    let k = choose|k: int| #[trigger]
        is_best_video(videos@, request.query@, k) && tracks@[0]@
            == crate::resolve::ytdl::track_of_flat(tracks@[0].id, videos@[k], request.source);
    assert forall|v: FlatVideo| #[trigger] ranked_title(v) == flat_title(v) by {
        assert(ranked_title(v) =~= flat_title(v));
    }
    assert(videos@[k] == videos@[k]);
    assert forall|j: int| 0 <= j < videos@.len() implies {
        let here = audio_score(ranked_title(videos@[k]), request.query@);
        let there = audio_score(ranked_title(#[trigger] videos@[j]), request.query@);
        there <= here && (j < k ==> there < here)
    } by {
        assert(ranked_title(videos@[j]) == flat_title(videos@[j]));
        assert(ranked_title(videos@[k]) == flat_title(videos@[k]));
    }
}

/// A search always gives a track for its videos, unless its query has more than a hundred million
/// words.
pub proof fn law_search_gives_a_track(
    cache: &mut TrackCache,
    request: SearchRequest,
    videos: Vec<FlatVideo>,
    now: u64,
    r: Option<Vec<Track>>,
)
    requires
        call_ensures(finish_search, (cache, request, videos, now), r),
        words(normalized(request.query@)).len() <= 100_000_000,
    ensures
        r is Some,
        r->0@.len() == if videos@.len() == 0 {
            0int
        } else {
            1
        },
{
    assert forall|i: int| 0 <= i < videos@.len() implies score_fits(
        flat_title(#[trigger] videos@[i]),
        request.query@,
    ) by {
        lemma_worth_of_words(
            normalized(flat_title(videos@[i])),
            words(normalized(request.query@)),
        );
    }
    assert(crate::resolve::ytdl::can_be_ranked(videos@, request.query@));
}

/// A blank link is not resolved; any other is, with the cookie file where there is one and by the
/// proxy or from the source address.
pub proof fn law_planned_link(
    url: &str,
    settings: &OutboundSettings,
    source_addr: Option<&str>,
    r: Option<Vec<String>>,
)
    requires
        call_ensures(plan_url, (url, settings, source_addr), r),
    ensures
        r is None <==> trimmed(url@).len() == 0,
        r is Some ==> r->0.deep_view() == cookies_named(settings.cookies()) + way_out(
            settings.proxy(),
            source_addr.deep_view(),
        ),
{
    if r is Some {
        assert(r->0.deep_view() =~= cookies_named(settings.cookies()) + way_out(
            settings.proxy(),
            source_addr.deep_view(),
        ));
    }
}

} // verus!
