//! Tracks from the search and the link resolution of `yt-dlp`.
use vstd::prelude::*;
use dashmap::DashMap;
use crate::collections::{
    cached_tracks, drop_cached, find_cached, new_cache, no_tracks, put_cached,
};
use crate::command::{cookie_args, push_arg, push_cookies, push_route, route_args};
use crate::config::{proxy_url, yt_cookies_file, OutboundSettings};
use crate::model::{Track, TrackSource, TrackView};
use crate::records::{keep_readable, readable};
use crate::text::{
    alphanumeric, ascii_alphanumeric, ascii_lowered, ascii_only, ascii_raised, byte_len, chars_of,
    concat, contains, has_text, is_blank, law_ascii_case_is_forgotten, law_trimming_keeps_words,
    lines, lowercase, number_string, number_text, split_lines, split_whitespace, trim, trimmed,
    words,
};
use crate::track_id::{is_random_uuid, new_track_id};

verus! {

/// Why no tracks were found.
#[derive(Debug)]
pub enum YtdlError {
    MissingBinary,
    InvocationFailed(String),
    ParseError(String),
}

impl YtdlError {
    /// The message that a person reads.
    pub open spec fn text(&self) -> Seq<char> {
        match self {
            YtdlError::MissingBinary => "yt-dlp not available in PATH"@,
            YtdlError::InvocationFailed(why) => "yt-dlp invocation failed: "@ + why@,
            YtdlError::ParseError(why) => "failed to parse yt-dlp json: "@ + why@,
        }
    }

    /// The message that a person reads.
    pub fn message(&self) -> (r: String)
        ensures
            r@ == self.text(),
    {
        match self {
            YtdlError::MissingBinary => String::from_str("yt-dlp not available in PATH"),
            YtdlError::InvocationFailed(why) => concat("yt-dlp invocation failed: ", why),
            YtdlError::ParseError(why) => concat("failed to parse yt-dlp json: ", why),
        }
    }
}

/// A resolved track and when it was resolved, in nanoseconds on a clock that never goes back.
#[derive(Debug)]
pub struct CachedTrack {
    pub track: Track,
    pub resolved_at: u64,
}

/// A resolved track over sequences of characters.
#[verifier::ext_equal]
pub struct CachedView {
    pub track: TrackView,
    pub resolved_at: u64,
}

impl View for CachedTrack {
    type V = CachedView;

    open spec fn view(&self) -> CachedView {
        CachedView { track: self.track@, resolved_at: self.resolved_at }
    }
}

impl Clone for CachedTrack {
    fn clone(&self) -> (r: Self)
        ensures
            r == *self,
    {
        CachedTrack { track: self.track.clone(), resolved_at: self.resolved_at }
    }
}

/// How long a resolved track is good for, in nanoseconds: ten minutes.
pub const TRACK_TTL_NANOS: u64 = 600_000_000_000;

/// The tracks that were resolved lately, by search.
#[derive(Debug)]
pub struct TrackCache {
    entries: DashMap<String, CachedTrack>,
    ttl: u64,
}

/// More time than `ttl` has passed between the two moments.
pub open spec fn expired(resolved_at: u64, ttl: u64, now: u64) -> bool {
    now - resolved_at > ttl
}

/// What the cache gives for a key: its track, unless it has expired.
pub open spec fn cache_lookup(
    entries: Map<Seq<char>, CachedView>,
    ttl: u64,
    key: Seq<char>,
    now: u64,
) -> Option<TrackView> {
    if entries.contains_key(key) && !expired(entries[key].resolved_at, ttl, now) {
        Some(entries[key].track)
    } else {
        None
    }
}

/// What the cache holds after a key was looked up: an expired entry is gone.
pub open spec fn cache_after_lookup(
    entries: Map<Seq<char>, CachedView>,
    ttl: u64,
    key: Seq<char>,
    now: u64,
) -> Map<Seq<char>, CachedView> {
    if entries.contains_key(key) && expired(entries[key].resolved_at, ttl, now) {
        entries.remove(key)
    } else {
        entries
    }
}

/// What the cache holds after a track was put in.
pub open spec fn cache_after_insert(
    entries: Map<Seq<char>, CachedView>,
    key: Seq<char>,
    track: TrackView,
    now: u64,
) -> Map<Seq<char>, CachedView> {
    entries.insert(key, CachedView { track, resolved_at: now })
}

impl TrackCache {
    /// The resolved tracks, by search.
    pub closed spec fn entries(&self) -> Map<Seq<char>, CachedView> {
        cached_tracks(self.entries)
    }

    /// How long a resolved track is good for, in nanoseconds.
    pub closed spec fn ttl(&self) -> u64 {
        self.ttl
    }

    /// A cache with no tracks.
    pub fn new() -> (r: Self)
        ensures
            r.entries() == no_tracks(),
            r.ttl() == TRACK_TTL_NANOS,
    {
        TrackCache { entries: new_cache(), ttl: TRACK_TTL_NANOS }
    }

    /// The track under the key, unless it has expired; an expired one is taken out.
    pub fn get(&mut self, key: &str, now: u64) -> (r: Option<Track>)
        ensures
            r.deep_view() == cache_lookup(old(self).entries(), old(self).ttl(), key@, now),
            final(self).entries() == cache_after_lookup(
                old(self).entries(),
                old(self).ttl(),
                key@,
                now,
            ),
            final(self).ttl() == old(self).ttl(),
    {
        match find_cached(&self.entries, key) {
            Some(cached) => {
                if now.saturating_sub(cached.resolved_at) > self.ttl {
                    drop_cached(&mut self.entries, key);
                    return None;
                }
                Some(cached.track)
            },
            None => None,
        }
    }

    /// Puts the track in under the key.
    pub fn insert(&mut self, key: String, track: Track, now: u64)
        ensures
            final(self).entries() == cache_after_insert(old(self).entries(), key@, track@, now),
            final(self).ttl() == old(self).ttl(),
    {
        put_cached(&mut self.entries, key, CachedTrack { track, resolved_at: now });
    }
}

/// A lower-cased text with a space for every character that is neither a letter nor a digit.
pub open spec fn spaced(lower: Seq<char>) -> Seq<char> {
    lower.map_values(
        |c: char|
            if alphanumeric(c) {
                c
            } else {
                ' '
            },
    )
}

/// A title or search as it is compared: in lower case, with a space for every character that
/// is neither a letter nor a digit.
pub open spec fn normalized(input: Seq<char>) -> Seq<char> {
    spaced(lowercase(input))
}

/// The words of a normalized search that count: those of at least three bytes.
pub open spec fn counted_words(search: Seq<char>) -> Seq<Seq<char>> {
    words(search).filter(|token: Seq<char>| byte_len(token) >= 3)
}

/// The words of a normalized search that count and that stand in the normalized title.
pub open spec fn words_in(title: Seq<char>, search: Seq<char>) -> Seq<Seq<char>> {
    counted_words(search).filter(|token: Seq<char>| has_text(title, token))
}

/// What a normalized title gains for what it holds of the normalized search: 140 if the whole of
/// it stands in the title, and 14 for each of its words that does.
pub open spec fn words_gain(title: Seq<char>, search: Seq<char>) -> int {
    (if has_text(title, trimmed(search)) {
        140int
    } else {
        0
    }) + words_in(title, search).len() * 14
}

/// What a normalized title loses for the words of the normalized search that it lacks: 9 for
/// each.
pub open spec fn words_loss(title: Seq<char>, search: Seq<char>) -> int {
    (counted_words(search).len() - words_in(title, search).len()) * 9
}

/// What the words of the normalized search give a normalized title. A blank search gives
/// nothing.
pub open spec fn words_score(title: Seq<char>, search: Seq<char>) -> int {
    if trimmed(search).len() == 0 {
        0
    } else {
        words_gain(title, search) - words_loss(title, search)
    }
}

/// What a lower-cased title gains that promises audio.
pub open spec fn audio_gain(lower: Seq<char>) -> int {
    if has_text(lower, "official audio"@) {
        60
    } else if has_text(lower, "audio"@) {
        30
    } else {
        0
    }
}

/// What the lower-cased title itself gives: audio is wanted, lyrics, visualizers, videos and
/// live takes are not.
pub open spec fn plain_score(lower: Seq<char>) -> int {
    let lyrics: int = if has_text(lower, "lyrics"@) || has_text(lower, "lyric"@) {
        30
    } else {
        0
    };
    let visualizer: int = if has_text(lower, "visualizer"@) {
        30
    } else {
        0
    };
    let video: int = if has_text(lower, "music video"@) || has_text(lower, "official video"@)
        || has_text(lower, "mv"@) {
        40
    } else {
        0
    };
    let live: int = if has_text(lower, "live"@) {
        40
    } else {
        0
    };
    let fan: int = if has_text(lower, "fan video"@) || has_text(lower, "fan-made"@) {
        20
    } else {
        0
    };
    audio_gain(lower) - lyrics - visualizer - video - live - fan
}

/// How well a title, given in lower case and normalized, suits a normalized search for audio.
pub open spec fn lowered_score(lower: Seq<char>, title: Seq<char>, search: Seq<char>) -> int {
    words_score(title, search) + plain_score(lower)
}

/// That score, and every sum on the way to it, can be counted in 32 bits.
pub open spec fn lowered_fits(lower: Seq<char>, title: Seq<char>, search: Seq<char>) -> bool {
    trimmed(search).len() == 0 || {
        &&& counted_words(search).len() <= i32::MAX
        &&& words_gain(title, search) <= i32::MAX
        &&& words_loss(title, search) <= i32::MAX
        &&& words_score(title, search) + audio_gain(lower) <= i32::MAX
        &&& lowered_score(lower, title, search) >= i32::MIN
    }
}

/// How well a title suits a search for audio.
pub open spec fn audio_score(title: Seq<char>, query: Seq<char>) -> int {
    lowered_score(lowercase(title), normalized(title), normalized(query))
}

/// The score of a title, and every sum on the way to it, can be counted in 32 bits.
pub open spec fn score_fits(title: Seq<char>, query: Seq<char>) -> bool {
    lowered_fits(lowercase(title), normalized(title), normalized(query))
}

/// A text in ASCII with a space for every character that is neither a letter nor a digit.
pub open spec fn ascii_spaced(lower: Seq<char>) -> Seq<char> {
    lower.map_values(
        |c: char|
            if ascii_alphanumeric(c) {
                c
            } else {
                ' '
            },
    )
}

/// The normal form of a text in ASCII.
pub open spec fn ascii_normalized(input: Seq<char>) -> Seq<char> {
    ascii_spaced(ascii_lowered(input))
}

/// How well a title in ASCII suits a search for audio in ASCII.
pub open spec fn ascii_score(title: Seq<char>, query: Seq<char>) -> int {
    lowered_score(ascii_lowered(title), ascii_normalized(title), ascii_normalized(query))
}

/// Both texts are in ASCII, and the score can be counted in 32 bits.
pub open spec fn ascii_fits(title: Seq<char>, query: Seq<char>) -> bool {
    &&& ascii_only(title)
    &&& ascii_only(query)
    &&& lowered_fits(ascii_lowered(title), ascii_normalized(title), ascii_normalized(query))
}

/// A lower-cased text with a space for every character that is neither a letter nor a digit.
pub fn normalize_lowered(lower: &str) -> (r: String)
    ensures
        r@ == spaced(lower@),
        ascii_only(lower@) ==> r@ == ascii_spaced(lower@),
{
    let chars = chars_of(lower);
    let ghost spell = |c: char|
        if alphanumeric(c) {
            c
        } else {
            ' '
        };
    let mut out = String::new();
    for i in 0..chars.len()
        invariant
            spell == (|c: char|
                if alphanumeric(c) {
                    c
                } else {
                    ' '
                }),
            out@ == chars@.take(i as int).map_values(spell),
            forall|j: int|
                0 <= j < i && chars@[j] <= '\u{7f}' ==> alphanumeric(#[trigger] chars@[j])
                    == ascii_alphanumeric(chars@[j]),
    {
        if chars[i].is_alphanumeric() {
            out.push(chars[i]);
        } else {
            out.push(' ');
        }
        assert(chars@.take(i + 1).map_values(spell) =~= chars@.take(i as int).map_values(
            spell,
        ).push(spell(chars@[i as int])));
    }
    assert(chars@.take(chars@.len() as int) =~= chars@);
    proof {
        if ascii_only(lower@) {
            assert(spaced(lower@) =~= ascii_spaced(lower@));
        }
    }
    out
}

/// A title or search as it is compared. Of a text in ASCII the lower case is known, so that its
/// normal form is too.
pub fn normalize_for_match(input: &str) -> (r: String)
    ensures
        r@ == normalized(input@),
        ascii_only(input@) ==> r@ == ascii_normalized(input@),
{
    proof {
        law_ascii_case_is_forgotten(input@);
    }
    normalize_lowered(&input.to_lowercase())
}

/// The words of a normalized search that count, and how many of them stand in the normalized
/// title.
fn count_tokens(title: &str, search: &str) -> (r: (usize, usize))
    ensures
        r.0 == counted_words(search@).len(),
        r.1 == words_in(title@, search@).len(),
        r.1 <= r.0,
{
    let tokens = split_whitespace(search);
    let ghost all = tokens.deep_view();
    let ghost long = |token: Seq<char>| byte_len(token) >= 3;
    let ghost inside = |token: Seq<char>| has_text(title@, token);
    let mut total: usize = 0;
    let mut matched: usize = 0;
    proof {
        reveal(Seq::filter);
        assert(all.take(0).filter(long) =~= Seq::empty());
        assert(all.take(0).filter(long).filter(inside) =~= Seq::empty());
    }
    for i in 0..tokens.len()
        invariant
            all == tokens.deep_view(),
            long == (|token: Seq<char>| byte_len(token) >= 3),
            inside == (|token: Seq<char>| has_text(title@, token)),
            matched <= total <= i,
            total == all.take(i as int).filter(long).len(),
            matched == all.take(i as int).filter(long).filter(inside).len(),
    {
        let ghost kept = all.take(i as int).filter(long);
        proof {
            reveal(Seq::filter);
            assert(all.take(i + 1).drop_last() =~= all.take(i as int));
            assert(all.take(i + 1).last() == tokens@[i as int]@);
        }
        if tokens[i].as_str().len() >= 3 {
            let ghost token = tokens@[i as int]@;
            assert(all.take(i + 1).filter(long) =~= kept.push(token));
            assert(kept.push(token).drop_last() =~= kept);
            total += 1;
            if contains(title, &tokens[i]) {
                matched += 1;
            }
        } else {
            assert(all.take(i + 1).filter(long) =~= kept);
        }
    }
    assert(all.take(all.len() as int) =~= all);
    (total, matched)
}

/// What a lower-cased title gains that promises audio.
fn gain_of_audio(lower: &str) -> (r: i32)
    ensures
        r == audio_gain(lower@),
{
    if contains(lower, "official audio") {
        60
    } else if contains(lower, "audio") {
        30
    } else {
        0
    }
}

/// What a lower-cased title loses that promises something else than plain audio.
fn loss_of_title(lower: &str) -> (r: i32)
    ensures
        r == audio_gain(lower@) - plain_score(lower@),
        0 <= r <= 160,
{
    let mut loss: i32 = 0;
    if contains(lower, "lyrics") || contains(lower, "lyric") {
        loss += 30;
    }
    if contains(lower, "visualizer") {
        loss += 30;
    }
    if contains(lower, "music video") || contains(lower, "official video") || contains(
        lower,
        "mv",
    ) {
        loss += 40;
    }
    if contains(lower, "live") {
        loss += 40;
    }
    if contains(lower, "fan video") || contains(lower, "fan-made") {
        loss += 20;
    }
    loss
}

/// How well a title, given in lower case and normalized, suits a normalized search for audio.
pub fn score_lowered(lower_title: &str, normalized_title: &str, normalized_query: &str) -> (r: i32)
    requires
        lowered_fits(lower_title@, normalized_title@, normalized_query@),
    ensures
        r == lowered_score(lower_title@, normalized_title@, normalized_query@),
{
    let wanted = trim(normalized_query);
    let mut score: i32 = 0;
    if !wanted.as_str().is_empty() {
        let (total, matched) = count_tokens(normalized_title, normalized_query);
        if contains(normalized_title, &wanted) {
            score += 140;
        }
        let matched_count: i32 = matched as i32;
        let missing: i32 = total as i32 - matched_count;
        score += matched_count * 14;
        score -= missing * 9;
    }
    score += gain_of_audio(lower_title);
    score -= loss_of_title(lower_title);
    score
}

/// How well a title suits a search for audio. Of texts in ASCII the normal form is known, and the
/// case of their letters does not count. An empty search leaves what the title itself gives.
pub fn score_title_for_audio(title: &str, original_query: &str) -> (r: i32)
    requires
        original_query@.len() == 0 || score_fits(title@, original_query@) || ascii_fits(
            title@,
            original_query@,
        ),
    ensures
        r == audio_score(title@, original_query@),
        ascii_only(title@) && ascii_only(original_query@) ==> r == ascii_score(
            title@,
            original_query@,
        ) && r == ascii_score(ascii_raised(title@), ascii_raised(original_query@)),
        original_query@.len() == 0 ==> r == plain_score(lowercase(title@)),
{
    proof {
        law_ascii_case_is_forgotten(title@);
        law_ascii_case_is_forgotten(original_query@);
    }
    let lower = title.to_lowercase();
    let normalized_title = normalize_for_match(title);
    let normalized_query = normalize_for_match(original_query);
    score_lowered(&lower, &normalized_title, &normalized_query)
}

/// Whether the score of a title, given in lower case and normalized, can be counted in 32 bits.
fn can_be_scored(lower: &str, title: &str, search: &str) -> (r: bool)
    ensures
        r == lowered_fits(lower@, title@, search@),
{
    let wanted = trim(search);
    if wanted.as_str().is_empty() {
        return true;
    }
    let (total, matched) = count_tokens(title, search);
    let limit: i64 = i32::MAX as i64;
    if total > i32::MAX as usize {
        return false;
    }
    let whole: i64 = if contains(title, &wanted) {
        140
    } else {
        0
    };
    let gain: i64 = whole + matched as i64 * 14;
    let loss: i64 = (total - matched) as i64 * 9;
    let most: i64 = gain - loss + gain_of_audio(lower) as i64;
    let least: i64 = most - loss_of_title(lower) as i64;
    gain <= limit && loss <= limit && most <= limit && least >= i32::MIN as i64
}

/// How well a title suits a search for audio, if that can be counted in 32 bits.
pub fn checked_score(title: &str, original_query: &str) -> (r: Option<i32>)
    ensures
        match r {
            Some(score) => score_fits(title@, original_query@) && score == audio_score(
                title@,
                original_query@,
            ),
            None => !score_fits(title@, original_query@),
        },
        ascii_only(title@) && ascii_only(original_query@) ==> match r {
            Some(score) => ascii_fits(title@, original_query@) && score == ascii_score(
                title@,
                original_query@,
            ),
            None => !ascii_fits(title@, original_query@),
        },
        original_query@.len() == 0 ==> r is Some,
{
    let lower = title.to_lowercase();
    let normalized_title = normalize_for_match(title);
    let normalized_query = normalize_for_match(original_query);
    if can_be_scored(&lower, &normalized_title, &normalized_query) {
        Some(score_title_for_audio(title, original_query))
    } else {
        None
    }
}

/// What `yt-dlp` tells of a video that a link leads to. `duration` is in whole seconds.
#[derive(Debug)]
pub struct Video {
    pub title: Option<String>,
    pub url: Option<String>,
    pub webpage_url: Option<String>,
    pub thumbnail: Option<String>,
    pub duration: Option<u64>,
    pub uploader: Option<String>,
}

/// What `yt-dlp` tells of the videos that a link leads to.
#[derive(Debug)]
pub enum VideoOutput {
    SingleVideo(Video),
    Playlist(Option<Vec<Video>>),
}

/// What `yt-dlp` tells of a video that a search finds.
#[derive(Debug)]
pub struct FlatVideo {
    pub id: Option<String>,
    pub title: Option<String>,
    pub url: Option<String>,
    pub duration_ms: Option<u64>,
    pub thumbnail: Option<String>,
    pub uploader: Option<String>,
    pub webpage_url: Option<String>,
}

/// The text, or the empty text where there is none.
pub open spec fn or_empty(value: Option<Seq<char>>) -> Seq<char> {
    match value {
        Some(t) => t,
        None => Seq::empty(),
    }
}

/// The first text, or the second where there is none.
pub open spec fn or_else(
    first: Option<Seq<char>>,
    second: Option<Seq<char>>,
) -> Option<Seq<char>> {
    if first is Some {
        first
    } else {
        second
    }
}

/// The length of a video in milliseconds fits in 64 bits.
pub open spec fn duration_fits(video: Video) -> bool {
    video.duration matches Some(secs) ==> secs * 1000 <= u64::MAX
}

/// The track that a video is: its own link, else its page, else no link at all.
pub open spec fn track_of_video(id: u128, video: Video, source: TrackSource) -> TrackView {
    TrackView {
        id,
        title: or_empty(video.title.deep_view()),
        url: or_empty(or_else(video.url.deep_view(), video.webpage_url.deep_view())),
        thumbnail: video.thumbnail.deep_view(),
        duration_ms: match video.duration {
            Some(secs) => Some((secs * 1000) as u64),
            None => None,
        },
        source,
        original_url: video.webpage_url.deep_view(),
        artist: video.uploader.deep_view(),
    }
}

/// The page of a found video: the one given, else the one that its identifier leads to.
pub open spec fn page_of_flat(video: FlatVideo) -> Option<Seq<char>> {
    let id = or_empty(video.id.deep_view());
    or_else(
        video.webpage_url.deep_view(),
        if id.len() == 0 {
            None
        } else {
            Some("https://www.youtube.com/watch?v="@ + id)
        },
    )
}

/// The track that a found video is: its own link, else its page, else no link at all.
pub open spec fn track_of_flat(id: u128, video: FlatVideo, source: TrackSource) -> TrackView {
    TrackView {
        id,
        title: or_empty(video.title.deep_view()),
        url: or_empty(or_else(video.url.deep_view(), page_of_flat(video))),
        thumbnail: video.thumbnail.deep_view(),
        duration_ms: video.duration_ms,
        source,
        original_url: page_of_flat(video),
        artist: video.uploader.deep_view(),
    }
}

/// The text, or the empty text where there is none.
fn text_or_empty(value: Option<String>) -> (r: String)
    ensures
        r@ == or_empty(value.deep_view()),
{
    match value {
        Some(t) => t,
        None => String::new(),
    }
}

/// The track that a video is, under the given identifier.
pub fn video_with_id(id: u128, video: Video, source: TrackSource) -> (r: Track)
    requires
        duration_fits(video),
    ensures
        r@ == track_of_video(id, video, source),
{
    let url = match video.url {
        Some(u) => u,
        None => match &video.webpage_url {
            Some(page) => page.clone(),
            None => String::new(),
        },
    };
    let duration_ms: Option<u64> = match video.duration {
        Some(secs) => Some(secs * 1000),
        None => None,
    };
    Track {
        id,
        title: text_or_empty(video.title),
        url,
        thumbnail: video.thumbnail,
        duration_ms,
        source,
        original_url: video.webpage_url,
        artist: video.uploader,
    }
}

/// The track that a video is, under a new identifier.
pub fn video_to_track(video: Video, source: TrackSource) -> (r: Track)
    requires
        duration_fits(video),
    ensures
        r@ == track_of_video(r.id, video, source),
        is_random_uuid(r.id),
{
    video_with_id(new_track_id(), video, source)
}

/// The videos of an output.
pub open spec fn videos_of(output: VideoOutput) -> Seq<Video> {
    match output {
        VideoOutput::SingleVideo(video) => seq![video],
        VideoOutput::Playlist(Some(entries)) => entries@,
        VideoOutput::Playlist(None) => Seq::empty(),
    }
}

/// The tracks that an output's videos are, in their order, each under a new identifier.
pub fn extract_tracks(output: VideoOutput, source: TrackSource) -> (r: Vec<Track>)
    requires
        forall|i: int| 0 <= i < videos_of(output).len() ==> duration_fits(
            #[trigger] videos_of(output)[i],
        ),
    ensures
        r@.len() == videos_of(output).len(),
        forall|i: int|
            0 <= i < r@.len() ==> (#[trigger] r@[i])@ == track_of_video(
                r@[i].id,
                videos_of(output)[i],
                source,
            ) && is_random_uuid(r@[i].id),
{
    let mut out: Vec<Track> = Vec::new();
    match output {
        VideoOutput::SingleVideo(video) => {
            assert(duration_fits(videos_of(output)[0]));
            out.push(video_to_track(video, source));
        },
        VideoOutput::Playlist(Some(entries)) => {
            for video in it: entries
                invariant
                    it.seq() == entries@,
                    forall|i: int| 0 <= i < entries@.len() ==> duration_fits(
                        #[trigger] entries@[i],
                    ),
                    out@.len() == it.index(),
                    forall|i: int|
                        0 <= i < out@.len() ==> (#[trigger] out@[i])@ == track_of_video(
                            out@[i].id,
                            entries@[i],
                            source,
                        ) && is_random_uuid(out@[i].id),
            {
                assert(duration_fits(entries@[it.index() as int]));
                out.push(video_to_track(video, source));
            }
        },
        VideoOutput::Playlist(None) => {},
    }
    out
}

/// The track that a found video is, under the given identifier.
pub fn flat_video_with_id(id: u128, video: FlatVideo, source: TrackSource) -> (r: Track)
    ensures
        r@ == track_of_flat(id, video, source),
{
    let video_id = text_or_empty(video.id);
    let webpage_url: Option<String> = match video.webpage_url {
        Some(page) => Some(page),
        None => if video_id.as_str().is_empty() {
            None
        } else {
            Some(concat("https://www.youtube.com/watch?v=", &video_id))
        },
    };
    let url = match video.url {
        Some(u) => u,
        None => match &webpage_url {
            Some(page) => page.clone(),
            None => String::new(),
        },
    };
    Track {
        id,
        title: text_or_empty(video.title),
        url,
        thumbnail: video.thumbnail,
        duration_ms: video.duration_ms,
        source,
        original_url: webpage_url,
        artist: video.uploader,
    }
}

/// The track that a found video is, under a new identifier.
pub fn flat_video_to_track(video: FlatVideo, source: TrackSource) -> (r: Track)
    ensures
        r@ == track_of_flat(r.id, video, source),
        is_random_uuid(r.id),
{
    flat_video_with_id(new_track_id(), video, source)
}

/// The name of a source in the keys of the cache.
pub open spec fn source_name(source: TrackSource) -> Seq<char> {
    match source {
        TrackSource::Youtube => "Youtube"@,
        TrackSource::Spotify => "Spotify"@,
        TrackSource::Soundcloud => "Soundcloud"@,
    }
}

/// What is searched for: the trimmed query and a word that asks for audio.
pub open spec fn search_text(query: Seq<char>, source: TrackSource) -> Seq<char> {
    match source {
        TrackSource::Spotify => trimmed(query) + " (official audio)"@,
        _ => trimmed(query) + " audio"@,
    }
}

/// The key of a search in the cache.
pub open spec fn cache_key(query: Seq<char>, source: TrackSource) -> Seq<char> {
    source_name(source) + ":"@ + search_text(query, source)
}

/// How many videos a search asks for.
pub open spec fn search_count(source: TrackSource) -> u32 {
    match source {
        TrackSource::Youtube => 3,
        _ => 1,
    }
}

/// A search that is to be run.
#[derive(Debug)]
pub struct SearchRequest {
    /// The trimmed query.
    pub query: String,
    /// What is searched for.
    pub search_query: String,
    /// The key of the search in the cache.
    pub cache_key: String,
    /// How many videos to ask for.
    pub count: u32,
    /// Whether the search goes out by the proxy or the source address.
    pub use_proxy: bool,
    /// What the tracks are wanted for.
    pub source: TrackSource,
}

impl SearchRequest {
    /// The request is the one that the query makes.
    pub open spec fn is_for(&self, query: Seq<char>, source: TrackSource) -> bool {
        &&& self.query@ == trimmed(query)
        &&& self.search_query@ == search_text(query, source)
        &&& self.cache_key@ == cache_key(query, source)
        &&& self.count == search_count(source)
        &&& self.use_proxy == (source != TrackSource::Spotify)
        &&& self.source == source
    }
}

/// What a query leads to: tracks at once, or a search.
#[derive(Debug)]
pub enum SearchPlan {
    Done(Vec<Track>),
    Search(SearchRequest),
}

/// What to do for a query. A blank one finds nothing; one that was resolved lately gives its
/// track again; any other is searched for.
pub fn plan_search(
    cache: &mut TrackCache,
    query: &str,
    source: TrackSource,
    now: u64,
) -> (r: SearchPlan)
    ensures
        final(cache).ttl() == old(cache).ttl(),
        trimmed(query@).len() == 0 ==> final(cache).entries() == old(cache).entries() && (
        r matches SearchPlan::Done(tracks) && tracks@.len() == 0),
        trimmed(query@).len() > 0 ==> {
            let key = cache_key(query@, source);
            &&& final(cache).entries() == cache_after_lookup(
                old(cache).entries(),
                old(cache).ttl(),
                key,
                now,
            )
            &&& match cache_lookup(old(cache).entries(), old(cache).ttl(), key, now) {
                Some(track) => r matches SearchPlan::Done(tracks) && tracks@.len() == 1
                    && tracks@[0]@ == track,
                None => r matches SearchPlan::Search(request) && request.is_for(query@, source),
            }
        },
{
    let query_text = trim(query);
    if query_text.as_str().is_empty() {
        return SearchPlan::Done(Vec::new());
    }
    let search_query = match source {
        TrackSource::Spotify => concat(&query_text, " (official audio)"),
        _ => concat(&query_text, " audio"),
    };
    let name = match source {
        TrackSource::Youtube => "Youtube",
        TrackSource::Spotify => "Spotify",
        TrackSource::Soundcloud => "Soundcloud",
    };
    let key = concat(&concat(name, ":"), &search_query);
    match cache.get(&key, now) {
        Some(track) => {
            let mut tracks: Vec<Track> = Vec::new();
            tracks.push(track);
            SearchPlan::Done(tracks)
        },
        None => {
            let count: u32 = match source {
                TrackSource::Youtube => 3,
                _ => 1,
            };
            let use_proxy = match source {
                TrackSource::Spotify => false,
                _ => true,
            };
            SearchPlan::Search(
                SearchRequest {
                    query: query_text,
                    search_query,
                    cache_key: key,
                    count,
                    use_proxy,
                    source,
                },
            )
        },
    }
}

/// The arguments of `yt-dlp` for a search.
pub open spec fn search_args(
    request: SearchRequest,
    settings: OutboundSettings,
    source_addr: Option<Seq<char>>,
) -> Seq<Seq<char>> {
    seq![
        "--flat-playlist"@,
        "--dump-json"@,
        "--no-warnings"@,
        "ytsearch"@ + number_text(request.count as nat) + ":"@ + request.search_query@,
    ] + cookie_args(settings.cookies()) + if request.use_proxy {
        route_args(settings.proxy(), source_addr)
    } else {
        Seq::empty()
    }
}

/// The arguments of `yt-dlp` for a search that a plan asks for.
pub fn flat_search_args(
    request: &SearchRequest,
    settings: &OutboundSettings,
    source_addr: Option<&str>,
) -> (r: Vec<String>)
    ensures
        r.deep_view() == search_args(*request, *settings, source_addr.deep_view()),
{
    let head = concat(&concat("ytsearch", &number_string(request.count)), ":");
    let target = concat(&head, &request.search_query);
    let mut args: Vec<String> = Vec::new();
    push_arg(&mut args, "--flat-playlist");
    push_arg(&mut args, "--dump-json");
    push_arg(&mut args, "--no-warnings");
    push_arg(&mut args, &target);
    push_cookies(&mut args, yt_cookies_file(settings));
    if request.use_proxy {
        push_route(&mut args, proxy_url(settings), source_addr);
    }
    assert(args.deep_view() =~= search_args(*request, *settings, source_addr.deep_view()));
    args
}

/// The lines of the output that hold something.
pub open spec fn record_lines(stdout: Seq<char>) -> Seq<Seq<char>> {
    lines(stdout).filter(|line: Seq<char>| trimmed(line).len() > 0)
}

/// The lines of the search's output that hold something.
pub fn flat_search_lines(stdout: &str) -> (r: Vec<String>)
    ensures
        r.deep_view() == record_lines(stdout@),
{
    let rows = split_lines(stdout);
    let ghost all = rows.deep_view();
    let ghost keep = |line: Seq<char>| trimmed(line).len() > 0;
    let mut out: Vec<String> = Vec::new();
    for i in 0..rows.len()
        invariant
            all == rows.deep_view(),
            keep == (|line: Seq<char>| trimmed(line).len() > 0),
            out.deep_view() == all.take(i as int).filter(keep),
    {
        let ghost before = out.deep_view();
        proof {
            reveal(Seq::filter);
            assert(all.take(i + 1).drop_last() =~= all.take(i as int));
            assert(all.take(i + 1).last() == rows@[i as int]@);
        }
        if !is_blank(&rows[i]) {
            out.push(rows[i].clone());
            assert(out.deep_view() =~= before.push(rows@[i as int]@));
        }
    }
    assert(all.take(all.len() as int) =~= all);
    out
}

/// The error of a search whose program ran and failed: what it wrote to its error stream.
pub fn search_failure(stderr: &str) -> (r: YtdlError)
    ensures
        r matches YtdlError::InvocationFailed(why) && why@ == trimmed(stderr@),
{
    YtdlError::InvocationFailed(trim(stderr))
}

/// How the program of a search ended.
#[derive(Debug)]
pub enum SearchOutcome {
    /// It could not be run.
    CannotRun,
    /// It ran and failed; the text is what it wrote to its error stream.
    Failed(String),
    /// It printed records, `None` for a line that holds none.
    Printed(Vec<Option<FlatVideo>>),
}

/// The videos that a search found: those that its program printed. A program that could not be
/// run is missing; one that failed says why.
pub fn found_videos(outcome: SearchOutcome) -> (r: Result<Vec<FlatVideo>, YtdlError>)
    ensures
        match outcome {
            SearchOutcome::CannotRun => r matches Err(e) && e is MissingBinary,
            SearchOutcome::Failed(stderr) => r matches Err(YtdlError::InvocationFailed(why))
                && why@ == trimmed(stderr@),
            SearchOutcome::Printed(records) => r matches Ok(videos) && videos@ == readable(
                records@,
            ),
        },
{
    match outcome {
        SearchOutcome::CannotRun => Err(YtdlError::MissingBinary),
        SearchOutcome::Failed(stderr) => Err(search_failure(&stderr)),
        SearchOutcome::Printed(records) => Ok(keep_readable(records)),
    }
}

/// The title of a found video.
pub open spec fn flat_title(video: FlatVideo) -> Seq<char> {
    or_empty(video.title.deep_view())
}

/// The scores of all titles can be counted in 32 bits.
pub open spec fn can_be_ranked(videos: Seq<FlatVideo>, query: Seq<char>) -> bool {
    forall|i: int| 0 <= i < videos.len() ==> score_fits(flat_title(#[trigger] videos[i]), query)
}

/// Video `i` is the first of those whose title suits the query best.
pub open spec fn is_best_video(videos: Seq<FlatVideo>, query: Seq<char>, i: int) -> bool {
    &&& 0 <= i < videos.len()
    &&& forall|j: int|
        0 <= j < videos.len() ==> audio_score(flat_title(#[trigger] videos[j]), query)
            <= audio_score(flat_title(videos[i]), query)
    &&& forall|j: int|
        0 <= j < i ==> audio_score(flat_title(#[trigger] videos[j]), query) < audio_score(
            flat_title(videos[i]),
            query,
        )
}

/// The tracks are those of the videos, in their order.
pub open spec fn are_tracks_of(
    tracks: Seq<Track>,
    videos: Seq<FlatVideo>,
    source: TrackSource,
) -> bool {
    &&& tracks.len() == videos.len()
    &&& forall|i: int|
        0 <= i < tracks.len() ==> (#[trigger] tracks[i])@ == track_of_flat(
            tracks[i].id,
            videos[i],
            source,
        ) && is_random_uuid(tracks[i].id)
}

/// The tracks that the found videos are, each under a new identifier.
fn flat_tracks(videos: Vec<FlatVideo>, source: TrackSource) -> (r: Vec<Track>)
    ensures
        are_tracks_of(r@, videos@, source),
{
    let mut out: Vec<Track> = Vec::new();
    for video in it: videos
        invariant
            it.seq() == videos@,
            out@.len() == it.index(),
            forall|i: int|
                0 <= i < out@.len() ==> (#[trigger] out@[i])@ == track_of_flat(
                    out@[i].id,
                    videos@[i],
                    source,
                ) && is_random_uuid(out@[i].id),
    {
        out.push(flat_video_to_track(video, source));
    }
    out
}

/// The result of a search: nothing if no video was found, else the track of the first video
/// that suits the query best, which the cache keeps. `None` if the query has so many words that
/// a score cannot be counted in 32 bits.
pub fn finish_search(
    cache: &mut TrackCache,
    request: SearchRequest,
    videos: Vec<FlatVideo>,
    now: u64,
) -> (r: Option<Vec<Track>>)
    ensures
        final(cache).ttl() == old(cache).ttl(),
        videos@.len() == 0 ==> final(cache).entries() == old(cache).entries() && (
        r matches Some(tracks) && tracks@.len() == 0),
        !can_be_ranked(videos@, request.query@) ==> r is None && final(cache).entries() == old(
            cache,
        ).entries(),
        videos@.len() > 0 && can_be_ranked(videos@, request.query@) ==> {
            &&& r matches Some(tracks)
            &&& tracks@.len() == 1
            &&& is_random_uuid(tracks@[0].id)
            &&& exists|i: int| #[trigger]
                is_best_video(videos@, request.query@, i) && tracks@[0]@ == track_of_flat(
                    tracks@[0].id,
                    videos@[i],
                    request.source,
                )
            &&& final(cache).entries() == cache_after_insert(
                old(cache).entries(),
                request.cache_key@,
                tracks@[0]@,
                now,
            )
        },
{
    if videos.len() == 0 {
        return Some(Vec::new());
    }
    let tracks = flat_tracks(videos, request.source);
    let mut best: usize = 0;
    assert(tracks@[0].title@ == flat_title(videos@[0]));
    let mut best_score: i32 = match checked_score(&tracks[0].title, &request.query) {
        Some(score) => score,
        None => {
            assert(!score_fits(flat_title(videos@[0]), request.query@));
            return None;
        },
    };
    for i in 1..tracks.len()
        invariant
            are_tracks_of(tracks@, videos@, request.source),
            forall|j: int|
                0 <= j < i ==> score_fits(flat_title(#[trigger] videos@[j]), request.query@),
            best < i <= tracks@.len(),
            best_score == audio_score(flat_title(videos@[best as int]), request.query@),
            forall|j: int|
                0 <= j < i ==> audio_score(flat_title(#[trigger] videos@[j]), request.query@)
                    <= best_score,
            forall|j: int|
                0 <= j < best ==> audio_score(flat_title(#[trigger] videos@[j]), request.query@)
                    < best_score,
    {
        assert(tracks@[i as int].title@ == flat_title(videos@[i as int]));
        let score: i32 = match checked_score(&tracks[i].title, &request.query) {
            Some(score) => score,
            None => {
                assert(!score_fits(flat_title(videos@[i as int]), request.query@));
                return None;
            },
        };
        if score > best_score {
            best = i;
            best_score = score;
        }
    }
    assert(is_best_video(videos@, request.query@, best as int));
    let track = tracks[best].clone();
    cache.insert(request.cache_key, track.clone(), now);
    let mut found: Vec<Track> = Vec::new();
    found.push(track);
    Some(found)
}

/// What the resolution of a link needs: nothing is resolved for a blank link; for any other,
/// these arguments are added to the program's own.
pub fn plan_url(
    url: &str,
    settings: &OutboundSettings,
    source_addr: Option<&str>,
) -> (r: Option<Vec<String>>)
    ensures
        r.deep_view() == (if trimmed(url@).len() == 0 {
            None
        } else {
            Some(
                cookie_args(settings.cookies()) + route_args(
                    settings.proxy(),
                    source_addr.deep_view(),
                ),
            )
        }),
{
    if is_blank(url) {
        return None;
    }
    let mut args: Vec<String> = Vec::new();
    assert(args.deep_view() =~= Seq::<Seq<char>>::empty());
    push_cookies(&mut args, yt_cookies_file(settings));
    push_route(&mut args, proxy_url(settings), source_addr);
    assert(args.deep_view() =~= cookie_args(settings.cookies()) + route_args(
        settings.proxy(),
        source_addr.deep_view(),
    ));
    Some(args)
}

/// How the resolution of a link ended.
#[derive(Debug)]
pub enum UrlOutcome {
    /// The program could not be run.
    CannotRun,
    /// The program ran and did not give videos; the text says why.
    Failed(String),
    /// The program gave videos.
    Found(VideoOutput),
}

/// The result of the resolution of a link.
pub fn resolve_url_to_track(outcome: UrlOutcome, source: TrackSource) -> (r: Result<
    Vec<Track>,
    YtdlError,
>)
    requires
        outcome matches UrlOutcome::Found(output) ==> forall|i: int|
            0 <= i < videos_of(output).len() ==> duration_fits(#[trigger] videos_of(output)[i]),
    ensures
        match outcome {
            UrlOutcome::CannotRun => r matches Err(e) && e is MissingBinary,
            UrlOutcome::Failed(why) => r matches Err(YtdlError::InvocationFailed(t)) && t == why,
            UrlOutcome::Found(output) => {
                &&& r matches Ok(tracks)
                &&& tracks@.len() == videos_of(output).len()
                &&& forall|i: int|
                    0 <= i < tracks@.len() ==> (#[trigger] tracks@[i])@ == track_of_video(
                        tracks@[i].id,
                        videos_of(output)[i],
                        source,
                    ) && is_random_uuid(tracks@[i].id)
            },
        },
{
    match outcome {
        UrlOutcome::CannotRun => Err(YtdlError::MissingBinary),
        UrlOutcome::Failed(why) => Err(YtdlError::InvocationFailed(why)),
        UrlOutcome::Found(output) => Ok(extract_tracks(output, source)),
    }
}

/// A track that was put into the cache is found under its key for as long as it is good, and
/// not afterwards; the lookup that finds it expired takes it out. Other keys are not touched.
pub proof fn law_cache_gives_back(
    entries: Map<Seq<char>, CachedView>,
    ttl: u64,
    key: Seq<char>,
    track: TrackView,
    now: u64,
    later: u64,
    other: Seq<char>,
)
    requires
        now <= later,
    ensures
        ({
            let after = cache_after_insert(entries, key, track, now);
            &&& later - now <= ttl ==> cache_lookup(after, ttl, key, later) == Some(track)
            &&& later - now <= ttl ==> cache_after_lookup(after, ttl, key, later) == after
            &&& later - now > ttl ==> cache_lookup(after, ttl, key, later) is None
            &&& later - now > ttl ==> !cache_after_lookup(after, ttl, key, later).contains_key(key)
            &&& other != key ==> cache_lookup(after, ttl, other, later) == cache_lookup(
                entries,
                ttl,
                other,
                later,
            )
        }),
{
}

/// Searches for different sources, or for different trimmed queries of one source, have
/// different keys in the cache.
pub proof fn law_cache_keys_differ(
    query: Seq<char>,
    source: TrackSource,
    other_query: Seq<char>,
    other_source: TrackSource,
)
    requires
        cache_key(query, source) == cache_key(other_query, other_source),
    ensures
        source == other_source,
        trimmed(query) == trimmed(other_query),
{
    reveal_strlit("Youtube");
    reveal_strlit("Spotify");
    reveal_strlit("Soundcloud");
    reveal_strlit(":");
    reveal_strlit(" audio");
    reveal_strlit(" (official audio)");
    let a = cache_key(query, source);
    let b = cache_key(other_query, other_source);
    assert(a[0] == source_name(source)[0]);
    assert(b[0] == source_name(other_source)[0]);
    if a[0] == 'S' {
        assert(a[1] == source_name(source)[1]);
        assert(b[1] == source_name(other_source)[1]);
    }
    let head = source_name(source).len() + 1;
    let tail = search_text(query, source).len() - trimmed(query).len();
    assert(trimmed(query) =~= a.subrange(head as int, a.len() - tail));
    assert(trimmed(other_query) =~= b.subrange(head as int, b.len() - tail));
}

/// Of two titles that both hold the whole search or both do not, and that say the same of audio
/// and video, the one with more of the search's words scores higher, by 23 for each.
pub proof fn law_each_matched_word_counts(
    title: Seq<char>,
    other: Seq<char>,
    query: Seq<char>,
)
    requires
        trimmed(normalized(query)).len() > 0,
        plain_score(lowercase(title)) == plain_score(lowercase(other)),
        has_text(normalized(title), trimmed(normalized(query))) == has_text(
            normalized(other),
            trimmed(normalized(query)),
        ),
    ensures
        audio_score(title, query) - audio_score(other, query) == 23 * (words_in(
            normalized(title),
            normalized(query),
        ).len() - words_in(normalized(other), normalized(query)).len()),
{
}

/// A score is the score for a blank search and the part of the words, which are those of the
/// trimmed search: 140 if the whole of it stands in the title, 14 for each word of at least three
/// bytes that does and 9 off for each that does not.
pub proof fn law_score_is_title_and_words(title: Seq<char>, query: Seq<char>, blank: Seq<char>)
    requires
        trimmed(normalized(blank)).len() == 0,
    ensures
        ({
            let given = normalized(title);
            let wanted = trimmed(normalized(query));
            let counted = counted_words(wanted).len();
            let matched = words_in(given, wanted).len();
            let part: int = if wanted.len() == 0 {
                0
            } else {
                (if has_text(given, wanted) {
                    140int
                } else {
                    0
                }) + 14 * matched - 9 * (counted - matched)
            };
            audio_score(title, query) == audio_score(title, blank) + part
        }),
        audio_score(title, blank) == plain_score(lowercase(title)),
        words(trimmed(normalized(query))) == words(normalized(query)),
{
    law_trimming_keeps_words(normalized(query));
}

/// Letter case never changes a score: titles with the same lower case, and searches with the
/// same lower case, score the same.
pub proof fn law_letter_case_does_not_count(
    title: Seq<char>,
    other_title: Seq<char>,
    query: Seq<char>,
    other_query: Seq<char>,
)
    requires
        lowercase(title) == lowercase(other_title),
        lowercase(query) == lowercase(other_query),
    ensures
        audio_score(title, query) == audio_score(other_title, other_query),
        score_fits(title, query) == score_fits(other_title, other_query),
{
}

/// The case of ASCII letters never changes a score: a title and a search in ASCII score the same,
/// and can be scored alike, when all their letters are put in upper case or in lower case.
pub proof fn law_ascii_letter_case_does_not_count(title: Seq<char>, query: Seq<char>)
    requires
        ascii_only(title),
        ascii_only(query),
    ensures
        ascii_score(ascii_raised(title), ascii_raised(query)) == ascii_score(title, query),
        ascii_score(ascii_lowered(title), ascii_lowered(query)) == ascii_score(title, query),
        ascii_fits(ascii_raised(title), ascii_raised(query)) == ascii_fits(title, query),
        ascii_fits(ascii_lowered(title), ascii_lowered(query)) == ascii_fits(title, query),
{
    law_ascii_case_is_forgotten(title);
    law_ascii_case_is_forgotten(query);
}

/// A normal form holds spaces, letters and digits only, one character for each of the lower
/// case. Normalizing it again changes nothing where it is its own lower case.
pub proof fn law_normal_form(input: Seq<char>)
    ensures
        forall|i: int|
            0 <= i < normalized(input).len() ==> #[trigger] normalized(input)[i] == ' '
                || alphanumeric(normalized(input)[i]),
        forall|i: int|
            0 <= i < normalized(input).len() && alphanumeric(lowercase(input)[i])
                ==> #[trigger] normalized(input)[i] == lowercase(input)[i],
        normalized(input).len() == lowercase(input).len(),
        spaced(normalized(input)) == normalized(input),
        lowercase(normalized(input)) == normalized(input) ==> normalized(normalized(input))
            == normalized(input),
{
    assert(spaced(normalized(input)) =~= normalized(input));
}

/// The normal form of a text in ASCII is in ASCII, as long as the text, and its own normal form.
pub proof fn law_ascii_normal_form(input: Seq<char>)
    requires
        ascii_only(input),
    ensures
        ascii_only(ascii_normalized(input)),
        ascii_normalized(input).len() == input.len(),
        ascii_normalized(ascii_normalized(input)) == ascii_normalized(input),
{
    let lower = ascii_lowered(input);
    let form = ascii_normalized(input);
    law_ascii_case_is_forgotten(input);
    assert forall|i: int| 0 <= i < form.len() implies #[trigger] form[i] <= '\u{7f}' by {
        assert(lower[i] <= '\u{7f}');
    }
    assert forall|i: int| 0 <= i < form.len() implies #[trigger] ascii_lowered(form)[i] == form[i]
        by {
        assert(ascii_lowered(lower)[i] == lower[i]);
    }
    assert(ascii_lowered(form) =~= form);
    assert(ascii_spaced(form) =~= form);
}

/// The best video is one and the same however it is found.
pub proof fn law_best_video_is_unique(
    videos: Seq<FlatVideo>,
    query: Seq<char>,
    i: int,
    j: int,
)
    requires
        is_best_video(videos, query, i),
        is_best_video(videos, query, j),
    ensures
        i == j,
{
    if i < j {
        assert(audio_score(flat_title(videos[i]), query) < audio_score(
            flat_title(videos[j]),
            query,
        ));
    }
    if j < i {
        assert(audio_score(flat_title(videos[j]), query) < audio_score(
            flat_title(videos[i]),
            query,
        ));
    }
}

} // verus!
