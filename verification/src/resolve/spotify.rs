//! Tracks that Spotify names and `yt-dlp` finds.
use vstd::prelude::*;
use vstd::utf8::encode_utf8;
use base64::engine::general_purpose::STANDARD;
use base64::Engine;
use crate::model::{Track, TrackSource, TrackView};
use crate::resolve::ytdl::YtdlError;
use crate::text::{
    concat, ends_identifier, find, find_from, has_prefix, identifier_prefix, is_blank,
    lemma_pieces_hold_no_separator, split_by, starts_with, trimmed,
};

verus! {

/// Why Spotify gave no tracks.
#[derive(Debug)]
pub enum SpotifyError {
    NotConfigured,
    RequestFailed(String),
    ParseError(String),
}

impl SpotifyError {
    /// The message that a person reads.
    pub open spec fn text(&self) -> Seq<char> {
        match self {
            SpotifyError::NotConfigured => "spotify is not configured"@,
            SpotifyError::RequestFailed(why) => "spotify request failed: "@ + why@,
            SpotifyError::ParseError(why) => "spotify response parse error: "@ + why@,
        }
    }

    /// The message that a person reads.
    pub fn message(&self) -> (r: String)
        ensures
            r@ == self.text(),
    {
        match self {
            SpotifyError::NotConfigured => String::from_str("spotify is not configured"),
            SpotifyError::RequestFailed(why) => concat("spotify request failed: ", why),
            SpotifyError::ParseError(why) => concat("spotify response parse error: ", why),
        }
    }
}

/// A track as Spotify describes it.
#[derive(Debug)]
pub struct SpotifyTrack {
    pub name: String,
    pub artists: Vec<SpotifyArtist>,
    pub album: Option<SpotifyAlbum>,
    pub duration_ms: Option<u64>,
    pub external_urls: Option<SpotifyExternalUrls>,
}

/// An artist.
#[derive(Debug)]
pub struct SpotifyArtist {
    pub name: String,
}

/// An album.
#[derive(Debug)]
pub struct SpotifyAlbum {
    pub images: Vec<SpotifyImage>,
}

/// A picture of an album.
#[derive(Debug)]
pub struct SpotifyImage {
    pub url: String,
}

/// The links of a track.
#[derive(Debug)]
pub struct SpotifyExternalUrls {
    pub spotify: Option<String>,
}

/// Character `value` of the standard alphabet of base64.
pub open spec fn base64_digit(value: int) -> char {
    if value < 26 {
        ('A' as int + value) as char
    } else if value < 52 {
        ('a' as int + value - 26) as char
    } else if value < 62 {
        ('0' as int + value - 52) as char
    } else if value == 62 {
        '+'
    } else {
        '/'
    }
}

/// Byte `i`; the bytes are followed by zeros.
pub open spec fn byte_at(bytes: Seq<u8>, i: int) -> int {
    if i < bytes.len() {
        bytes[i] as int
    } else {
        0
    }
}

/// Number `k` of the numbers of six bits that the bytes make up, the highest bits first: every
/// three bytes make up four of them.
pub open spec fn sextet(bytes: Seq<u8>, k: int) -> int {
    let at = k / 4 * 3;
    let (a, b, c) = (byte_at(bytes, at), byte_at(bytes, at + 1), byte_at(bytes, at + 2));
    if k % 4 == 0 {
        a / 4
    } else if k % 4 == 1 {
        a % 4 * 16 + b / 16
    } else if k % 4 == 2 {
        b % 16 * 4 + c / 64
    } else {
        c % 64
    }
}

/// The bytes in base64 with the standard alphabet: one character for each number of six bits
/// that holds a bit of them, padded with `=` to a multiple of four characters.
pub open spec fn base64_standard(bytes: Seq<u8>) -> Seq<char> {
    Seq::new(
        (bytes.len() + 2) / 3 * 4,
        |k: int|
            if 6 * k < 8 * bytes.len() {
                base64_digit(sextet(bytes, k))
            } else {
                '='
            },
    )
}

/// `base64::Engine::encode` on the engine `STANDARD` writes base64 with the standard alphabet
/// and with padding.
#[verifier::external_body]
fn base64_encode(bytes: &[u8]) -> (r: String)
    ensures
        r@ == base64_standard(bytes@),
{
    STANDARD.encode(bytes)
}

/// The header that carries encoded credentials.
pub fn auth_header(encoded: &str) -> (r: String)
    ensures
        r@ == "Basic "@ + encoded@,
{
    concat("Basic ", encoded)
}

/// The header that asks for a token in the name of a client.
pub fn basic_auth(client_id: &str, client_secret: &str) -> (r: String)
    ensures
        r@ == "Basic "@ + base64_standard(encode_utf8(client_id@ + ":"@ + client_secret@)),
{
    let credentials = concat(&concat(client_id, ":"), client_secret);
    let encoded = base64_encode(credentials.as_str().as_bytes());
    auth_header(&encoded)
}

/// The nanoseconds in a second.
pub const NANOS_PER_SEC: u128 = 1_000_000_000;

/// The seconds for which a new token is used: a minute less than it lasts. A token that does
/// not say how long it lasts is taken to last an hour.
pub open spec fn token_ttl_secs(expires_in: Option<u64>) -> nat {
    let lasts: nat = match expires_in {
        Some(secs) => secs as nat,
        None => 3600,
    };
    if lasts < 60 {
        0
    } else {
        (lasts - 60) as nat
    }
}

/// A token and the moment, in nanoseconds on a clock that never goes back, from which it is
/// no longer used.
#[derive(Debug)]
pub struct CachedToken {
    pub token: String,
    pub expires_at: u128,
}

/// The token that was fetched last.
#[derive(Debug)]
pub struct TokenCache {
    cached: Option<CachedToken>,
}

/// The token is used at a moment.
pub open spec fn usable_token(cached: Option<(Seq<char>, nat)>, now: nat) -> Option<Seq<char>> {
    match cached {
        Some((token, expires_at)) => if expires_at > now {
            Some(token)
        } else {
            None
        },
        None => None,
    }
}

impl TokenCache {
    /// The token and the moment from which it is no longer used.
    pub closed spec fn held(&self) -> Option<(Seq<char>, nat)> {
        match self.cached {
            Some(c) => Some((c.token@, c.expires_at as nat)),
            None => None,
        }
    }

    /// No token was fetched yet.
    pub fn new() -> (r: Self)
        ensures
            r.held() is None,
    {
        TokenCache { cached: None }
    }

    /// The token, if it can still be used.
    pub fn get(&self, now: u64) -> (r: Option<String>)
        ensures
            r.deep_view() == usable_token(self.held(), now as nat),
    {
        match &self.cached {
            Some(c) => if c.expires_at > now as u128 {
                Some(c.token.clone())
            } else {
                None
            },
            None => None,
        }
    }

    /// Keeps a token that was fetched now.
    pub fn store(&mut self, token: String, expires_in: Option<u64>, now: u64)
        ensures
            final(self).held() == Some(
                (token@, (now + token_ttl_secs(expires_in) * NANOS_PER_SEC) as nat),
            ),
    {
        let lasts: u64 = match expires_in {
            Some(secs) => secs,
            None => 3600,
        };
        let ttl: u64 = lasts.saturating_sub(60);
        assert(ttl as u128 * NANOS_PER_SEC <= u64::MAX * 1_000_000_000);
        let expires_at: u128 = now as u128 + ttl as u128 * NANOS_PER_SEC;
        self.cached = Some(CachedToken { token, expires_at });
    }
}

/// A track that `yt-dlp` found, with what Spotify says of it. It plays from the page that it
/// was found on, and its page is then the one on Spotify.
pub open spec fn with_metadata(
    track: TrackView,
    name: Seq<char>,
    artist: Seq<char>,
    thumbnail: Option<Seq<char>>,
    duration_ms: Option<u64>,
    spotify_url: Option<Seq<char>>,
) -> TrackView {
    TrackView {
        id: track.id,
        title: name,
        url: match track.original_url {
            Some(page) => page,
            None => track.url,
        },
        thumbnail: if thumbnail is Some {
            thumbnail
        } else {
            track.thumbnail
        },
        duration_ms: if duration_ms is Some {
            duration_ms
        } else {
            track.duration_ms
        },
        source: TrackSource::Spotify,
        original_url: if spotify_url is Some {
            spotify_url
        } else {
            track.original_url
        },
        artist: if artist.len() > 0 {
            Some(artist)
        } else {
            track.artist
        },
    }
}

/// Puts what Spotify says of a track into it.
pub fn apply_spotify_metadata(
    track: &mut Track,
    name: &str,
    artist: &str,
    thumbnail: Option<&str>,
    duration_ms: Option<u64>,
    spotify_url: Option<&str>,
)
    ensures
        final(track)@ == with_metadata(
            old(track)@,
            name@,
            artist@,
            thumbnail.deep_view(),
            duration_ms,
            spotify_url.deep_view(),
        ),
{
    track.title = String::from_str(name);
    if !artist.is_empty() {
        track.artist = Some(String::from_str(artist));
    }
    if let Some(page) = track.original_url.clone() {
        track.url = page;
    }
    if let Some(thumb) = thumbnail {
        track.thumbnail = Some(String::from_str(thumb));
    }
    if let Some(ms) = duration_ms {
        track.duration_ms = Some(ms);
    }
    if let Some(url) = spotify_url {
        track.original_url = Some(String::from_str(url));
    }
    track.source = TrackSource::Spotify;
}

/// The text up to the first `?`, `&` or `/`, unless it is empty.
pub open spec fn identifier_in(rest: Seq<char>) -> Option<Seq<char>> {
    let id = split_by(rest, ends_identifier())[0];
    if id.len() == 0 {
        None
    } else {
        Some(id)
    }
}

/// The identifier of the track that a link or a Spotify URI names: what follows
/// `spotify:track:` at the start, else what follows the first `track/`.
pub open spec fn spotify_track_id(url: Seq<char>) -> Option<Seq<char>> {
    if has_prefix(url, "spotify:track:"@) {
        identifier_in(url.skip(14))
    } else {
        match find_from(url, "track/"@, 0) {
            Some(i) => identifier_in(url.skip(i + 6)),
            None => None,
        }
    }
}

/// The identifier at the start of the text behind position `from`; the link has `total`
/// characters.
fn identifier_behind(url: &str, from: usize, total: usize) -> (r: Option<String>)
    requires
        from <= total == url@.len(),
    ensures
        r.deep_view() == identifier_in(url@.skip(from as int)),
{
    let rest = url.substring_char(from, total);
    assert(rest@ =~= url@.skip(from as int));
    let id = identifier_prefix(rest);
    if id.as_str().is_empty() {
        None
    } else {
        Some(id)
    }
}

/// The identifier of the track that a link or a Spotify URI names.
pub fn extract_spotify_track_id(url: &str) -> (r: Option<String>)
    ensures
        r.deep_view() == spotify_track_id(url@),
{
    proof {
        reveal_strlit("spotify:track:");
        reveal_strlit("track/");
    }
    let total: usize = url.unicode_len();
    if starts_with(url, "spotify:track:") {
        identifier_behind(url, 14, total)
    } else {
        match find(url, "track/") {
            Some(i) => identifier_behind(url, i + 6, total),
            None => None,
        }
    }
}

/// The credentials that requests to Spotify are made with.
#[derive(Debug)]
pub struct SpotifyCredentials {
    pub client_id: String,
    pub client_secret: String,
}

/// What a request leads to.
#[derive(Debug)]
pub enum SpotifyPlan {
    /// There is nothing to ask Spotify for.
    Nothing,
    /// Spotify is asked, at the endpoint where there is one to look up.
    Ask { credentials: SpotifyCredentials, endpoint: String },
}

/// The endpoint that searches for tracks.
pub open spec fn search_endpoint() -> Seq<char> {
    "https://api.spotify.com/v1/search"@
}

/// The endpoint that describes a track.
pub open spec fn track_endpoint(id: Seq<char>) -> Seq<char> {
    "https://api.spotify.com/v1/tracks/"@ + id
}

/// The plan asks the endpoint with the credentials.
pub open spec fn asks(
    plan: SpotifyPlan,
    client_id: Seq<char>,
    client_secret: Seq<char>,
    at: Seq<char>,
) -> bool {
    plan matches SpotifyPlan::Ask { credentials, endpoint } && credentials.client_id@ == client_id
        && credentials.client_secret@ == client_secret && endpoint@ == at
}

/// What to do for a search. Without both credentials it fails; a blank one finds nothing.
pub fn plan_spotify_query(
    query: &str,
    client_id: Option<&str>,
    client_secret: Option<&str>,
) -> (r: Result<SpotifyPlan, SpotifyError>)
    ensures
        match (client_id, client_secret) {
            (Some(id), Some(secret)) => if trimmed(query@).len() == 0 {
                r matches Ok(plan) && plan is Nothing
            } else {
                r matches Ok(plan) && asks(plan, id@, secret@, search_endpoint())
            },
            _ => r matches Err(e) && e is NotConfigured,
        },
{
    let id = match client_id {
        Some(id) => id,
        None => {
            return Err(SpotifyError::NotConfigured);
        },
    };
    let secret = match client_secret {
        Some(secret) => secret,
        None => {
            return Err(SpotifyError::NotConfigured);
        },
    };
    if is_blank(query) {
        return Ok(SpotifyPlan::Nothing);
    }
    Ok(
        SpotifyPlan::Ask {
            credentials: SpotifyCredentials {
                client_id: String::from_str(id),
                client_secret: String::from_str(secret),
            },
            endpoint: String::from_str("https://api.spotify.com/v1/search"),
        },
    )
}

/// What to do for a link. Without both credentials it fails; a blank one finds nothing; one
/// that names no track fails.
pub fn plan_spotify_url(
    url: &str,
    client_id: Option<&str>,
    client_secret: Option<&str>,
) -> (r: Result<SpotifyPlan, SpotifyError>)
    ensures
        match (client_id, client_secret) {
            (Some(id), Some(secret)) => if trimmed(url@).len() == 0 {
                r matches Ok(plan) && plan is Nothing
            } else {
                match spotify_track_id(url@) {
                    Some(track) => r matches Ok(plan) && asks(
                        plan,
                        id@,
                        secret@,
                        track_endpoint(track),
                    ),
                    None => r matches Err(SpotifyError::RequestFailed(why)) && why@
                        == "invalid spotify track url"@,
                }
            },
            _ => r matches Err(e) && e is NotConfigured,
        },
{
    let id = match client_id {
        Some(id) => id,
        None => {
            return Err(SpotifyError::NotConfigured);
        },
    };
    let secret = match client_secret {
        Some(secret) => secret,
        None => {
            return Err(SpotifyError::NotConfigured);
        },
    };
    if is_blank(url) {
        return Ok(SpotifyPlan::Nothing);
    }
    match extract_spotify_track_id(url) {
        Some(track) => Ok(
            SpotifyPlan::Ask {
                credentials: SpotifyCredentials {
                    client_id: String::from_str(id),
                    client_secret: String::from_str(secret),
                },
                endpoint: concat("https://api.spotify.com/v1/tracks/", &track),
            },
        ),
        None => Err(SpotifyError::RequestFailed(String::from_str("invalid spotify track url"))),
    }
}

/// The parameters of a search: the query as it was given, and that five tracks are wanted.
pub fn search_params(query: &str) -> (r: Vec<(String, String)>)
    ensures
        r.deep_view() == seq![
            ("q"@, query@),
            ("type"@, "track"@),
            ("limit"@, "5"@),
        ],
{
    let mut params: Vec<(String, String)> = Vec::new();
    params.push((String::from_str("q"), String::from_str(query)));
    params.push((String::from_str("type"), String::from_str("track")));
    params.push((String::from_str("limit"), String::from_str("5")));
    assert(params.deep_view() =~= seq![
        ("q"@, query@),
        ("type"@, "track"@),
        ("limit"@, "5"@),
    ]);
    params
}

/// The reply to a request, or the error of a request that failed; the text says why.
pub fn expect_reply<T>(sent: Result<T, String>) -> (r: Result<T, SpotifyError>)
    ensures
        match sent {
            Ok(reply) => r == Ok::<T, SpotifyError>(reply),
            Err(why) => r == Err::<T, SpotifyError>(SpotifyError::RequestFailed(why)),
        },
{
    match sent {
        Ok(reply) => Ok(reply),
        Err(why) => Err(SpotifyError::RequestFailed(why)),
    }
}

/// The body of a reply, or the error of a body that cannot be read; the text says why.
pub fn expect_body<T>(read: Result<T, String>) -> (r: Result<T, SpotifyError>)
    ensures
        match read {
            Ok(body) => r == Ok::<T, SpotifyError>(body),
            Err(why) => r == Err::<T, SpotifyError>(SpotifyError::ParseError(why)),
        },
{
    match read {
        Ok(body) => Ok(body),
        Err(why) => Err(SpotifyError::ParseError(why)),
    }
}

/// A reply without success is an error that names its status.
pub fn require_success(success: bool, status: String) -> (r: Result<(), SpotifyError>)
    ensures
        if success {
            r is Ok
        } else {
            r matches Err(SpotifyError::RequestFailed(why)) && why == status
        },
{
    if success {
        Ok(())
    } else {
        Err(SpotifyError::RequestFailed(status))
    }
}

/// The error of a track that `yt-dlp` could not be asked for.
pub fn lookup_failure(err: &YtdlError) -> (r: SpotifyError)
    ensures
        r matches SpotifyError::RequestFailed(why) && why@ == err.text(),
{
    SpotifyError::RequestFailed(err.message())
}

impl SpotifyTrack {
    /// The name of the first artist; empty where there is none.
    pub open spec fn artist(&self) -> Seq<char> {
        if self.artists@.len() > 0 {
            self.artists@[0].name@
        } else {
            Seq::empty()
        }
    }

    /// What `yt-dlp` is asked for.
    pub open spec fn lookup(&self) -> Seq<char> {
        self.artist() + " - "@ + self.name@
    }

    /// The track's page on Spotify.
    pub open spec fn page(&self) -> Option<Seq<char>> {
        match self.external_urls {
            Some(urls) => urls.spotify.deep_view(),
            None => None,
        }
    }

    /// The first picture of the album.
    pub open spec fn cover(&self) -> Option<Seq<char>> {
        match self.album {
            Some(album) => if album.images@.len() > 0 {
                Some(album.images@[0].url@)
            } else {
                None
            },
            None => None,
        }
    }

    /// A track that `yt-dlp` found for this one, with what Spotify says of it; `page` is where
    /// it stands on Spotify.
    pub open spec fn describe(&self, found: TrackView, page: Option<Seq<char>>) -> TrackView {
        with_metadata(found, self.name@, self.artist(), self.cover(), self.duration_ms, page)
    }

    /// The name of the first artist; empty where there is none.
    pub fn artist_name(&self) -> (r: String)
        ensures
            r@ == self.artist(),
    {
        if self.artists.len() > 0 {
            self.artists[0].name.clone()
        } else {
            String::new()
        }
    }

    /// What `yt-dlp` is asked for.
    pub fn lookup_query(&self) -> (r: String)
        ensures
            r@ == self.lookup(),
    {
        concat(&concat(&self.artist_name(), " - "), &self.name)
    }

    /// The track's page on Spotify.
    fn page_link(&self) -> (r: Option<&str>)
        ensures
            r.deep_view() == self.page(),
    {
        match &self.external_urls {
            Some(urls) => match &urls.spotify {
                Some(link) => Some(link.as_str()),
                None => None,
            },
            None => None,
        }
    }

    /// Puts what Spotify says of the track into each track that `yt-dlp` found for it, and
    /// adds those to `out`.
    fn describe_all(&self, found: Vec<Track>, page: Option<&str>, out: &mut Vec<Track>)
        ensures
            final(out).deep_view() == old(out).deep_view() + described(
                *self,
                found.deep_view(),
                page.deep_view(),
            ),
    {
        let artist = self.artist_name();
        let cover: Option<&str> = match &self.album {
            Some(album) => if album.images.len() > 0 {
                Some(album.images[0].url.as_str())
            } else {
                None
            },
            None => None,
        };
        assert(cover.deep_view() == self.cover());
        let ghost before = out.deep_view();
        let ghost all = described(*self, found.deep_view(), page.deep_view());
        assert(before =~= before + all.take(0));
        for track in it: found
            invariant
                it.seq() == found@,
                artist@ == self.artist(),
                cover.deep_view() == self.cover(),
                all == described(*self, found.deep_view(), page.deep_view()),
                out.deep_view() == before + all.take(it.index() as int),
        {
            let ghost mid = out.deep_view();
            let ghost i = it.index() as int;
            let mut next = track;
            apply_spotify_metadata(
                &mut next,
                &self.name,
                &artist,
                cover,
                self.duration_ms,
                page,
            );
            assert(next@ == all[i]);
            out.push(next);
            assert(out.deep_view() =~= mid.push(next@));
            assert(out.deep_view() =~= before + all.take(i + 1));
        }
        assert(all.take(all.len() as int) =~= all);
    }
}

/// The tracks that `yt-dlp` found for a track, with what Spotify says of it.
pub open spec fn described(
    track: SpotifyTrack,
    found: Seq<TrackView>,
    page: Option<Seq<char>>,
) -> Seq<TrackView> {
    Seq::new(found.len(), |i: int| track.describe(found[i], page))
}

/// A track of a search's result and what `yt-dlp` found for it.
#[derive(Debug)]
pub struct SpotifyMatch {
    pub track: SpotifyTrack,
    pub found: Vec<Track>,
}

/// The tracks of the first `n` lookups that went well, in the order of the lookups.
pub open spec fn merged(lookups: Seq<Option<SpotifyMatch>>, n: int) -> Seq<TrackView>
    decreases n,
{
    if n <= 0 {
        Seq::empty()
    } else {
        merged(lookups, n - 1) + match lookups[n - 1] {
            Some(m) => described(m.track, m.found.deep_view(), m.track.page()),
            None => Seq::empty(),
        }
    }
}

/// The tracks of a search: those of every lookup that went well, in the order in which the
/// lookups ended. `None` stands for a lookup that failed.
pub fn finish_spotify_query(lookups: Vec<Option<SpotifyMatch>>) -> (r: Vec<Track>)
    ensures
        r.deep_view() == merged(lookups@, lookups@.len() as int),
{
    let mut out: Vec<Track> = Vec::new();
    assert(out.deep_view() =~= Seq::<TrackView>::empty());
    for lookup in it: lookups
        invariant
            it.seq() == lookups@,
            out.deep_view() == merged(lookups@, it.index() as int),
    {
        let ghost before = out.deep_view();
        match lookup {
            Some(m) => {
                m.track.describe_all(m.found, m.track.page_link(), &mut out);
            },
            None => {
                assert(before + Seq::<TrackView>::empty() =~= before);
            },
        }
    }
    out
}

/// The tracks of a link: those that `yt-dlp` found, with what Spotify says of the track. Where
/// Spotify names no page, the link itself is the page.
pub fn finish_spotify_url(track: SpotifyTrack, url: &str, found: Vec<Track>) -> (r: Vec<Track>)
    ensures
        r.deep_view() == described(
            track,
            found.deep_view(),
            (if track.page() is Some {
                track.page()
            } else {
                Some(url@)
            }),
        ),
{
    let mut out: Vec<Track> = Vec::new();
    assert(out.deep_view() =~= Seq::<TrackView>::empty());
    let page: Option<&str> = match track.page_link() {
        Some(link) => Some(link),
        None => Some(url),
    };
    let ghost all = described(track, found.deep_view(), page.deep_view());
    assert(Seq::<TrackView>::empty() + all =~= all);
    track.describe_all(found, page, &mut out);
    out
}

/// A token is used from when it was fetched until a minute before it lapses, and not after. One
/// that lasts a minute or less is never used.
pub proof fn law_token_is_used_while_it_lasts(
    token: Seq<char>,
    expires_in: Option<u64>,
    now: nat,
    later: nat,
)
    requires
        now <= later,
    ensures
        ({
            let expires_at = (now + token_ttl_secs(expires_in) * NANOS_PER_SEC) as nat;
            let held = Some((token, expires_at));
            &&& later - now < token_ttl_secs(expires_in) * NANOS_PER_SEC ==> usable_token(
                held,
                later,
            ) == Some(token)
            &&& later - now >= token_ttl_secs(expires_in) * NANOS_PER_SEC ==> usable_token(
                held,
                later,
            ) is None
            &&& (expires_in matches Some(secs) && secs <= 60) ==> usable_token(held, later) is None
        }),
{
}

/// What Spotify says of a track stays what it is when it is said twice.
pub proof fn law_metadata_is_idempotent(
    track: TrackView,
    name: Seq<char>,
    artist: Seq<char>,
    thumbnail: Option<Seq<char>>,
    duration_ms: Option<u64>,
)
    ensures
        ({
            let once = with_metadata(track, name, artist, thumbnail, duration_ms, None);
            with_metadata(once, name, artist, thumbnail, duration_ms, None) == once
        }),
{
}

/// The identifier of a track holds none of the characters that end it, and is not empty.
pub proof fn law_track_id_is_clean(url: Seq<char>)
    ensures
        spotify_track_id(url) matches Some(id) ==> id.len() > 0 && !id.contains('?')
            && !id.contains('&') && !id.contains('/'),
{
    if has_prefix(url, "spotify:track:"@) {
        lemma_pieces_hold_no_separator(url.skip(14), ends_identifier());
    } else if let Some(i) = find_from(url, "track/"@, 0) {
        lemma_pieces_hold_no_separator(url.skip(i + 6), ends_identifier());
    }
    if let Some(id) = spotify_track_id(url) {
        assert forall|k: int| 0 <= k < id.len() implies !ends_identifier()(#[trigger] id[k]) by {}
    }
}

} // verus!
