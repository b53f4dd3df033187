//! Laws of the tracks that Spotify names.
use vstd::prelude::*;
use vstd::utf8::encode_utf8;
use crate::model::{Track, TrackSource, TrackView};
use crate::resolve::spotify::{
    apply_spotify_metadata, auth_header, base64_digit, base64_standard, basic_auth, byte_at,
    described, expect_body, expect_reply, extract_spotify_track_id, finish_spotify_query,
    finish_spotify_url, lookup_failure, merged, plan_spotify_query, plan_spotify_url,
    require_success, search_params, sextet, SpotifyError, SpotifyMatch, SpotifyPlan, SpotifyTrack,
    TokenCache,
};
use crate::resolve::ytdl::YtdlError;
use crate::text::{find_from, has_prefix, has_text, lemma_find_from, occurs_at, trimmed};
use crate::track_id::{hex_digit, hex_digits, session_name};

verus! {

/// The messages of the errors.
pub proof fn law_spotify_messages(err: &SpotifyError, r: String)
    requires
        call_ensures(SpotifyError::message, (err,), r),
    ensures
        err is NotConfigured ==> r@ == "spotify is not configured"@,
        err is RequestFailed ==> r@ == "spotify request failed: "@ + err->RequestFailed_0@,
        err is ParseError ==> r@ == "spotify response parse error: "@ + err->ParseError_0@,
{
}

/// The value of a character of base64.
pub open spec fn base64_value(c: char) -> int {
    if 'A' <= c && c <= 'Z' {
        c as int - 'A' as int
    } else if 'a' <= c && c <= 'z' {
        c as int - 'a' as int + 26
    } else if '0' <= c && c <= '9' {
        c as int - '0' as int + 52
    } else if c == '+' {
        62
    } else {
        63
    }
}

proof fn lemma_digit_is_read_back(value: int)
    requires
        0 <= value < 64,
    ensures
        base64_value(base64_digit(value)) == value,
        base64_digit(value) != '=',
        value == 63 ==> base64_digit(value) == '/',
{
}

proof fn lemma_sextets(bytes: Seq<u8>, k: int)
    requires
        k >= 0,
    ensures
        0 <= sextet(bytes, k) < 64,
{
    let at = k / 4 * 3;
    assert(0 <= byte_at(bytes, at) < 256);
}

/// Byte `i` as it is read from characters of base64: every four of them make up three bytes.
pub open spec fn byte_read(text: Seq<char>, i: int) -> int {
    let at = i / 3 * 4;
    if i % 3 == 0 {
        base64_value(text[at]) * 4 + base64_value(text[at + 1]) / 16
    } else if i % 3 == 1 {
        base64_value(text[at + 1]) % 16 * 16 + base64_value(text[at + 2]) / 4
    } else {
        base64_value(text[at + 2]) % 4 * 64 + base64_value(text[at + 3])
    }
}

/// What was written in base64 is read back byte by byte; the text is made of groups of four
/// characters, one for every three bytes begun, and is padded with `=` behind the last byte.
pub proof fn law_base64_is_read_back(bytes: Seq<u8>, i: int)
    ensures
        3 * base64_standard(bytes).len() >= 4 * bytes.len(),
        3 * base64_standard(bytes).len() < 4 * bytes.len() + 12,
        base64_standard(bytes).len() % 4 == 0,
        0 <= i < bytes.len() ==> byte_read(base64_standard(bytes), i) == bytes[i],
        0 <= i < base64_standard(bytes).len() ==> (base64_standard(bytes)[i] == '=' <==> 6 * i >= 8
            * bytes.len()),
{
    let text = base64_standard(bytes);
    assert forall|k: int| 0 <= k < text.len() && 6 * k < 8 * bytes.len() implies base64_value(
        #[trigger] text[k],
    ) == sextet(bytes, k) && text[k] != '=' by {
        lemma_sextets(bytes, k);
        lemma_digit_is_read_back(sextet(bytes, k));
    }
    if 0 <= i < bytes.len() {
        let at = i / 3 * 4;
        assert(at / 4 * 3 == i / 3 * 3);
        assert((at + 1) / 4 == at / 4 && (at + 2) / 4 == at / 4 && (at + 3) / 4 == at / 4);
        assert(at % 4 == 0 && (at + 1) % 4 == 1 && (at + 2) % 4 == 2 && (at + 3) % 4 == 3);
        assert(0 <= at && at + 3 < text.len());
        lemma_sextets(bytes, at);
        lemma_sextets(bytes, at + 1);
        lemma_sextets(bytes, at + 2);
        lemma_sextets(bytes, at + 3);
        let first = i / 3 * 3;
        let (a, b, c) = (
            byte_at(bytes, first),
            byte_at(bytes, first + 1),
            byte_at(bytes, first + 2),
        );
        assert(0 <= a < 256 && 0 <= b < 256 && 0 <= c < 256);
        assert(base64_value(text[at]) == a / 4);
        assert(base64_value(text[at + 1]) == a % 4 * 16 + b / 16);
        if i % 3 == 0 {
            assert(byte_read(text, i) == a / 4 * 4 + (a % 4 * 16 + b / 16) / 16);
            assert(byte_read(text, i) == a);
        } else if i % 3 == 1 {
            assert(base64_value(text[at + 2]) == b % 16 * 4 + c / 64);
            assert(byte_read(text, i) == b);
        } else {
            assert(base64_value(text[at + 2]) == b % 16 * 4 + c / 64);
            assert(base64_value(text[at + 3]) == c % 64);
            assert(byte_read(text, i) == c);
        }
    }
}

/// The bits of the last character that belong to no byte are zero.
pub proof fn law_base64_is_filled_with_zeros(bytes: Seq<u8>)
    ensures
        bytes.len() % 3 == 1 ==> base64_value(base64_standard(bytes)[bytes.len() as int / 3 * 4 + 1])
            % 16 == 0,
        bytes.len() % 3 == 2 ==> base64_value(base64_standard(bytes)[bytes.len() as int / 3 * 4 + 2])
            % 4 == 0,
{
    let text = base64_standard(bytes);
    let group = bytes.len() as int / 3;
    let at = group * 4;
    assert(at / 4 == group && (at + 1) / 4 == group && (at + 2) / 4 == group);
    assert((at + 1) % 4 == 1 && (at + 2) % 4 == 2);
    if bytes.len() % 3 == 1 {
        lemma_sextets(bytes, at + 1);
        lemma_digit_is_read_back(sextet(bytes, at + 1));
        let a = byte_at(bytes, group * 3);
        assert(sextet(bytes, at + 1) == a % 4 * 16 + 0int / 16);
        assert(text[at + 1] == base64_digit(sextet(bytes, at + 1)));
    }
    if bytes.len() % 3 == 2 {
        lemma_sextets(bytes, at + 2);
        lemma_digit_is_read_back(sextet(bytes, at + 2));
        let b = byte_at(bytes, group * 3 + 1);
        assert(sextet(bytes, at + 2) == b % 16 * 4 + 0int / 64);
        assert(text[at + 2] == base64_digit(sextet(bytes, at + 2)));
    }
}

/// The header is `Basic` and the credentials in base64, and the credentials are the identifier and
/// the secret with a colon between them.
pub proof fn law_credentials(
    client_id: &str,
    client_secret: &str,
    r: String,
    encoded: &str,
    header: String,
)
    requires
        call_ensures(basic_auth, (client_id, client_secret), r),
        encoded@ == base64_standard(encode_utf8(client_id@ + seq![':'] + client_secret@)),
        call_ensures(auth_header, (encoded,), header),
    ensures
        r@ == header@,
        header@ == "Basic "@ + encoded@,
{
    reveal_strlit(":");
    assert(":"@ =~= seq![':']);
}

/// Without a token there is none; one that was fetched is used as long as it lasts, less a minute,
/// and one that does not say how long it lasts, for 59 minutes. A later one takes its place.
pub proof fn law_token_calls(
    fresh: TokenCache,
    none: Option<String>,
    cache: &mut TokenCache,
    token: String,
    expires_in: Option<u64>,
    now: u64,
    later: u64,
    r: Option<String>,
)
    requires
        call_ensures(TokenCache::new, (), fresh),
        call_ensures(TokenCache::get, (&fresh, later), none),
        call_ensures(TokenCache::store, (cache, token, expires_in, now), ()),
        call_ensures(TokenCache::get, (&*final(cache), later), r),
    ensures
        none is None,
        r is Some ==> r->0@ == token@,
        expires_in is None ==> (r is Some <==> later < now + 3540 * 1_000_000_000),
        expires_in is Some && expires_in->0 >= 60 ==> (r is Some <==> later < now + (expires_in->0
            - 60) * 1_000_000_000),
        expires_in is Some && expires_in->0 < 60 ==> (r is Some <==> later < now),
{
    assert(none.deep_view() is Some <==> none is Some);
    assert(r.deep_view() is Some <==> r is Some);
    assert(r is Some ==> r.deep_view() == Some(r->0@));
}

/// What Spotify says of a track goes into it: its name, its source, and the artist, picture, length
/// and page that it tells; where it tells none, what was there stays. The track plays from the
/// page that it was found on.
pub proof fn law_metadata(
    track: &mut Track,
    name: &str,
    artist: &str,
    thumbnail: Option<&str>,
    duration_ms: Option<u64>,
    spotify_url: Option<&str>,
)
    requires
        call_ensures(
            apply_spotify_metadata,
            (track, name, artist, thumbnail, duration_ms, spotify_url),
            (),
        ),
    ensures
        final(track)@.id == old(track)@.id,
        final(track)@.title == name@,
        final(track)@.source == TrackSource::Spotify,
        artist@.len() > 0 ==> final(track)@.artist == Some(artist@),
        artist@.len() == 0 ==> final(track)@.artist == old(track)@.artist,
        thumbnail is Some ==> final(track)@.thumbnail == Some(thumbnail->0@),
        thumbnail is None ==> final(track)@.thumbnail == old(track)@.thumbnail,
        duration_ms is Some ==> final(track)@.duration_ms == duration_ms,
        duration_ms is None ==> final(track)@.duration_ms == old(track)@.duration_ms,
        old(track)@.original_url is Some ==> final(track)@.url == old(track)@.original_url->0,
        old(track)@.original_url is None ==> final(track)@.url == old(track)@.url,
        spotify_url is Some ==> final(track)@.original_url == Some(spotify_url->0@),
        spotify_url is None ==> final(track)@.original_url == old(track)@.original_url,
{
}

/// What ends an identifier does not stand in it, and the rest begins with it.
pub open spec fn ends_there(id: Seq<char>, rest: Seq<char>) -> bool {
    &&& !id.contains('?') && !id.contains('&') && !id.contains('/')
    &&& rest.len() > 0 ==> rest[0] == '?' || rest[0] == '&' || rest[0] == '/'
}

/// A Spotify URI names the track behind `spotify:track:`, up to what ends an identifier.
pub proof fn law_id_of_a_uri(url: &str, id: Seq<char>, rest: Seq<char>, r: Option<String>)
    requires
        call_ensures(extract_spotify_track_id, (url,), r),
        url@ == "spotify:track:"@ + id + rest,
        ends_there(id, rest),
    ensures
        id.len() == 0 ==> r is None,
        id.len() > 0 ==> r is Some && r->0@ == id,
{
    reveal_strlit("spotify:track:");
    assert(url@.subrange(0, 14) =~= "spotify:track:"@);
    assert(url@.skip(14) =~= id + rest);
    crate::laws::text::lemma_identifier(url@.skip(14), id, rest);
    assert(r.deep_view() is Some <==> r is Some);
    assert(r is Some ==> r.deep_view() == Some(r->0@));
}

/// A link names the track behind its first `track/`, up to what ends an identifier.
pub proof fn law_id_of_a_link(
    url: &str,
    before: Seq<char>,
    id: Seq<char>,
    rest: Seq<char>,
    r: Option<String>,
)
    requires
        call_ensures(extract_spotify_track_id, (url,), r),
        url@ == before + "track/"@ + id + rest,
        !has_prefix(url@, "spotify:track:"@),
        forall|i: int| #[trigger] occurs_at(url@, "track/"@, i) ==> i >= before.len(),
        ends_there(id, rest),
    ensures
        id.len() == 0 ==> r is None,
        id.len() > 0 ==> r is Some && r->0@ == id,
{
    reveal_strlit("track/");
    let at = before.len() as int;
    assert(url@.subrange(at, at + 6) =~= "track/"@);
    assert(occurs_at(url@, "track/"@, at));
    lemma_find_from(url@, "track/"@, 0);
    assert(find_from(url@, "track/"@, 0) == Some(at));
    assert(url@.skip(at + 6) =~= id + rest);
    crate::laws::text::lemma_identifier(url@.skip(at + 6), id, rest);
    assert(r.deep_view() is Some <==> r is Some);
    assert(r is Some ==> r.deep_view() == Some(r->0@));
}

/// A text that is no Spotify URI and holds no `track/` names no track.
pub proof fn law_no_id(url: &str, r: Option<String>)
    requires
        call_ensures(extract_spotify_track_id, (url,), r),
        !has_prefix(url@, "spotify:track:"@),
        !has_text(url@, "track/"@),
    ensures
        r is None,
{
    lemma_find_from(url@, "track/"@, 0);
    assert(r.deep_view() is Some <==> r is Some);
}

/// A search needs both credentials; a blank one finds nothing, and any other asks the search of
/// Spotify with the credentials as they are.
pub proof fn law_planned_query(
    query: &str,
    client_id: Option<&str>,
    client_secret: Option<&str>,
    r: Result<SpotifyPlan, SpotifyError>,
)
    requires
        call_ensures(plan_spotify_query, (query, client_id, client_secret), r),
    ensures
        r is Ok <==> client_id is Some && client_secret is Some,
        r is Err ==> r->Err_0 is NotConfigured,
        r is Ok ==> (r->Ok_0 is Nothing <==> trimmed(query@).len() == 0),
        r is Ok && r->Ok_0 is Ask ==> r->Ok_0->endpoint@ == "https://api.spotify.com/v1/search"@
            && r->Ok_0->credentials.client_id@ == client_id->0@
            && r->Ok_0->credentials.client_secret@ == client_secret->0@,
{
}

/// A link needs both credentials; a blank one finds nothing, one that names a track asks Spotify
/// for that track with the credentials as they are, and any other is no link to a track.
pub proof fn law_planned_spotify_link(
    url: &str,
    client_id: Option<&str>,
    client_secret: Option<&str>,
    r: Result<SpotifyPlan, SpotifyError>,
    id: Option<String>,
)
    requires
        call_ensures(plan_spotify_url, (url, client_id, client_secret), r),
        call_ensures(extract_spotify_track_id, (url,), id),
    ensures
        client_id is None || client_secret is None ==> r is Err && r->Err_0 is NotConfigured,
        client_id is Some && client_secret is Some && trimmed(url@).len() == 0 ==> r is Ok
            && r->Ok_0 is Nothing,
        client_id is Some && client_secret is Some && trimmed(url@).len() > 0 ==> {
            &&& r is Ok <==> id is Some
            &&& r is Err ==> r->Err_0 is RequestFailed && r->Err_0->RequestFailed_0@
                == "invalid spotify track url"@
            &&& r is Ok ==> r->Ok_0 is Ask && r->Ok_0->endpoint@
                == "https://api.spotify.com/v1/tracks/"@ + id->0@
                && r->Ok_0->credentials.client_id@ == client_id->0@
                && r->Ok_0->credentials.client_secret@ == client_secret->0@
        },
{
    assert(id.deep_view() is Some <==> id is Some);
    assert(id is Some ==> id.deep_view() == Some(id->0@));
}

/// A search asks for five tracks by the query as it is.
pub proof fn law_search_parameters(query: &str, r: Vec<(String, String)>)
    requires
        call_ensures(search_params, (query,), r),
    ensures
        r@.len() == 3,
        (r@[0].0)@ == "q"@ && (r@[0].1)@ == query@,
        (r@[1].0)@ == "type"@ && (r@[1].1)@ == "track"@,
        (r@[2].0)@ == "limit"@ && (r@[2].1)@ == "5"@,
{
    let all = seq![("q"@, query@), ("type"@, "track"@), ("limit"@, "5"@)];
    assert(r.deep_view().len() == 3);
    assert(r.deep_view()[0] == all[0]);
    assert(r.deep_view()[1] == all[1]);
    assert(r.deep_view()[2] == all[2]);
}

/// A request that failed, a reply without success and a body that cannot be read are errors with
/// their reason; anything else goes through as it is.
pub proof fn law_replies<T>(
    sent: Result<T, String>,
    reply: Result<T, SpotifyError>,
    body: Result<T, SpotifyError>,
    success: bool,
    status: String,
    checked: Result<(), SpotifyError>,
)
    requires
        call_ensures(expect_reply::<T>, (sent,), reply),
        call_ensures(expect_body::<T>, (sent,), body),
        call_ensures(require_success, (success, status), checked),
    ensures
        sent is Ok ==> reply is Ok && reply->Ok_0 == sent->Ok_0,
        sent is Ok ==> body is Ok && body->Ok_0 == sent->Ok_0,
        sent is Err ==> reply is Err && reply->Err_0 is RequestFailed
            && reply->Err_0->RequestFailed_0 == sent->Err_0,
        sent is Err ==> body is Err && body->Err_0 is ParseError && body->Err_0->ParseError_0
            == sent->Err_0,
        checked is Ok <==> success,
        checked is Err ==> checked->Err_0 is RequestFailed && checked->Err_0->RequestFailed_0
            == status,
{
}

/// A lookup that failed fails with the program's message.
pub proof fn law_lookup_failure(err: &YtdlError, r: SpotifyError, message: String)
    requires
        call_ensures(lookup_failure, (err,), r),
        call_ensures(YtdlError::message, (err,), message),
    ensures
        r is RequestFailed && r->RequestFailed_0@ == message@,
{
}

/// A track is looked up by its first artist and its name, with a hyphen between them.
pub proof fn law_lookup_query(track: &SpotifyTrack, artist: String, r: String)
    requires
        call_ensures(SpotifyTrack::artist_name, (track,), artist),
        call_ensures(SpotifyTrack::lookup_query, (track,), r),
    ensures
        track.artists@.len() > 0 ==> artist@ == track.artists@[0].name@,
        track.artists@.len() == 0 ==> artist@.len() == 0,
        r@ == artist@ + " - "@ + track.name@,
{
}

/// A track that was found, as Spotify describes it: its name and source, its first artist, the
/// first picture of its album, its length, and its page; where Spotify tells one of these not,
/// what was found stays. It plays from the page that it was found on.
pub open spec fn is_described(
    r: TrackView,
    found: TrackView,
    track: SpotifyTrack,
    page: Option<Seq<char>>,
) -> bool {
    let artist_known = track.artists@.len() > 0 && track.artists@[0].name@.len() > 0;
    let cover_known = track.album is Some && track.album->0.images@.len() > 0;
    &&& r.id == found.id
    &&& r.title == track.name@
    &&& r.source == TrackSource::Spotify
    &&& artist_known ==> r.artist == Some(track.artists@[0].name@)
    &&& !artist_known ==> r.artist == found.artist
    &&& cover_known ==> r.thumbnail == Some(track.album->0.images@[0].url@)
    &&& !cover_known ==> r.thumbnail == found.thumbnail
    &&& track.duration_ms is Some ==> r.duration_ms == track.duration_ms
    &&& track.duration_ms is None ==> r.duration_ms == found.duration_ms
    &&& found.original_url is Some ==> r.url == found.original_url->0
    &&& found.original_url is None ==> r.url == found.url
    &&& page is Some ==> r.original_url == page
    &&& page is None ==> r.original_url == found.original_url
}

/// The page that Spotify tells of a track.
pub open spec fn told_page(track: SpotifyTrack) -> Option<Seq<char>> {
    if track.external_urls is Some && track.external_urls->0.spotify is Some {
        Some(track.external_urls->0.spotify->0@)
    } else {
        None
    }
}

/// A link gives every track that was found, in order, as Spotify describes the link's track; where
/// Spotify tells no page, the link is the page.
pub proof fn law_tracks_of_a_link(
    track: SpotifyTrack,
    url: &str,
    found: Vec<Track>,
    r: Vec<Track>,
    i: int,
)
    requires
        call_ensures(finish_spotify_url, (track, url, found), r),
    ensures
        r@.len() == found@.len(),
        0 <= i < r@.len() ==> is_described(
            r@[i]@,
            found@[i]@,
            track,
            if told_page(track) is Some {
                told_page(track)
            } else {
                Some(url@)
            },
        ),
{
    assert(r.deep_view().len() == r@.len());
    assert(found.deep_view().len() == found@.len());
    assert(track.page() == told_page(track));
    if 0 <= i < r@.len() {
        assert(r.deep_view()[i] == r@[i]@);
        assert(found.deep_view()[i] == found@[i]@);
    }
}

/// One lookup that went well gives every track that was found, in order, as Spotify describes it;
/// one that failed gives none.
pub proof fn law_tracks_of_a_lookup(lookups: Vec<Option<SpotifyMatch>>, r: Vec<Track>, i: int)
    requires
        call_ensures(finish_spotify_query, (lookups,), r),
        lookups@.len() == 1,
    ensures
        lookups@[0] is None ==> r@.len() == 0,
        lookups@[0] is Some ==> r@.len() == lookups@[0]->0.found@.len(),
        lookups@[0] is Some && 0 <= i < r@.len() ==> is_described(
            r@[i]@,
            lookups@[0]->0.found@[i]@,
            lookups@[0]->0.track,
            told_page(lookups@[0]->0.track),
        ),
{
    reveal_with_fuel(merged, 2);
    assert(r.deep_view().len() == r@.len());
    if lookups@[0] is Some {
        let m = lookups@[0]->0;
        assert(m.found.deep_view().len() == m.found@.len());
        let all = described(m.track, m.found.deep_view(), m.track.page());
        assert(Seq::<TrackView>::empty() + all =~= all);
        assert(m.track.page() == told_page(m.track));
        if 0 <= i < r@.len() {
            assert(r.deep_view()[i] == r@[i]@);
            assert(m.found.deep_view()[i] == m.found@[i]@);
        }
    }
}

proof fn lemma_merged_of_both(
    a: Seq<Option<SpotifyMatch>>,
    b: Seq<Option<SpotifyMatch>>,
    n: int,
)
    requires
        0 <= n <= a.len() + b.len(),
    ensures
        n <= a.len() ==> merged(a + b, n) == merged(a, n),
        n > a.len() ==> merged(a + b, n) == merged(a, a.len() as int) + merged(b, n - a.len()),
    decreases n,
{
    let all = a + b;
    if n > 0 {
        lemma_merged_of_both(a, b, n - 1);
        if n <= a.len() {
            assert(all[n - 1] == a[n - 1]);
        } else {
            assert(all[n - 1] == b[n - 1 - a.len()]);
            let head = merged(a, a.len() as int);
            if n - 1 == a.len() {
                assert(merged(b, 0) =~= Seq::empty());
                assert(head + merged(b, 0) =~= head);
            }
            assert(merged(all, n) =~= head + merged(b, n - a.len()));
        }
    }
}

/// Of more lookups the tracks come one after the other, in the order of the lookups.
pub proof fn law_lookups_come_in_order(
    first: Vec<Option<SpotifyMatch>>,
    second: Vec<Option<SpotifyMatch>>,
    both: Vec<Option<SpotifyMatch>>,
    a: Vec<Track>,
    b: Vec<Track>,
    r: Vec<Track>,
)
    requires
        both@ == first@ + second@,
        call_ensures(finish_spotify_query, (first,), a),
        call_ensures(finish_spotify_query, (second,), b),
        call_ensures(finish_spotify_query, (both,), r),
    ensures
        r.deep_view() == a.deep_view() + b.deep_view(),
{
    lemma_merged_of_both(first@, second@, both@.len() as int);
    if second@.len() == 0 {
        assert(b.deep_view() =~= Seq::<TrackView>::empty());
        assert(a.deep_view() + b.deep_view() =~= a.deep_view());
    }
}

/// The number that hexadecimal digits stand for.
pub open spec fn hex_value(digits: Seq<char>) -> int
    decreases digits.len(),
{
    if digits.len() == 0 {
        0
    } else {
        hex_value(digits.drop_last()) * 16 + if '0' <= digits.last() && digits.last() <= '9' {
            digits.last() as int - '0' as int
        } else {
            digits.last() as int - 'a' as int + 10
        }
    }
}

proof fn lemma_hex_value(id: u128, n: int)
    requires
        1 <= n <= 32,
    ensures
        hex_value(hex_digits(id, 0, n)) == id >> ((4 * (32 - n)) as u128),
    decreases n,
{
    let digits = hex_digits(id, 0, n);
    let shift = (4 * (32 - n)) as u128;
    let here = id >> shift;
    let low = here & 0xf;
    assert(digits.last() == hex_digit(low));
    assert(low < 16 && here == (here >> 4) * 16 + low) by (bit_vector)
        requires
            low == here & 0xf,
    ;
    let fewer = digits.drop_last();
    assert(fewer =~= hex_digits(id, 0, n - 1));
    assert(low < 10 ==> digits.last() as int == '0' as int + low);
    assert(low >= 10 ==> digits.last() as int == 'a' as int + low - 10);
    assert(hex_value(digits) == hex_value(fewer) * 16 + low);
    if n > 1 {
        lemma_hex_value(id, n - 1);
        let wider = (4 * (32 - (n - 1))) as u128;
        assert((id >> shift) >> 4 == id >> wider) by (bit_vector)
            requires
                shift <= 120,
                wider == shift + 4,
        ;
    } else {
        assert(fewer =~= Seq::empty());
        assert((id >> 124) >> 4 == 0) by (bit_vector);
        assert(here >> 4 == 0);
    }
}

/// A session is named by the 32 hexadecimal digits of the identifier, in lower case.
pub proof fn law_session_name(id: u128, r: String)
    requires
        call_ensures(session_name, (id,), r),
    ensures
        r@.len() == 32,
        hex_value(r@) == id,
        forall|i: int|
            0 <= i < r@.len() ==> ('0' <= #[trigger] r@[i] && r@[i] <= '9') || ('a' <= r@[i]
                && r@[i] <= 'f'),
{
    lemma_hex_value(id, 32);
    assert(id >> 0 == id) by (bit_vector);
    assert forall|i: int| 0 <= i < r@.len() implies ('0' <= #[trigger] r@[i] && r@[i] <= '9') || (
    'a' <= r@[i] && r@[i] <= 'f') by {
        let here = id >> ((4 * (31 - i)) as u128);
        assert(here & 0xf < 16) by (bit_vector);
        assert(r@[i] == hex_digit(here & 0xf));
    }
}

} // verus!
