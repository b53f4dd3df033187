use astralink::model::{Track, TrackSource};
use astralink::resolve::spotify::{
    apply_spotify_metadata, auth_header, basic_auth, expect_body, expect_reply,
    extract_spotify_track_id, finish_spotify_query, finish_spotify_url, lookup_failure, plan_spotify_query,
    plan_spotify_url, require_success, search_params, SpotifyAlbum, SpotifyArtist, SpotifyError,
    SpotifyExternalUrls, SpotifyImage, SpotifyMatch, SpotifyPlan, SpotifyTrack, TokenCache,
};
use astralink::resolve::ytdl::YtdlError;

fn track(title: &str) -> Track {
    Track {
        id: 1,
        title: title.to_string(),
        url: "https://cdn".to_string(),
        thumbnail: Some("old".to_string()),
        duration_ms: Some(5),
        source: TrackSource::Youtube,
        original_url: Some("https://page".to_string()),
        artist: Some("uploader".to_string()),
    }
}

fn spotify_track(name: &str, page: Option<&str>) -> SpotifyTrack {
    SpotifyTrack {
        name: name.to_string(),
        artists: vec![
            SpotifyArtist { name: "First".to_string() },
            SpotifyArtist { name: "Second".to_string() },
        ],
        album: Some(SpotifyAlbum {
            images: vec![
                SpotifyImage { url: "cover".to_string() },
                SpotifyImage { url: "small".to_string() },
            ],
        }),
        duration_ms: Some(1234),
        external_urls: Some(SpotifyExternalUrls { spotify: page.map(|p| p.to_string()) }),
    }
}

#[test]
fn identifiers_are_found_in_links() {
    assert_eq!(extract_spotify_track_id("spotify:track:abc").as_deref(), Some("abc"));
    assert_eq!(extract_spotify_track_id("spotify:track:abc?si=1").as_deref(), Some("abc"));
    assert_eq!(
        extract_spotify_track_id("https://open.spotify.com/track/4uLU6h?si=x&y=z").as_deref(),
        Some("4uLU6h")
    );
    assert_eq!(
        extract_spotify_track_id("https://open.spotify.com/intl-de/track/4uLU6h/more").as_deref(),
        Some("4uLU6h")
    );
    assert_eq!(extract_spotify_track_id("spotify:track:"), None);
    assert_eq!(extract_spotify_track_id("https://open.spotify.com/track/"), None);
    assert_eq!(extract_spotify_track_id("https://open.spotify.com/track/?a"), None);
    assert_eq!(extract_spotify_track_id("https://open.spotify.com/album/1"), None);
    assert_eq!(extract_spotify_track_id("spotify:track:&track/x"), None);
}

#[test]
fn credentials_are_encoded() {
    assert_eq!(
        basic_auth("Aladdin", "open sesame"),
        "Basic QWxhZGRpbjpvcGVuIHNlc2FtZQ=="
    );
    assert_eq!(basic_auth("", ""), "Basic Og==");
    assert_eq!(basic_auth("a", ""), "Basic YTo=");
    assert_eq!(basic_auth("a", "b"), "Basic YTpi");
    assert_eq!(basic_auth("\u{fb}\u{ff}", "\u{3ff}"), "Basic w7vDvzrPvw==");
    assert_eq!(auth_header("xyz"), "Basic xyz");
}

#[test]
fn a_token_is_used_while_it_lasts() {
    let second = 1_000_000_000u64;
    let mut cache = TokenCache::new();
    assert_eq!(cache.get(0), None);
    cache.store("t".to_string(), Some(100), 5 * second);
    assert_eq!(cache.get(5 * second).as_deref(), Some("t"));
    assert_eq!(cache.get(45 * second - 1).as_deref(), Some("t"));
    assert_eq!(cache.get(45 * second), None);
    cache.store("u".to_string(), Some(60), 0);
    assert_eq!(cache.get(0), None);
    cache.store("u".to_string(), Some(3), 0);
    assert_eq!(cache.get(0), None);
    cache.store("v".to_string(), None, 0);
    assert_eq!(cache.get(3540 * second - 1).as_deref(), Some("v"));
    assert_eq!(cache.get(3540 * second), None);
    cache.store("w".to_string(), Some(u64::MAX), u64::MAX);
    assert_eq!(cache.get(u64::MAX).as_deref(), Some("w"));
}

#[test]
fn metadata_replaces_what_was_found() {
    let mut t = track("found");
    apply_spotify_metadata(&mut t, "Name", "Artist", Some("cover"), Some(9), Some("sp"));
    assert_eq!(t.id, 1);
    assert_eq!(t.title, "Name");
    assert_eq!(t.artist.as_deref(), Some("Artist"));
    assert_eq!(t.url, "https://page");
    assert_eq!(t.thumbnail.as_deref(), Some("cover"));
    assert_eq!(t.duration_ms, Some(9));
    assert_eq!(t.original_url.as_deref(), Some("sp"));
    assert_eq!(t.source, TrackSource::Spotify);
}

#[test]
fn metadata_that_is_missing_keeps_what_was_found() {
    let mut t = track("found");
    t.original_url = None;
    apply_spotify_metadata(&mut t, "Name", "", None, None, None);
    assert_eq!(t.artist.as_deref(), Some("uploader"));
    assert_eq!(t.url, "https://cdn");
    assert_eq!(t.thumbnail.as_deref(), Some("old"));
    assert_eq!(t.duration_ms, Some(5));
    assert_eq!(t.original_url, None);
    let mut again = t.clone();
    apply_spotify_metadata(&mut again, "Name", "", None, None, None);
    assert_eq!(again.title, t.title);
    assert_eq!(again.url, t.url);
}

#[test]
fn a_search_needs_credentials() {
    for (id, secret) in [(None, Some("s")), (Some("i"), None), (None, None)] {
        assert!(matches!(
            plan_spotify_query("q", id, secret),
            Err(SpotifyError::NotConfigured)
        ));
        assert!(matches!(plan_spotify_url("q", id, secret), Err(SpotifyError::NotConfigured)));
    }
    assert!(matches!(
        plan_spotify_query("  ", Some("i"), Some("s")),
        Ok(SpotifyPlan::Nothing)
    ));
    match plan_spotify_query("q", Some("i"), Some("s")) {
        Ok(SpotifyPlan::Ask { credentials, endpoint }) => {
            assert_eq!(credentials.client_id, "i");
            assert_eq!(credentials.client_secret, "s");
            assert_eq!(endpoint, "https://api.spotify.com/v1/search");
        }
        _ => panic!("a request was expected"),
    }
}

#[test]
fn a_search_asks_for_five_tracks() {
    let pair = |a: &str, b: &str| (a.to_string(), b.to_string());
    assert_eq!(
        search_params(" my song"),
        vec![pair("q", " my song"), pair("type", "track"), pair("limit", "5")]
    );
}

#[test]
fn a_link_is_looked_up() {
    assert!(matches!(plan_spotify_url(" ", Some("i"), Some("s")), Ok(SpotifyPlan::Nothing)));
    match plan_spotify_url("https://open.spotify.com/track/x1?y", Some("i"), Some("s")) {
        Ok(SpotifyPlan::Ask { endpoint, .. }) => {
            assert_eq!(endpoint, "https://api.spotify.com/v1/tracks/x1");
        }
        _ => panic!("a request was expected"),
    }
    match plan_spotify_url("https://open.spotify.com/album/x", Some("i"), Some("s")) {
        Err(e) => assert_eq!(
            e.message(),
            "spotify request failed: invalid spotify track url"
        ),
        Ok(_) => panic!("an error was expected"),
    }
}

#[test]
fn a_bad_status_is_an_error() {
    assert!(require_success(true, "200 OK".to_string()).is_ok());
    match require_success(false, "401 Unauthorized".to_string()) {
        Err(e) => assert_eq!(e.message(), "spotify request failed: 401 Unauthorized"),
        Ok(()) => panic!("an error was expected"),
    }
}

#[test]
fn failed_requests_and_bodies_are_errors() {
    assert!(matches!(expect_reply(Ok::<u8, String>(7)), Ok(7)));
    assert!(matches!(expect_body(Ok::<u8, String>(7)), Ok(7)));
    match expect_reply(Err::<u8, String>("no route".to_string())) {
        Err(e) => assert_eq!(e.message(), "spotify request failed: no route"),
        Ok(_) => panic!("an error was expected"),
    }
    match expect_body(Err::<u8, String>("not JSON".to_string())) {
        Err(e) => assert_eq!(e.message(), "spotify response parse error: not JSON"),
        Ok(_) => panic!("an error was expected"),
    }
}

#[test]
fn spotify_errors_have_messages() {
    assert_eq!(SpotifyError::NotConfigured.message(), "spotify is not configured");
    assert_eq!(
        SpotifyError::ParseError("x".to_string()).message(),
        "spotify response parse error: x"
    );
    assert_eq!(
        lookup_failure(&YtdlError::MissingBinary).message(),
        "spotify request failed: yt-dlp not available in PATH"
    );
}

#[test]
fn the_lookup_names_the_first_artist() {
    assert_eq!(spotify_track("Song", None).lookup_query(), "First - Song");
    let mut t = spotify_track("Song", None);
    t.artists.clear();
    assert_eq!(t.lookup_query(), " - Song");
    assert_eq!(t.artist_name(), "");
}

#[test]
fn the_tracks_of_a_search_are_merged() {
    let r = finish_spotify_query(vec![
        Some(SpotifyMatch {
            track: spotify_track("One", Some("sp1")),
            found: vec![track("a"), track("b")],
        }),
        None,
        Some(SpotifyMatch { track: spotify_track("Two", None), found: vec![track("c")] }),
        Some(SpotifyMatch { track: spotify_track("Three", None), found: Vec::new() }),
    ]);
    assert_eq!(r.len(), 3);
    assert_eq!(r[0].title, "One");
    assert_eq!(r[1].title, "One");
    assert_eq!(r[2].title, "Two");
    assert_eq!(r[0].original_url.as_deref(), Some("sp1"));
    assert_eq!(r[2].original_url.as_deref(), Some("https://page"));
    assert_eq!(r[0].thumbnail.as_deref(), Some("cover"));
    assert_eq!(r[0].artist.as_deref(), Some("First"));
    assert_eq!(r[0].duration_ms, Some(1234));
    assert_eq!(r[0].url, "https://page");
}

#[test]
fn a_track_without_a_page_has_its_link_as_page() {
    let r = finish_spotify_url(spotify_track("One", None), "link", vec![track("a")]);
    assert_eq!(r.len(), 1);
    assert_eq!(r[0].original_url.as_deref(), Some("link"));
    let r = finish_spotify_url(spotify_track("One", Some("sp")), "link", vec![track("a")]);
    assert_eq!(r[0].original_url.as_deref(), Some("sp"));
    assert!(finish_spotify_url(spotify_track("One", None), "link", Vec::new()).is_empty());
}
