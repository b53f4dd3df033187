use astralink::config::{init_proxy, init_yt_cookies, OutboundSettings};
use astralink::model::{Track, TrackSource};
use astralink::records::keep_readable;
use astralink::resolve::ytdl::{
    checked_score, extract_tracks, finish_search, flat_search_args, flat_search_lines,
    flat_video_to_track, flat_video_with_id, found_videos, normalize_for_match,
    normalize_lowered, plan_search, plan_url, resolve_url_to_track, score_lowered,
    score_title_for_audio, search_failure, video_to_track, video_with_id, FlatVideo,
    SearchOutcome, SearchPlan, SearchRequest, TrackCache, UrlOutcome, Video, VideoOutput,
    YtdlError, TRACK_TTL_NANOS,
};

fn flat(title: &str) -> FlatVideo {
    FlatVideo {
        id: Some("abc".to_string()),
        title: Some(title.to_string()),
        url: None,
        duration_ms: Some(61500),
        thumbnail: None,
        uploader: Some("someone".to_string()),
        webpage_url: None,
    }
}

fn video() -> Video {
    Video {
        title: Some("Song".to_string()),
        url: Some("https://cdn/song".to_string()),
        webpage_url: Some("https://page/song".to_string()),
        thumbnail: Some("https://img".to_string()),
        duration: Some(61),
        uploader: Some("Band".to_string()),
    }
}

fn request(cache: &mut TrackCache, query: &str, source: TrackSource, now: u64) -> SearchRequest {
    match plan_search(cache, query, source, now) {
        SearchPlan::Search(r) => r,
        SearchPlan::Done(_) => panic!("a search was expected"),
    }
}

fn found(plan: SearchPlan) -> Vec<Track> {
    match plan {
        SearchPlan::Done(tracks) => tracks,
        SearchPlan::Search(_) => panic!("no search was expected"),
    }
}

#[test]
fn exact_title_match_beats_generic_audio_candidate() {
    let query = "juice wrld never understand me";
    let exact = "Juice WRLD - Never Understand Me ft. XXXTENTACION (Remix)";
    let generic = "Random Chill Mix (Official Audio)";

    assert!(score_title_for_audio(exact, query) > score_title_for_audio(generic, query));
}

#[test]
fn title_with_missing_query_tokens_is_penalized() {
    let query = "juice wrld never understand me";
    let partial = "Juice WRLD - New Song";
    let closer = "Juice WRLD - Never Understand Me (Audio)";

    assert!(score_title_for_audio(closer, query) > score_title_for_audio(partial, query));
}

#[test]
fn scores_are_exact() {
    let query = "juice wrld never understand me";
    assert_eq!(
        score_title_for_audio("Juice WRLD - Never Understand Me ft. XXXTENTACION (Remix)", query),
        56
    );
    assert_eq!(score_title_for_audio("Random Chill Mix (Official Audio)", query), 24);
    assert_eq!(score_title_for_audio("Juice WRLD - New Song", query), 10);
    assert_eq!(score_title_for_audio("Juice WRLD - Never Understand Me (Audio)", query), 86);
    assert_eq!(score_title_for_audio("Juice WRLD Never Understand Me", query), 196);
}

#[test]
fn words_that_are_not_wanted_take_points() {
    assert_eq!(score_title_for_audio("Song (Lyrics)", ""), -30);
    assert_eq!(score_title_for_audio("Song lyric", ""), -30);
    assert_eq!(score_title_for_audio("Song visualizer", ""), -30);
    assert_eq!(score_title_for_audio("Song MV", ""), -40);
    assert_eq!(score_title_for_audio("Song (Official Video)", ""), -40);
    assert_eq!(score_title_for_audio("Song music video", ""), -40);
    assert_eq!(score_title_for_audio("Song LIVE", ""), -40);
    assert_eq!(score_title_for_audio("Song fan-made", ""), -20);
    assert_eq!(score_title_for_audio("Song fan video", ""), -20);
    assert_eq!(score_title_for_audio("Song Audio", ""), 30);
    assert_eq!(score_title_for_audio("Song official audio", ""), 60);
    assert_eq!(
        score_title_for_audio("Live lyric visualizer official video fan-made audio", "  "),
        -130
    );
}

#[test]
fn each_matched_word_counts_twenty_three() {
    let one = score_title_for_audio("alpha", "alpha beta gamma");
    let two = score_title_for_audio("alpha gamma", "alpha beta gamma");
    assert_eq!(one, 14 - 18);
    assert_eq!(two - one, 23);
}

#[test]
fn scores_that_fit_are_counted() {
    assert_eq!(checked_score("Song Audio", "song"), Some(140 + 14 + 30));
    assert_eq!(checked_score("Song MV", "  "), Some(-40));
}

#[test]
fn lowered_texts_are_scored() {
    let lower = "juice wrld - never understand me (audio)";
    let title = normalize_lowered(lower);
    assert_eq!(title, "juice wrld   never understand me  audio ");
    assert_eq!(score_lowered(lower, &title, "juice wrld never understand me"), 86);
    assert_eq!(score_lowered(lower, &title, "  never understand me "), 140 + 28 + 30);
    assert_eq!(score_lowered(lower, &title, " "), 30);
}

#[test]
fn a_score_is_title_and_words() {
    let title = "Some Song (Official Audio)";
    for query in ["some song", "  some song ", "other", "song song", "", "!?"] {
        let wanted = normalize_for_match(query).trim().to_string();
        let given = normalize_for_match(title);
        let words: Vec<&str> = wanted.split_whitespace().filter(|w| w.len() >= 3).collect();
        let matched = words.iter().filter(|w| given.contains(**w)).count() as i32;
        let part = if wanted.is_empty() {
            0
        } else {
            (if given.contains(&wanted) { 140 } else { 0 }) + 14 * matched
                - 9 * (words.len() as i32 - matched)
        };
        assert_eq!(
            score_title_for_audio(title, query),
            score_title_for_audio(title, "") + part
        );
    }
}

#[test]
fn letter_case_does_not_count() {
    let title = "Juice WRLD - Never Understand Me (Live Audio)";
    let query = "juice WRLD never";
    assert_eq!(
        score_title_for_audio(&title.to_ascii_uppercase(), &query.to_ascii_uppercase()),
        score_title_for_audio(title, query)
    );
}

#[test]
fn a_normal_form_is_normal() {
    for text in ["AC/DC - T.N.T!", "", "\u{c9}TOILE \u{130}", "a  b"] {
        let form = normalize_for_match(text);
        assert_eq!(normalize_for_match(&form), form);
        assert_eq!(form.chars().count(), text.to_lowercase().chars().count());
        assert!(form.chars().all(|c| c == ' ' || c.is_alphanumeric()));
    }
}

#[test]
fn short_words_do_not_count() {
    assert_eq!(score_title_for_audio("nothing", "me to a"), 0);
    assert_eq!(score_title_for_audio("nothing", "\u{e9}\u{e9}"), -9);
}

#[test]
fn texts_are_normalized() {
    assert_eq!(normalize_for_match("AC/DC - T.N.T!"), "ac dc   t n t ");
    assert_eq!(normalize_for_match("\u{c9}TOILE 9"), "\u{e9}toile 9");
}

#[test]
fn a_video_becomes_a_track() {
    let t = video_with_id(5, video(), TrackSource::Youtube);
    assert_eq!(t.id, 5);
    assert_eq!(t.title, "Song");
    assert_eq!(t.url, "https://cdn/song");
    assert_eq!(t.original_url.as_deref(), Some("https://page/song"));
    assert_eq!(t.thumbnail.as_deref(), Some("https://img"));
    assert_eq!(t.duration_ms, Some(61_000));
    assert_eq!(t.artist.as_deref(), Some("Band"));
    assert_eq!(t.source, TrackSource::Youtube);
}

#[test]
fn a_video_without_a_link_plays_from_its_page() {
    let mut v = video();
    v.url = None;
    v.duration = None;
    v.title = None;
    let t = video_with_id(5, v, TrackSource::Soundcloud);
    assert_eq!(t.url, "https://page/song");
    assert_eq!(t.duration_ms, None);
    assert_eq!(t.title, "");
    let mut v = video();
    v.url = None;
    v.webpage_url = None;
    let t = video_with_id(5, v, TrackSource::Soundcloud);
    assert_eq!(t.url, "");
    assert!(t.original_url.is_none());
}

#[test]
fn new_tracks_have_random_identifiers() {
    let a = video_to_track(video(), TrackSource::Youtube).id;
    let b = flat_video_to_track(flat("x"), TrackSource::Youtube).id;
    assert_ne!(a, b);
    for id in [a, b] {
        assert_eq!((id >> 76) & 0xf, 4);
        assert_eq!((id >> 62) & 0x3, 2);
    }
}

#[test]
fn a_found_video_becomes_a_track() {
    let t = flat_video_with_id(6, flat("Song"), TrackSource::Spotify);
    assert_eq!(t.id, 6);
    assert_eq!(t.url, "https://www.youtube.com/watch?v=abc");
    assert_eq!(t.original_url.as_deref(), Some("https://www.youtube.com/watch?v=abc"));
    assert_eq!(t.duration_ms, Some(61500));
    assert_eq!(t.artist.as_deref(), Some("someone"));
    let mut v = flat("Song");
    v.webpage_url = Some("https://page".to_string());
    v.url = Some("https://direct".to_string());
    let t = flat_video_with_id(6, v, TrackSource::Spotify);
    assert_eq!(t.url, "https://direct");
    assert_eq!(t.original_url.as_deref(), Some("https://page"));
    let mut v = flat("Song");
    v.id = None;
    v.title = None;
    let t = flat_video_with_id(6, v, TrackSource::Spotify);
    assert_eq!(t.url, "");
    assert_eq!(t.title, "");
    assert!(t.original_url.is_none());
}

#[test]
fn outputs_become_tracks() {
    let one = extract_tracks(VideoOutput::SingleVideo(video()), TrackSource::Youtube);
    assert_eq!(one.len(), 1);
    assert_eq!(one[0].title, "Song");
    let mut second = video();
    second.title = Some("Other".to_string());
    let two = extract_tracks(
        VideoOutput::Playlist(Some(vec![video(), second])),
        TrackSource::Youtube,
    );
    assert_eq!(two.len(), 2);
    assert_eq!(two[0].title, "Song");
    assert_eq!(two[1].title, "Other");
    assert_ne!(two[0].id, two[1].id);
    assert!(extract_tracks(VideoOutput::Playlist(None), TrackSource::Youtube).is_empty());
}

#[test]
fn a_link_is_resolved_or_the_reason_is_told() {
    let ok = resolve_url_to_track(
        UrlOutcome::Found(VideoOutput::SingleVideo(video())),
        TrackSource::Youtube,
    );
    assert_eq!(ok.map(|t| t.len()).unwrap_or(0), 1);
    let missing = resolve_url_to_track(UrlOutcome::CannotRun, TrackSource::Youtube);
    assert!(matches!(&missing, Err(YtdlError::MissingBinary)));
    let failed =
        resolve_url_to_track(UrlOutcome::Failed("boom".to_string()), TrackSource::Youtube);
    match failed {
        Err(e) => assert_eq!(e.message(), "yt-dlp invocation failed: boom"),
        Ok(_) => panic!("an error was expected"),
    }
}

#[test]
fn errors_have_messages() {
    assert_eq!(YtdlError::MissingBinary.message(), "yt-dlp not available in PATH");
    assert_eq!(
        YtdlError::ParseError("x".to_string()).message(),
        "failed to parse yt-dlp json: x"
    );
    assert_eq!(search_failure("  no net \n").message(), "yt-dlp invocation failed: no net");
}

#[test]
fn a_blank_query_finds_nothing() {
    let mut cache = TrackCache::new();
    assert!(found(plan_search(&mut cache, " \t ", TrackSource::Youtube, 0)).is_empty());
}

#[test]
fn a_search_asks_for_audio() {
    let mut cache = TrackCache::new();
    let r = request(&mut cache, "  some song ", TrackSource::Youtube, 0);
    assert_eq!(r.query, "some song");
    assert_eq!(r.search_query, "some song audio");
    assert_eq!(r.cache_key, "Youtube:some song audio");
    assert_eq!(r.count, 3);
    assert!(r.use_proxy);
    let r = request(&mut cache, "some song", TrackSource::Spotify, 0);
    assert_eq!(r.search_query, "some song (official audio)");
    assert_eq!(r.cache_key, "Spotify:some song (official audio)");
    assert_eq!(r.count, 1);
    assert!(!r.use_proxy);
    let r = request(&mut cache, "some song", TrackSource::Soundcloud, 0);
    assert_eq!(r.cache_key, "Soundcloud:some song audio");
    assert_eq!(r.count, 1);
    assert!(r.use_proxy);
}

#[test]
fn the_arguments_of_a_search() {
    let mut cache = TrackCache::new();
    let mut settings = OutboundSettings::new();
    let yt = request(&mut cache, "q", TrackSource::Youtube, 0);
    assert_eq!(
        flat_search_args(&yt, &settings, Some("2001:db8::1")),
        vec![
            "--flat-playlist",
            "--dump-json",
            "--no-warnings",
            "ytsearch3:q audio",
            "--force-ipv6",
            "--source-address",
            "2001:db8::1"
        ]
    );
    init_yt_cookies(&mut settings, "/c.txt".to_string());
    init_proxy(&mut settings, "http://p:1".to_string());
    assert_eq!(
        flat_search_args(&yt, &settings, Some("2001:db8::1")),
        vec![
            "--flat-playlist",
            "--dump-json",
            "--no-warnings",
            "ytsearch3:q audio",
            "--cookies",
            "/c.txt",
            "--proxy",
            "http://p:1"
        ]
    );
    let sp = request(&mut cache, "q", TrackSource::Spotify, 0);
    assert_eq!(
        flat_search_args(&sp, &settings, None),
        vec![
            "--flat-playlist",
            "--dump-json",
            "--no-warnings",
            "ytsearch1:q (official audio)",
            "--cookies",
            "/c.txt"
        ]
    );
}

#[test]
fn blank_lines_of_the_output_are_left_out() {
    assert_eq!(flat_search_lines("{a}\r\n\n  \n{b}"), vec!["{a}", "{b}"]);
    assert!(flat_search_lines("").is_empty());
}

#[test]
fn records_that_could_not_be_read_are_left_out() {
    let videos = keep_readable(vec![Some(flat("a")), None, Some(flat("b")), None]);
    let titles: Vec<Option<String>> = videos.into_iter().map(|v| v.title).collect();
    assert_eq!(titles, vec![Some("a".to_string()), Some("b".to_string())]);
    assert!(keep_readable::<u8>(vec![None]).is_empty());
}

#[test]
fn the_outcome_of_a_search_gives_videos_or_an_error() {
    let printed = SearchOutcome::Printed(vec![None, Some(flat("a"))]);
    assert_eq!(found_videos(printed).map(|v| v.len()).unwrap_or(0), 1);
    assert!(matches!(
        found_videos(SearchOutcome::CannotRun),
        Err(YtdlError::MissingBinary)
    ));
    match found_videos(SearchOutcome::Failed(" gone \n".to_string())) {
        Err(e) => assert_eq!(e.message(), "yt-dlp invocation failed: gone"),
        Ok(_) => panic!("an error was expected"),
    }
}

#[test]
fn the_best_video_is_found_and_kept() {
    let mut cache = TrackCache::new();
    let r = request(&mut cache, "some song", TrackSource::Youtube, 10);
    let videos = vec![flat("Some Song live"), flat("Some Song"), flat("some song")];
    let tracks = finish_search(&mut cache, r, videos, 10).expect("scores can be counted");
    assert_eq!(tracks.len(), 1);
    assert_eq!(tracks[0].title, "Some Song");
    let again = found(plan_search(&mut cache, " some song", TrackSource::Youtube, 11));
    assert_eq!(again.len(), 1);
    assert_eq!(again[0].id, tracks[0].id);
    request(&mut cache, "some song", TrackSource::Spotify, 11);
}

#[test]
fn no_video_gives_no_track() {
    let mut cache = TrackCache::new();
    let r = request(&mut cache, "x", TrackSource::Youtube, 0);
    assert_eq!(finish_search(&mut cache, r, Vec::new(), 0).map(|t| t.len()), Some(0));
    request(&mut cache, "x", TrackSource::Youtube, 1);
}

#[test]
fn the_cache_forgets_after_ten_minutes() {
    let mut cache = TrackCache::new();
    let track = flat_video_with_id(3, flat("t"), TrackSource::Youtube);
    cache.insert("k".to_string(), track, 100);
    assert_eq!(cache.get("k", 100 + TRACK_TTL_NANOS).map(|t| t.id), Some(3));
    assert!(cache.get("other", 100).is_none());
    assert!(cache.get("k", 101 + TRACK_TTL_NANOS).is_none());
    assert!(cache.get("k", 100).is_none());
}

#[test]
fn the_cache_keeps_the_last_track() {
    let mut cache = TrackCache::new();
    cache.insert("k".to_string(), flat_video_with_id(3, flat("a"), TrackSource::Youtube), 1);
    cache.insert("l".to_string(), flat_video_with_id(4, flat("b"), TrackSource::Youtube), 1);
    cache.insert("k".to_string(), flat_video_with_id(5, flat("c"), TrackSource::Youtube), 2);
    assert_eq!(cache.get("k", 3).map(|t| t.id), Some(5));
    assert_eq!(cache.get("l", 3).map(|t| t.id), Some(4));
}

#[test]
fn the_arguments_of_a_link() {
    let mut settings = OutboundSettings::new();
    assert_eq!(plan_url("  ", &settings, None), None);
    assert_eq!(plan_url("u", &settings, None), Some(Vec::new()));
    assert_eq!(
        plan_url("u", &settings, Some("::1")),
        Some(vec![
            "--force-ipv6".to_string(),
            "--source-address".to_string(),
            "::1".to_string()
        ])
    );
    init_proxy(&mut settings, "http://p:1".to_string());
    init_yt_cookies(&mut settings, "/c".to_string());
    assert_eq!(
        plan_url("u", &settings, Some("::1")),
        Some(vec![
            "--cookies".to_string(),
            "/c".to_string(),
            "--proxy".to_string(),
            "http://p:1".to_string()
        ])
    );
}
