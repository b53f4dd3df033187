use astralink::config::{init_proxy, OutboundSettings};
use astralink::json::{text_at, whole_seconds};
use astralink::model::TrackSource;
use astralink::resolve::soundcloud::{
    fallback_failure, fallback_query, fetch_args, fetched_document, finish_soundcloud,
    is_go_premium_payload, is_lowered_premium, is_lowered_preview, is_lowered_soundcloud_url,
    is_lowered_url, is_soundcloud_url, is_url, payload_to_track, payload_with_id,
    plan_soundcloud, primary_payload, read_ytdlp_json, FetchOutcome, SoundcloudError,
    SoundcloudOutcome, SoundcloudPlan,
};
use astralink::resolve::ytdl::YtdlError;
use serde_json::Value;

fn json(text: &str) -> Value {
    serde_json::from_str::<Value>(text).expect("a JSON document")
}

#[test]
fn links_are_told_from_searches() {
    assert!(is_url("  HTTPS://x"));
    assert!(is_url("http://x"));
    assert!(!is_url("ftp://x"));
    assert!(!is_url("song http://x"));
    assert!(is_soundcloud_url("https://SoundCloud.com/a"));
    assert!(is_soundcloud_url("https://snd.sc/a"));
    assert!(!is_soundcloud_url("https://youtube.com/a"));
}

#[test]
fn queries_are_planned() {
    assert!(matches!(plan_soundcloud("  "), SoundcloudPlan::Nothing));
    match plan_soundcloud(" https://youtu.be/1 ") {
        SoundcloudPlan::Youtube(text) => assert_eq!(text, "https://youtu.be/1"),
        _ => panic!("YouTube was expected"),
    }
    match plan_soundcloud(" https://soundcloud.com/a ") {
        SoundcloudPlan::Fetch { target, query } => {
            assert_eq!(target, "https://soundcloud.com/a");
            assert_eq!(query, "https://soundcloud.com/a");
        }
        _ => panic!("a fetch was expected"),
    }
    match plan_soundcloud(" some song ") {
        SoundcloudPlan::Fetch { target, query } => {
            assert_eq!(target, "scsearch1:some song");
            assert_eq!(query, "some song");
        }
        _ => panic!("a fetch was expected"),
    }
}

#[test]
fn subscriber_tracks_are_recognized() {
    for text in [
        r#"{"availability": "Premium_only"}"#,
        r#"{"availability": "subscriber_only"}"#,
        r#"{"title": "Song (GO+)"}"#,
        r#"{"title": "on SoundCloud Go"}"#,
        r#"{"description": "needs go+"}"#,
        r#"{"description": "Go Premium only"}"#,
        r#"{"duration": 30}"#,
        r#"{"formats": [{}, {"format_note": "Preview"}]}"#,
        r#"{"formats": [{"acodec": "preview-mp3"}]}"#,
    ] {
        assert!(is_go_premium_payload(&json(text)));
    }
    for text in [
        r#"{}"#,
        r#"[]"#,
        r#"{"duration": 30.0}"#,
        r#"{"duration": 31}"#,
        r#"{"duration": "30"}"#,
        r#"{"title": 5}"#,
        r#"{"formats": [{"format_note": "full"}]}"#,
        r#"{"formats": {"format_note": "preview"}}"#,
    ] {
        assert!(!is_go_premium_payload(&json(text)));
    }
}

#[test]
fn a_payload_becomes_a_track() {
    let p = json(
        r#"{"title": "T", "webpage_url": "W", "original_url": "O", "url": "U",
            "uploader": "A", "thumbnail": "I", "duration": 61.5}"#,
    );
    let t = payload_with_id(4, &p, Some(61500), TrackSource::Soundcloud).expect("a track");
    assert_eq!(t.id, 4);
    assert_eq!(t.title, "T");
    assert_eq!(t.url, "W");
    assert_eq!(t.original_url.as_deref(), Some("W"));
    assert_eq!(t.artist.as_deref(), Some("A"));
    assert_eq!(t.thumbnail.as_deref(), Some("I"));
    assert_eq!(t.duration_ms, Some(61500));
    assert_eq!(t.source, TrackSource::Soundcloud);
}

#[test]
fn a_payload_plays_from_the_link_that_it_has() {
    let p = json(r#"{"original_url": "O", "url": "U"}"#);
    let t = payload_with_id(4, &p, None, TrackSource::Soundcloud).expect("a track");
    assert_eq!(t.url, "O");
    assert_eq!(t.title, "");
    let p = json(r#"{"url": "U"}"#);
    let t = payload_with_id(4, &p, None, TrackSource::Soundcloud).expect("a track");
    assert_eq!(t.url, "U");
    assert!(t.original_url.is_none());
    assert!(payload_with_id(4, &json(r#"{"title": "T"}"#), None, TrackSource::Soundcloud).is_none());
    let empty = json(r#"{"webpage_url": "", "url": "U"}"#);
    assert!(payload_to_track(&empty, None, TrackSource::Soundcloud).is_none());
    let premium = json(r#"{"url": "U", "title": "go+"}"#);
    assert!(payload_to_track(&premium, None, TrackSource::Soundcloud).is_none());
}

#[test]
fn youtube_is_asked_for_artist_and_title() {
    let p = json(r#"{"uploader": "A", "title": "T"}"#);
    assert_eq!(fallback_query(Some(&p), "q"), "A T");
    assert_eq!(fallback_query(Some(&json(r#"{"title": "T"}"#)), "q"), "T");
    assert_eq!(fallback_query(Some(&json(r#"{"uploader": "A"}"#)), "q"), "A");
    assert_eq!(fallback_query(Some(&json("{}")), "q"), "q");
    assert_eq!(fallback_query(None, " q "), " q ");
}

#[test]
fn the_output_of_the_program_is_read() {
    match read_ytdlp_json(true, r#"{"title": "T"}"#, "") {
        Ok(v) => assert_eq!(text_at(&v, "title").as_deref(), Some("T")),
        Err(_) => panic!("a document was expected"),
    }
    match read_ytdlp_json(false, "{}", "  gone \n") {
        Err(e) => assert_eq!(e.message(), "soundcloud request failed: gone"),
        Ok(_) => panic!("an error was expected"),
    }
    match read_ytdlp_json(true, "nonsense", "") {
        Err(SoundcloudError::RequestFailed(why)) => {
            let parser = serde_json::from_str::<Value>("nonsense").map_err(|e| e.to_string());
            assert_eq!(Err(why), parser);
        }
        Ok(_) => panic!("an error was expected"),
    }
}

#[test]
fn the_outcome_of_a_fetch_gives_a_document_or_an_error() {
    let ran = |success: bool, stdout: &str| FetchOutcome::Ran {
        success,
        stdout: stdout.to_string(),
        stderr: " gone ".to_string(),
    };
    match fetched_document(ran(true, r#"{"title": "T"}"#)) {
        Ok(v) => assert_eq!(text_at(&v, "title").as_deref(), Some("T")),
        Err(_) => panic!("a document was expected"),
    }
    match fetched_document(ran(false, "{}")) {
        Err(e) => assert_eq!(e.message(), "soundcloud request failed: gone"),
        Ok(_) => panic!("an error was expected"),
    }
    match fetched_document(FetchOutcome::CannotRun("no file".to_string())) {
        Err(e) => assert_eq!(e.message(), "soundcloud request failed: no file"),
        Ok(_) => panic!("an error was expected"),
    }
}

#[test]
fn lowered_texts_are_told_apart() {
    assert!(is_lowered_url("https://x"));
    assert!(!is_lowered_url("HTTPS://x"));
    assert!(is_lowered_soundcloud_url("https://snd.sc/a"));
    assert!(!is_lowered_soundcloud_url("https://SoundCloud.com/a"));
    assert!(is_lowered_preview("", "mp3 preview"));
    assert!(!is_lowered_preview("full", "mp3"));
    assert!(is_lowered_premium("", "", "", Some(30)));
    assert!(is_lowered_premium("subscriber_only", "", "", None));
    assert!(is_lowered_premium("", "song go+", "", None));
    assert!(is_lowered_premium("", "", "go premium", None));
    assert!(!is_lowered_premium("public", "song", "text", Some(31)));
}

#[test]
fn the_first_entry_describes_the_track() {
    let list = json(r#"{"title": "list", "entries": [{"title": "one"}, {"title": "two"}]}"#);
    assert_eq!(text_at(primary_payload(&list), "title").as_deref(), Some("one"));
    let none = json(r#"{"title": "list", "entries": []}"#);
    assert_eq!(text_at(primary_payload(&none), "title").as_deref(), Some("list"));
    let plain = json(r#"{"title": "single"}"#);
    assert_eq!(text_at(primary_payload(&plain), "title").as_deref(), Some("single"));
}

#[test]
fn a_payload_leads_to_its_track_or_to_youtube() {
    match finish_soundcloud(Some(&json(r#"{"url": "U", "title": "T"}"#)), Some(7), "q") {
        SoundcloudOutcome::Found(t) => {
            assert_eq!(t.title, "T");
            assert_eq!(t.duration_ms, Some(7));
            assert_eq!((t.id >> 76) & 0xf, 4);
        }
        SoundcloudOutcome::Youtube(_) => panic!("a track was expected"),
    }
    match finish_soundcloud(Some(&json(r#"{"url": "U", "title": "T go+"}"#)), Some(7), "q") {
        SoundcloudOutcome::Youtube(text) => assert_eq!(text, "T go+"),
        SoundcloudOutcome::Found(_) => panic!("YouTube was expected"),
    }
    match finish_soundcloud(None, None, "q") {
        SoundcloudOutcome::Youtube(text) => assert_eq!(text, "q"),
        SoundcloudOutcome::Found(_) => panic!("YouTube was expected"),
    }
}

#[test]
fn the_arguments_of_a_fetch() {
    let mut settings = OutboundSettings::new();
    assert_eq!(
        fetch_args("scsearch1:x", &settings, None),
        vec!["--dump-single-json", "--no-warnings", "scsearch1:x"]
    );
    init_proxy(&mut settings, "http://p:1".to_string());
    assert_eq!(
        fetch_args("t", &settings, Some("::1")),
        vec!["--dump-single-json", "--no-warnings", "t", "--proxy", "http://p:1"]
    );
}

#[test]
fn a_failed_fallback_is_told() {
    assert_eq!(
        fallback_failure(&YtdlError::MissingBinary).message(),
        "soundcloud request failed: yt-dlp not available in PATH"
    );
}

#[test]
fn whole_numbers_are_read() {
    assert_eq!(whole_seconds(&Some(json("61"))), Some(61));
    assert_eq!(whole_seconds(&Some(json("61.5"))), None);
    assert_eq!(whole_seconds(&Some(json("-1"))), None);
    assert_eq!(whole_seconds(&Some(json("\"61\""))), None);
    assert_eq!(whole_seconds(&None), None);
}
