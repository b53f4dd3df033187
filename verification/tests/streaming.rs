use astralink::audio::stream::{
    check_handshake, converter_args, fetcher_args, Admission, AudioHandshake, GuildStream,
    StreamAction, StreamEvent,
};
use astralink::config::{init_proxy, init_yt_cookies, OutboundSettings};
use astralink::model::{ActionRequest, QueueItem, Track, TrackSource};
use astralink::state::AstralinkState;

const GUILD: u64 = 8;

fn queue(state: &mut AstralinkState, ids: &[u128]) {
    let items: Vec<QueueItem> = ids
        .iter()
        .map(|id| QueueItem {
            track: Track {
                id: *id,
                title: String::new(),
                url: format!("url-{id}"),
                thumbnail: None,
                duration_ms: None,
                source: TrackSource::Youtube,
                original_url: None,
                artist: None,
            },
            requested_by: 1,
        })
        .collect();
    state.enqueue(GUILD, items, None);
}

struct Bench {
    stream: GuildStream,
    state: AstralinkState,
}

impl Bench {
    fn new(ids: &[u128]) -> Bench {
        let mut state = AstralinkState::new("me".to_string());
        queue(&mut state, ids);
        Bench { stream: GuildStream::new(GUILD), state }
    }

    fn step(&mut self, event: StreamEvent) -> StreamAction {
        assert!(self.stream.accepts(&event));
        self.stream.step(event, &mut self.state)
    }

    fn to_reading(&mut self) {
        assert_eq!(self.step(StreamEvent::Resume), StreamAction::ResolvePlaybackUrl);
        assert_eq!(self.step(StreamEvent::PlaybackUrlFailed), StreamAction::StartPrograms);
        assert_eq!(self.step(StreamEvent::ProgramsStarted), StreamAction::ReadFrame);
    }
}

fn hello(token: &str) -> Option<AudioHandshake> {
    Some(AudioHandshake { token: token.to_string(), guild_id: 12 })
}

#[test]
fn handshakes_are_checked() {
    assert_eq!(check_handshake(0, None, "t"), Admission::Close);
    assert_eq!(check_handshake(0, hello("t"), "t"), Admission::Close);
    assert_eq!(check_handshake(5, None, "t"), Admission::Malformed);
    assert_eq!(check_handshake(5, hello("x"), "t"), Admission::Close);
    assert_eq!(check_handshake(5, hello("t"), "t"), Admission::Admit { guild_id: 12 });
}

#[test]
fn a_stream_without_a_track_closes_after_half_a_minute() {
    let mut b = Bench::new(&[]);
    for _ in 0..300 {
        assert_eq!(b.step(StreamEvent::Resume), StreamAction::Sleep { millis: 100 });
    }
    assert_eq!(b.step(StreamEvent::Resume), StreamAction::Close);
    assert!(!b.stream.accepts(&StreamEvent::Resume));
    assert!(!b.stream.accepts(&StreamEvent::Failed));
}

#[test]
fn a_track_that_comes_late_is_streamed() {
    let mut b = Bench::new(&[]);
    b.step(StreamEvent::Resume);
    queue(&mut b.state, &[5]);
    assert_eq!(b.step(StreamEvent::Resume), StreamAction::ResolvePlaybackUrl);
    assert_eq!(b.stream.track_id(), 5);
    assert_eq!(b.stream.track_url(), "url-5");
}

#[test]
fn a_track_is_streamed_to_its_end() {
    let mut b = Bench::new(&[5, 6]);
    b.to_reading();
    assert_eq!(b.stream.playback_url(), "url-5");
    for n in 1..=3u64 {
        assert_eq!(b.step(StreamEvent::FrameRead), StreamAction::WriteFrame);
        assert_eq!(b.step(StreamEvent::FrameWritten), StreamAction::ReadFrame);
        assert_eq!(b.stream.frames(), n);
        assert_eq!(b.state.as_response(GUILD).position_ms, 20 * n);
    }
    assert_eq!(b.step(StreamEvent::EndOfStream), StreamAction::AwaitPrograms);
    assert_eq!(b.step(StreamEvent::ProgramsEnded), StreamAction::Announce);
    assert_eq!(b.state.current_for(GUILD).map(|t| t.id), Some(6));
    assert_eq!(b.step(StreamEvent::Announced), StreamAction::Again);
    b.to_reading();
    assert_eq!(b.stream.track_id(), 6);
    assert_eq!(b.stream.frames(), 0);
}

#[test]
fn a_skipped_track_is_killed() {
    let mut b = Bench::new(&[5, 6]);
    b.to_reading();
    b.step(StreamEvent::FrameRead);
    b.state.apply_action(GUILD, ActionRequest::Skip);
    assert_eq!(b.step(StreamEvent::FrameWritten), StreamAction::KillPrograms);
    assert_eq!(b.step(StreamEvent::ProgramsEnded), StreamAction::Again);
    assert_eq!(b.state.current_for(GUILD).map(|t| t.id), Some(6));
}

#[test]
fn a_stopped_guild_is_killed_before_the_first_frame() {
    let mut b = Bench::new(&[5]);
    b.step(StreamEvent::Resume);
    b.step(StreamEvent::PlaybackUrlFailed);
    b.state.apply_action(GUILD, ActionRequest::Stop);
    assert_eq!(b.step(StreamEvent::ProgramsStarted), StreamAction::KillPrograms);
    assert_eq!(b.step(StreamEvent::ProgramsEnded), StreamAction::Again);
}

#[test]
fn a_special_link_without_frames_is_bypassed() {
    let mut b = Bench::new(&[5]);
    b.step(StreamEvent::Resume);
    b.step(StreamEvent::PlaybackUrl("cdn".to_string()));
    assert_eq!(b.stream.playback_url(), "cdn");
    b.step(StreamEvent::ProgramsStarted);
    b.step(StreamEvent::EndOfStream);
    assert_eq!(b.step(StreamEvent::ProgramsEnded), StreamAction::BypassPlaybackUrl);
    assert_eq!(b.state.current_for(GUILD).map(|t| t.id), Some(5));
    b.to_reading();
    b.step(StreamEvent::EndOfStream);
    assert_eq!(b.step(StreamEvent::ProgramsEnded), StreamAction::Announce);
    assert!(b.state.current_for(GUILD).is_none());
}

#[test]
fn a_stream_leaves_other_guilds_alone() {
    let mut b = Bench::new(&[5]);
    b.to_reading();
    b.step(StreamEvent::FrameRead);
    b.step(StreamEvent::FrameWritten);
    assert_eq!(b.state.as_response(GUILD).position_ms, 20);
    assert_eq!(b.state.as_response(GUILD + 1).position_ms, 0);
}

#[test]
fn a_failure_closes_the_stream() {
    let mut b = Bench::new(&[5]);
    b.to_reading();
    assert_eq!(b.step(StreamEvent::Failed), StreamAction::Close);
    assert_eq!(b.state.current_for(GUILD).map(|t| t.id), Some(5));
}

#[test]
fn events_out_of_turn_are_not_accepted() {
    let mut b = Bench::new(&[5]);
    assert!(!b.stream.accepts(&StreamEvent::FrameRead));
    assert!(!b.stream.accepts(&StreamEvent::Announced));
    b.to_reading();
    assert!(!b.stream.accepts(&StreamEvent::FrameWritten));
    assert!(!b.stream.accepts(&StreamEvent::PlaybackUrl(String::new())));
}

#[test]
fn the_arguments_of_the_streams_fetcher() {
    let head = [
        "-f",
        "bestaudio[abr<=128]/bestaudio/best",
        "--no-playlist",
        "--socket-timeout",
        "8",
        "--retries",
        "2",
        "--fragment-retries",
        "2",
        "--no-part",
        "-o",
        "-",
        "u",
    ];
    let with = |tail: &[&str]| -> Vec<String> {
        head.iter().chain(tail.iter()).map(|s| s.to_string()).collect()
    };
    let mut settings = OutboundSettings::new();
    assert_eq!(fetcher_args("u", 1, &settings, None), with(&[]));
    assert_eq!(
        fetcher_args("u", 1, &settings, Some("::1")),
        with(&["--force-ipv6", "--source-address", "::1"])
    );
    init_proxy(&mut settings, "http://me:pw@host".to_string());
    init_yt_cookies(&mut settings, "/c".to_string());
    assert_eq!(
        fetcher_args("u", 0xab, &settings, Some("::1")),
        with(&[
            "--cookies",
            "/c",
            "--proxy",
            "http://me-session-000000000000000000000000000000ab-sessionduration-10:pw@host"
        ])
    );
}

#[test]
fn the_arguments_of_the_streams_converter() {
    assert_eq!(
        converter_args(),
        vec![
            "-loglevel",
            "error",
            "-hide_banner",
            "-fflags",
            "nobuffer",
            "-flags",
            "low_delay",
            "-analyzeduration",
            "0",
            "-probesize",
            "32768",
            "-re",
            "-i",
            "pipe:0",
            "-f",
            "s16le",
            "-ac",
            "2",
            "-ar",
            "48000",
            "pipe:1"
        ]
    );
}
