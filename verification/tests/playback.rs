use astralink::audio::playback::{
    converter_args, fetcher_args, GuildPlayback, PlaybackAction, PlaybackEvent, PlaybackRegistry,
    CHANNELS, FRAME_BYTES, FRAME_MILLIS, SAMPLE_BYTES, SAMPLE_RATE,
};
use astralink::config::{init_proxy, OutboundSettings};
use astralink::model::{NodeInfo, QueueItem, Track, TrackSource};
use astralink::net::node::{connected_guilds_count, ConnectedGuilds};
use astralink::state::AstralinkState;

const GUILD: u64 = 4;

struct Bench {
    task: GuildPlayback,
    state: AstralinkState,
    connected: ConnectedGuilds,
}

impl Bench {
    fn new(titles: &[&str]) -> Bench {
        let mut state = AstralinkState::new("me".to_string());
        let items: Vec<QueueItem> = titles
            .iter()
            .enumerate()
            .map(|(i, t)| QueueItem {
                track: Track {
                    id: i as u128,
                    title: t.to_string(),
                    url: format!("url-{t}"),
                    thumbnail: None,
                    duration_ms: None,
                    source: TrackSource::Youtube,
                    original_url: None,
                    artist: None,
                },
                requested_by: 1,
            })
            .collect();
        state.enqueue(GUILD, items, None);
        state.assign_node(
            GUILD,
            NodeInfo {
                id: "me".to_string(),
                host: String::new(),
                http_port: 0,
                audio_port: 0,
                available_slots: 1,
                total_slots: 1,
            },
        );
        let mut connected = ConnectedGuilds::new();
        connected.insert(GUILD);
        Bench { task: GuildPlayback::new(GUILD), state, connected }
    }

    fn step(&mut self, event: PlaybackEvent) -> PlaybackAction {
        assert!(self.task.accepts(event));
        self.task.step(event, &mut self.state, &mut self.connected)
    }

    fn run(&mut self, events: &[PlaybackEvent]) -> PlaybackAction {
        let mut last = PlaybackAction::Again;
        for e in events {
            last = self.step(*e);
        }
        last
    }

    fn to_reading(&mut self) {
        let last = self.run(&[
            PlaybackEvent::Resume,
            PlaybackEvent::Started,
            PlaybackEvent::PipeReady,
            PlaybackEvent::Started,
            PlaybackEvent::PipeReady,
            PlaybackEvent::PipeReady,
        ]);
        assert_eq!(last, PlaybackAction::StartPump);
    }

    fn released(&mut self) -> bool {
        connected_guilds_count(&self.connected) == 0 && self.state.get_or_init(GUILD).node.is_none()
    }
}

#[test]
fn a_frame_holds_twenty_milliseconds() {
    assert_eq!(
        FRAME_BYTES as u64 * 1000,
        SAMPLE_RATE * CHANNELS * SAMPLE_BYTES * FRAME_MILLIS
    );
}

#[test]
fn a_guild_has_one_playback_task() {
    let mut registry = PlaybackRegistry::new();
    assert!(!registry.subscribe(1));
    assert!(registry.ensure_guild_playback(1).is_some());
    assert!(registry.subscribe(1));
    assert!(registry.ensure_guild_playback(1).is_none());
    assert!(registry.ensure_guild_playback(2).is_some());
}

#[test]
fn an_idle_task_waits() {
    let mut b = Bench::new(&[]);
    assert_eq!(b.step(PlaybackEvent::Resume), PlaybackAction::Sleep { millis: 200 });
    assert_eq!(b.step(PlaybackEvent::Resume), PlaybackAction::Sleep { millis: 200 });
}

#[test]
fn a_track_plays_to_its_end() {
    let mut b = Bench::new(&["a", "b"]);
    assert_eq!(b.step(PlaybackEvent::Resume), PlaybackAction::StartFetcher { attempt: 1 });
    assert_eq!(b.task.url(), "url-a");
    assert_eq!(b.step(PlaybackEvent::Started), PlaybackAction::TakeFetcherOutput);
    assert_eq!(b.step(PlaybackEvent::PipeReady), PlaybackAction::StartConverter { attempt: 1 });
    assert_eq!(b.step(PlaybackEvent::Started), PlaybackAction::TakeConverterInput);
    assert_eq!(b.step(PlaybackEvent::PipeReady), PlaybackAction::TakeConverterOutput);
    assert_eq!(b.step(PlaybackEvent::PipeReady), PlaybackAction::StartPump);
    assert_eq!(b.step(PlaybackEvent::FrameRead), PlaybackAction::SendFrame);
    assert_eq!(b.step(PlaybackEvent::FrameRead), PlaybackAction::SendFrame);
    assert_eq!(b.step(PlaybackEvent::EndOfStream), PlaybackAction::AwaitPump);
    assert_eq!(b.step(PlaybackEvent::PumpEnded), PlaybackAction::AwaitConverter);
    assert_eq!(b.step(PlaybackEvent::ConverterExited), PlaybackAction::Announce);
    assert_eq!(b.state.current_for(GUILD).map(|t| t.title), Some("b".to_string()));
    assert_eq!(b.step(PlaybackEvent::Announced), PlaybackAction::Again);
    assert!(!b.released());
    assert_eq!(b.step(PlaybackEvent::Resume), PlaybackAction::StartFetcher { attempt: 1 });
    assert_eq!(b.task.url(), "url-b");
}

#[test]
fn the_last_track_ends_the_task() {
    let mut b = Bench::new(&["a"]);
    b.to_reading();
    b.run(&[
        PlaybackEvent::EndOfStream,
        PlaybackEvent::PumpEnded,
        PlaybackEvent::ConverterExited,
    ]);
    assert!(!b.released());
    assert_eq!(b.step(PlaybackEvent::Announced), PlaybackAction::Stop);
    assert!(b.task.has_ended());
    assert!(b.released());
    assert!(!b.task.accepts(PlaybackEvent::Resume));
}

#[test]
fn three_failed_starts_give_the_track_up() {
    let mut b = Bench::new(&["a", "b"]);
    b.step(PlaybackEvent::Resume);
    assert_eq!(b.step(PlaybackEvent::StartFailed), PlaybackAction::StartFetcher { attempt: 2 });
    assert_eq!(b.step(PlaybackEvent::StartFailed), PlaybackAction::StartFetcher { attempt: 3 });
    assert_eq!(b.step(PlaybackEvent::StartFailed), PlaybackAction::Again);
    assert_eq!(b.state.current_for(GUILD).map(|t| t.title), Some("b".to_string()));
    b.run(&[PlaybackEvent::Resume, PlaybackEvent::Started, PlaybackEvent::PipeReady]);
    assert_eq!(b.step(PlaybackEvent::StartFailed), PlaybackAction::StartConverter { attempt: 2 });
    assert_eq!(b.step(PlaybackEvent::StartFailed), PlaybackAction::StartConverter { attempt: 3 });
    assert_eq!(b.step(PlaybackEvent::StartFailed), PlaybackAction::Again);
    assert!(b.state.current_for(GUILD).is_none());
    assert!(b.released());
    assert!(!b.task.has_ended());
}

#[test]
fn a_missing_pipe_ends_the_task() {
    let mut b = Bench::new(&["a"]);
    b.run(&[PlaybackEvent::Resume, PlaybackEvent::Started]);
    assert_eq!(b.step(PlaybackEvent::PipeMissing), PlaybackAction::Stop);
    assert!(b.task.has_ended());
    assert!(!b.released());
}

#[test]
fn failed_reads_are_tried_again() {
    let mut b = Bench::new(&["a", "b"]);
    b.to_reading();
    assert_eq!(b.step(PlaybackEvent::ReadFailed), PlaybackAction::ReadFrame);
    assert_eq!(b.step(PlaybackEvent::ReadFailed), PlaybackAction::Sleep { millis: 100 });
    assert_eq!(b.step(PlaybackEvent::Resume), PlaybackAction::ReadFrame);
    assert_eq!(b.step(PlaybackEvent::FrameRead), PlaybackAction::SendFrame);
    assert_eq!(b.step(PlaybackEvent::ReadFailed), PlaybackAction::ReadFrame);
    assert_eq!(b.step(PlaybackEvent::EndOfStream), PlaybackAction::ReadFrame);
    assert_eq!(b.step(PlaybackEvent::EndOfStream), PlaybackAction::AwaitPump);
    assert_eq!(b.state.current_for(GUILD).map(|t| t.title), Some("a".to_string()));
}

#[test]
fn four_failed_reads_give_the_track_up() {
    let mut b = Bench::new(&["a", "b", "c"]);
    b.to_reading();
    b.step(PlaybackEvent::ReadFailed);
    for _ in 0..2 {
        assert_eq!(b.step(PlaybackEvent::ReadFailed), PlaybackAction::Sleep { millis: 100 });
        assert_eq!(b.step(PlaybackEvent::Resume), PlaybackAction::ReadFrame);
    }
    assert_eq!(b.step(PlaybackEvent::ReadFailed), PlaybackAction::Sleep { millis: 100 });
    assert_eq!(b.step(PlaybackEvent::Resume), PlaybackAction::AwaitPump);
    assert_eq!(b.state.current_for(GUILD).map(|t| t.title), Some("b".to_string()));
    b.run(&[PlaybackEvent::PumpEnded, PlaybackEvent::ConverterExited]);
    assert_eq!(b.state.current_for(GUILD).map(|t| t.title), Some("c".to_string()));
}

#[test]
fn a_panicked_pump_gives_the_track_up() {
    let mut b = Bench::new(&["a", "b"]);
    b.to_reading();
    b.step(PlaybackEvent::EndOfStream);
    assert_eq!(b.step(PlaybackEvent::PumpPanicked), PlaybackAction::Again);
    assert_eq!(b.state.current_for(GUILD).map(|t| t.title), Some("b".to_string()));
    b.to_reading();
    b.step(PlaybackEvent::EndOfStream);
    assert_eq!(b.step(PlaybackEvent::PumpPanicked), PlaybackAction::Stop);
    assert!(b.released());
}

#[test]
fn playback_leaves_other_guilds_alone() {
    let mut b = Bench::new(&["a"]);
    b.connected.insert(99);
    b.state.increment_position_ms(99, 7);
    b.to_reading();
    b.run(&[
        PlaybackEvent::EndOfStream,
        PlaybackEvent::PumpEnded,
        PlaybackEvent::ConverterExited,
        PlaybackEvent::Announced,
    ]);
    assert_eq!(connected_guilds_count(&b.connected), 1);
    assert_eq!(b.state.as_response(99).position_ms, 7);
    assert!(!b.state.as_response(99).is_finished);
}

#[test]
fn the_arguments_of_the_fetcher() {
    let head = ["--no-playlist", "-f", "bestaudio", "-o", "-", "u"];
    let with = |tail: &[&str]| -> Vec<String> {
        head.iter().chain(tail.iter()).map(|s| s.to_string()).collect()
    };
    let mut settings = OutboundSettings::new();
    let proxies = vec!["p0".to_string()];
    let two = vec!["p0".to_string(), "p1".to_string()];
    assert_eq!(fetcher_args("u", 1, &settings, None, &Vec::new()), with(&[]));
    assert_eq!(fetcher_args("u", 1, &settings, None, &two), with(&["--proxy", "p0"]));
    assert_eq!(fetcher_args("u", 2, &settings, None, &two), with(&["--proxy", "p1"]));
    assert_eq!(fetcher_args("u", 2, &settings, None, &proxies), with(&["--proxy", "p0"]));
    assert_eq!(fetcher_args("u", 3, &settings, None, &two), with(&[]));
    assert_eq!(
        fetcher_args("u", 1, &settings, Some("::1"), &two),
        with(&["--force-ipv6", "--source-address", "::1"])
    );
    init_proxy(&mut settings, "main".to_string());
    assert_eq!(fetcher_args("u", 1, &settings, Some("::1"), &two), with(&["--proxy", "main"]));
}

#[test]
fn the_arguments_of_the_converter() {
    assert_eq!(
        converter_args(),
        vec!["-re", "-i", "pipe:0", "-f", "s16le", "-ac", "2", "-ar", "48000", "pipe:1"]
    );
}
