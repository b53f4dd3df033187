//! The playback task of a guild: it fetches each track, converts it to frames, sends them out
//! and moves on, until the queue is empty.
//!
//! The task is a state machine. The driver performs the action that a step asks for and hands
//! back how it went; which action comes next, and what becomes of the session, is decided here.
use vstd::prelude::*;
use dashmap::DashMap;
use crate::collections::{add_connected, connected_guilds, has_connected, new_connected};
use crate::command::{push_arg, push_route, route_args};
use crate::config::{proxy_url, OutboundSettings};
use crate::model::{GuildId, SessionView};
use crate::net::node::ConnectedGuilds;
use crate::state::{advanced, keyed, session_of, unassigned, AstralinkState};

verus! {

/// A frame of sound.
pub type Frame = Vec<u8>;

/// The samples per second and channel.
pub const SAMPLE_RATE: u64 = 48_000;

/// The channels.
pub const CHANNELS: u64 = 2;

/// The bytes of a sample.
pub const SAMPLE_BYTES: u64 = 2;

/// How long a frame sounds, in milliseconds.
pub const FRAME_MILLIS: u64 = 20;

/// The bytes of a frame.
pub const FRAME_BYTES: usize = 3840;

/// A frame holds as many samples as sound in its time.
pub proof fn law_frame_holds_its_time()
    ensures
        FRAME_BYTES * 1000 == SAMPLE_RATE * CHANNELS * SAMPLE_BYTES * FRAME_MILLIS,
{
}

/// How often a program is started, and a frame read again, before the track is given up.
pub const MAX_ATTEMPTS: u32 = 3;

/// How long to wait before looking again for a track to play, in milliseconds.
pub const IDLE_MILLIS: u64 = 200;

/// How long to wait before reading a frame again, in milliseconds.
pub const REREAD_MILLIS: u64 = 100;

/// The guilds that have a playback task.
#[derive(Debug)]
pub struct PlaybackRegistry {
    guilds: DashMap<GuildId, ()>,
}

impl PlaybackRegistry {
    /// The guilds that have a playback task.
    pub closed spec fn playing(&self) -> Set<GuildId> {
        connected_guilds(self.guilds)
    }

    /// No guild has a playback task.
    pub fn new() -> (r: Self)
        ensures
            r.playing() == Set::<GuildId>::empty(),
    {
        PlaybackRegistry { guilds: new_connected() }
    }

    /// Whether the guild has a playback task whose frames can be subscribed to.
    pub fn subscribe(&self, guild_id: GuildId) -> (r: bool)
        ensures
            r == self.playing().contains(guild_id),
    {
        has_connected(&self.guilds, guild_id)
    }

    /// Registers a playback task for the guild, unless it has one. The task is to be started
    /// if and only if the result is a task.
    pub fn ensure_guild_playback(&mut self, guild_id: GuildId) -> (r: Option<GuildPlayback>)
        ensures
            final(self).playing() == old(self).playing().insert(guild_id),
            old(self).playing().contains(guild_id) ==> r is None,
            !old(self).playing().contains(guild_id) ==> (r matches Some(task) && task.guild()
                == guild_id && task.at() == PlaybackPhase::Idle && task.link()
                == Seq::<char>::empty()),
    {
        if has_connected(&self.guilds, guild_id) {
            assert(self.playing() =~= self.playing().insert(guild_id));
            return None;
        }
        add_connected(&mut self.guilds, guild_id);
        Some(GuildPlayback::new(guild_id))
    }
}

/// Where a playback task stands.
#[derive(Debug, Clone, Copy, PartialEq, Eq, Structural)]
pub enum PlaybackPhase {
    /// It is about to look for a track to play.
    Idle,
    /// It has asked for the fetching program, for the given time.
    StartingFetcher { attempt: u32 },
    /// It has asked for the fetching program's output.
    TakingFetcherOutput,
    /// It has asked for the converting program, for the given time.
    StartingConverter { attempt: u32 },
    /// It has asked for the converting program's input.
    TakingConverterInput,
    /// It has asked for the converting program's output.
    TakingConverterOutput,
    /// It has asked for a frame.
    Reading,
    /// It has asked for a frame again after a failure, for the given time.
    Rereading { attempt: u32 },
    /// It waits before it asks for a frame again; the given attempt has failed.
    RereadPause { attempt: u32 },
    /// It waits for the task that pumps fetched data into the converting program.
    AwaitingPump,
    /// It waits for the converting program to exit.
    AwaitingConverter,
    /// It tells the clients what the session is now.
    Announcing { has_next: bool },
    /// It has ended.
    Ended,
}

/// How an action went.
#[derive(Debug, Clone, Copy, PartialEq, Eq, Structural)]
pub enum PlaybackEvent {
    /// The task goes on, after a pause or without one.
    Resume,
    /// The program was started.
    Started,
    /// The program could not be started.
    StartFailed,
    /// The input or output was there.
    PipeReady,
    /// The input or output was missing.
    PipeMissing,
    /// A frame was read.
    FrameRead,
    /// There are no more frames.
    EndOfStream,
    /// The frame could not be read.
    ReadFailed,
    /// The pump ended.
    PumpEnded,
    /// The pump panicked.
    PumpPanicked,
    /// The converting program exited.
    ConverterExited,
    /// The clients were told.
    Announced,
}

/// What the driver is to do next.
#[derive(Debug, Clone, Copy, PartialEq, Eq, Structural)]
pub enum PlaybackAction {
    /// Resume at once.
    Again,
    /// Resume after so many milliseconds.
    Sleep { millis: u64 },
    /// Start the fetching program, for the given time.
    StartFetcher { attempt: u32 },
    /// Take the fetching program's output.
    TakeFetcherOutput,
    /// Start the converting program, for the given time.
    StartConverter { attempt: u32 },
    /// Take the converting program's input.
    TakeConverterInput,
    /// Take the converting program's output.
    TakeConverterOutput,
    /// Start the pump, then read a frame.
    StartPump,
    /// Read a frame.
    ReadFrame,
    /// Send out the frame that was read, then read the next one.
    SendFrame,
    /// Wait for the pump.
    AwaitPump,
    /// Wait for the converting program.
    AwaitConverter,
    /// Tell the clients what the session is now.
    Announce,
    /// End the task.
    Stop,
}

/// What a step does to the sessions and the connected guilds.
pub enum PlaybackEffect {
    /// Nothing.
    Keep,
    /// The guild's session is looked at; a fresh one is recorded if there is none.
    Look,
    /// The session moves on to the next track.
    Advance,
    /// The session moves on, and the guild is released if nothing is left to play.
    Skip,
    /// The guild is released: it is no longer connected, and no node serves it.
    Release,
}

/// The event can come in the phase.
pub open spec fn expects(phase: PlaybackPhase, event: PlaybackEvent) -> bool {
    match phase {
        PlaybackPhase::Idle => event == PlaybackEvent::Resume,
        PlaybackPhase::StartingFetcher { attempt } => 1 <= attempt <= MAX_ATTEMPTS && (event
            == PlaybackEvent::Started || event == PlaybackEvent::StartFailed),
        PlaybackPhase::StartingConverter { attempt } => 1 <= attempt <= MAX_ATTEMPTS && (event
            == PlaybackEvent::Started || event == PlaybackEvent::StartFailed),
        PlaybackPhase::TakingFetcherOutput
        | PlaybackPhase::TakingConverterInput
        | PlaybackPhase::TakingConverterOutput => event == PlaybackEvent::PipeReady || event
            == PlaybackEvent::PipeMissing,
        PlaybackPhase::Reading => event == PlaybackEvent::FrameRead || event
            == PlaybackEvent::EndOfStream || event == PlaybackEvent::ReadFailed,
        PlaybackPhase::Rereading { attempt } => 1 <= attempt <= MAX_ATTEMPTS && (event
            == PlaybackEvent::FrameRead || event == PlaybackEvent::EndOfStream || event
            == PlaybackEvent::ReadFailed),
        PlaybackPhase::RereadPause { attempt } => 1 <= attempt <= MAX_ATTEMPTS && event
            == PlaybackEvent::Resume,
        PlaybackPhase::AwaitingPump => event == PlaybackEvent::PumpEnded || event
            == PlaybackEvent::PumpPanicked,
        PlaybackPhase::AwaitingConverter => event == PlaybackEvent::ConverterExited,
        PlaybackPhase::Announcing { .. } => event == PlaybackEvent::Announced,
        PlaybackPhase::Ended => false,
    }
}

/// What a step leads to.
pub struct PlaybackStep {
    pub phase: PlaybackPhase,
    pub action: PlaybackAction,
    pub effect: PlaybackEffect,
}

/// A step to a phase that asks for an action and leaves the sessions alone.
pub open spec fn quiet(phase: PlaybackPhase, action: PlaybackAction) -> PlaybackStep {
    PlaybackStep { phase, action, effect: PlaybackEffect::Keep }
}

/// The track is given up and the next one is looked for.
pub open spec fn give_up() -> PlaybackStep {
    PlaybackStep {
        phase: PlaybackPhase::Idle,
        action: PlaybackAction::Again,
        effect: PlaybackEffect::Skip,
    }
}

/// What follows an event in a phase. `playing` tells whether the guild has a current track, and
/// `has_next` whether it will have one when it moves on.
pub open spec fn playback_next(
    phase: PlaybackPhase,
    event: PlaybackEvent,
    playing: bool,
    has_next: bool,
) -> PlaybackStep {
    match (phase, event) {
        (PlaybackPhase::Idle, _) => PlaybackStep {
            effect: PlaybackEffect::Look,
            ..if playing {
                quiet(
                    PlaybackPhase::StartingFetcher { attempt: 1 },
                    PlaybackAction::StartFetcher { attempt: 1 },
                )
            } else {
                quiet(PlaybackPhase::Idle, PlaybackAction::Sleep { millis: IDLE_MILLIS })
            }
        },
        (PlaybackPhase::StartingFetcher { .. }, PlaybackEvent::Started) => quiet(
            PlaybackPhase::TakingFetcherOutput,
            PlaybackAction::TakeFetcherOutput,
        ),
        (PlaybackPhase::StartingFetcher { attempt }, _) => if attempt < MAX_ATTEMPTS {
            quiet(
                PlaybackPhase::StartingFetcher { attempt: (attempt + 1) as u32 },
                PlaybackAction::StartFetcher { attempt: (attempt + 1) as u32 },
            )
        } else {
            give_up()
        },
        (PlaybackPhase::TakingFetcherOutput, PlaybackEvent::PipeReady) => quiet(
            PlaybackPhase::StartingConverter { attempt: 1 },
            PlaybackAction::StartConverter { attempt: 1 },
        ),
        (PlaybackPhase::StartingConverter { .. }, PlaybackEvent::Started) => quiet(
            PlaybackPhase::TakingConverterInput,
            PlaybackAction::TakeConverterInput,
        ),
        (PlaybackPhase::StartingConverter { attempt }, _) => if attempt < MAX_ATTEMPTS {
            quiet(
                PlaybackPhase::StartingConverter { attempt: (attempt + 1) as u32 },
                PlaybackAction::StartConverter { attempt: (attempt + 1) as u32 },
            )
        } else {
            give_up()
        },
        (PlaybackPhase::TakingConverterInput, PlaybackEvent::PipeReady) => quiet(
            PlaybackPhase::TakingConverterOutput,
            PlaybackAction::TakeConverterOutput,
        ),
        (PlaybackPhase::TakingConverterOutput, PlaybackEvent::PipeReady) => quiet(
            PlaybackPhase::Reading,
            PlaybackAction::StartPump,
        ),
        (PlaybackPhase::Reading, PlaybackEvent::FrameRead)
        | (PlaybackPhase::Rereading { .. }, PlaybackEvent::FrameRead) => quiet(
            PlaybackPhase::Reading,
            PlaybackAction::SendFrame,
        ),
        (PlaybackPhase::Reading, PlaybackEvent::EndOfStream) => quiet(
            PlaybackPhase::AwaitingPump,
            PlaybackAction::AwaitPump,
        ),
        (PlaybackPhase::Reading, _) => quiet(
            PlaybackPhase::Rereading { attempt: 1 },
            PlaybackAction::ReadFrame,
        ),
        (PlaybackPhase::Rereading { .. }, PlaybackEvent::EndOfStream) => quiet(
            PlaybackPhase::Reading,
            PlaybackAction::ReadFrame,
        ),
        (PlaybackPhase::Rereading { attempt }, _) => quiet(
            PlaybackPhase::RereadPause { attempt },
            PlaybackAction::Sleep { millis: REREAD_MILLIS },
        ),
        (PlaybackPhase::RereadPause { attempt }, _) => if attempt < MAX_ATTEMPTS {
            quiet(
                PlaybackPhase::Rereading { attempt: (attempt + 1) as u32 },
                PlaybackAction::ReadFrame,
            )
        } else {
            PlaybackStep {
                effect: PlaybackEffect::Skip,
                ..quiet(PlaybackPhase::AwaitingPump, PlaybackAction::AwaitPump)
            }
        },
        (PlaybackPhase::AwaitingPump, PlaybackEvent::PumpEnded) => quiet(
            PlaybackPhase::AwaitingConverter,
            PlaybackAction::AwaitConverter,
        ),
        (PlaybackPhase::AwaitingPump, _) => if has_next {
            give_up()
        } else {
            PlaybackStep {
                effect: PlaybackEffect::Skip,
                ..quiet(PlaybackPhase::Ended, PlaybackAction::Stop)
            }
        },
        (PlaybackPhase::AwaitingConverter, _) => PlaybackStep {
            effect: PlaybackEffect::Advance,
            ..quiet(PlaybackPhase::Announcing { has_next }, PlaybackAction::Announce)
        },
        (PlaybackPhase::Announcing { has_next: more }, _) => if more {
            quiet(PlaybackPhase::Idle, PlaybackAction::Again)
        } else {
            PlaybackStep {
                effect: PlaybackEffect::Release,
                ..quiet(PlaybackPhase::Ended, PlaybackAction::Stop)
            }
        },
        _ => quiet(PlaybackPhase::Ended, PlaybackAction::Stop),
    }
}

/// The guild will have a current track when it moves on.
pub open spec fn has_next_track(sessions: Map<GuildId, SessionView>, guild_id: GuildId) -> bool {
    advanced(session_of(sessions, guild_id)).current is Some
}

/// The sessions after an effect.
pub open spec fn sessions_after(
    effect: PlaybackEffect,
    sessions: Map<GuildId, SessionView>,
    guild_id: GuildId,
) -> Map<GuildId, SessionView> {
    let session = session_of(sessions, guild_id);
    match effect {
        PlaybackEffect::Keep => sessions,
        PlaybackEffect::Look => sessions.insert(guild_id, session),
        PlaybackEffect::Advance => sessions.insert(guild_id, advanced(session)),
        PlaybackEffect::Skip => if has_next_track(sessions, guild_id) {
            sessions.insert(guild_id, advanced(session))
        } else {
            unassigned(sessions.insert(guild_id, advanced(session)), guild_id)
        },
        PlaybackEffect::Release => unassigned(sessions, guild_id),
    }
}

/// The connected guilds after an effect.
pub open spec fn connected_after(
    effect: PlaybackEffect,
    connected: Set<GuildId>,
    sessions: Map<GuildId, SessionView>,
    guild_id: GuildId,
) -> Set<GuildId> {
    match effect {
        PlaybackEffect::Skip => if has_next_track(sessions, guild_id) {
            connected
        } else {
            connected.remove(guild_id)
        },
        PlaybackEffect::Release => connected.remove(guild_id),
        _ => connected,
    }
}

/// The playback task of a guild.
#[derive(Debug)]
pub struct GuildPlayback {
    guild_id: GuildId,
    phase: PlaybackPhase,
    url: String,
}

/// Releases the guild: it is no longer connected, and no node serves it.
fn release(state: &mut AstralinkState, connected: &mut ConnectedGuilds, guild_id: GuildId)
    ensures
        final(state).sessions() == unassigned(old(state).sessions(), guild_id),
        final(state).own_id() == old(state).own_id(),
        final(connected).ids() == old(connected).ids().remove(guild_id),
{
    connected.remove(guild_id);
    state.unassign_node(guild_id);
}

/// Moves the guild on, releases it if nothing is left to play, and tells whether something is.
fn skip_track(
    state: &mut AstralinkState,
    connected: &mut ConnectedGuilds,
    guild_id: GuildId,
) -> (r: bool)
    ensures
        r == has_next_track(old(state).sessions(), guild_id),
        final(state).sessions() == sessions_after(
            PlaybackEffect::Skip,
            old(state).sessions(),
            guild_id,
        ),
        final(state).own_id() == old(state).own_id(),
        final(connected).ids() == connected_after(
            PlaybackEffect::Skip,
            old(connected).ids(),
            old(state).sessions(),
            guild_id,
        ),
{
    let next = state.advance_after_track_end(guild_id);
    if next.is_none() {
        release(state, connected, guild_id);
        return false;
    }
    true
}

impl GuildPlayback {
    /// The guild that the task plays for.
    pub closed spec fn guild(&self) -> GuildId {
        self.guild_id
    }

    /// Where the task stands.
    pub closed spec fn at(&self) -> PlaybackPhase {
        self.phase
    }

    /// The link of the track that the task plays.
    pub closed spec fn link(&self) -> Seq<char> {
        self.url@
    }

    /// A task that has not begun.
    pub fn new(guild_id: GuildId) -> (r: Self)
        ensures
            r.guild() == guild_id,
            r.at() == PlaybackPhase::Idle,
            r.link() == Seq::<char>::empty(),
    {
        GuildPlayback { guild_id, phase: PlaybackPhase::Idle, url: String::new() }
    }

    /// Whether the event can come now.
    pub fn accepts(&self, event: PlaybackEvent) -> (r: bool)
        ensures
            r == expects(self.at(), event),
    {
        match self.phase {
            PlaybackPhase::Idle => event == PlaybackEvent::Resume,
            PlaybackPhase::StartingFetcher { attempt }
            | PlaybackPhase::StartingConverter { attempt } => 1 <= attempt && attempt
                <= MAX_ATTEMPTS && (event == PlaybackEvent::Started || event
                == PlaybackEvent::StartFailed),
            PlaybackPhase::TakingFetcherOutput
            | PlaybackPhase::TakingConverterInput
            | PlaybackPhase::TakingConverterOutput => event == PlaybackEvent::PipeReady || event
                == PlaybackEvent::PipeMissing,
            PlaybackPhase::Reading => event == PlaybackEvent::FrameRead || event
                == PlaybackEvent::EndOfStream || event == PlaybackEvent::ReadFailed,
            PlaybackPhase::Rereading { attempt } => 1 <= attempt && attempt <= MAX_ATTEMPTS && (
            event == PlaybackEvent::FrameRead || event == PlaybackEvent::EndOfStream || event
                == PlaybackEvent::ReadFailed),
            PlaybackPhase::RereadPause { attempt } => 1 <= attempt && attempt <= MAX_ATTEMPTS
                && event == PlaybackEvent::Resume,
            PlaybackPhase::AwaitingPump => event == PlaybackEvent::PumpEnded || event
                == PlaybackEvent::PumpPanicked,
            PlaybackPhase::AwaitingConverter => event == PlaybackEvent::ConverterExited,
            PlaybackPhase::Announcing { .. } => event == PlaybackEvent::Announced,
            PlaybackPhase::Ended => false,
        }
    }

    /// The task has ended.
    pub fn has_ended(&self) -> (r: bool)
        ensures
            r == (self.at() == PlaybackPhase::Ended),
    {
        self.phase == PlaybackPhase::Ended
    }

    /// The link of the track that the task plays.
    pub fn url(&self) -> (r: &str)
        ensures
            r@ == self.link(),
    {
        self.url.as_str()
    }

    /// Takes in how the last action went and tells which comes next.
    pub fn step(
        &mut self,
        event: PlaybackEvent,
        state: &mut AstralinkState,
        connected: &mut ConnectedGuilds,
    ) -> (action: PlaybackAction)
        requires
            expects(old(self).at(), event),
        ensures
            ({
                let sessions = old(state).sessions();
                let guild_id = old(self).guild();
                let current = session_of(sessions, guild_id).current;
                let next = playback_next(
                    old(self).at(),
                    event,
                    current is Some,
                    has_next_track(sessions, guild_id),
                );
                &&& action == next.action
                &&& final(self).at() == next.phase
                &&& final(self).link() == (match (old(self).at(), current) {
                    (PlaybackPhase::Idle, Some(track)) => track.url,
                    _ => old(self).link(),
                })
                &&& final(state).sessions() == sessions_after(next.effect, sessions, guild_id)
                &&& final(connected).ids() == connected_after(
                    next.effect,
                    old(connected).ids(),
                    sessions,
                    guild_id,
                )
            }),
            final(self).guild() == old(self).guild(),
            final(state).own_id() == old(state).own_id(),
            keyed(old(state).sessions()) ==> keyed(final(state).sessions()),
    {
        let guild_id: GuildId = self.guild_id;
        let (phase, action) = match self.phase {
            PlaybackPhase::Idle => match state.current_for(guild_id) {
                Some(track) => {
                    self.url = track.url;
                    (
                        PlaybackPhase::StartingFetcher { attempt: 1 },
                        PlaybackAction::StartFetcher { attempt: 1 },
                    )
                },
                None => (PlaybackPhase::Idle, PlaybackAction::Sleep { millis: IDLE_MILLIS }),
            },
            PlaybackPhase::StartingFetcher { attempt } => if event == PlaybackEvent::Started {
                (PlaybackPhase::TakingFetcherOutput, PlaybackAction::TakeFetcherOutput)
            } else if attempt < MAX_ATTEMPTS {
                (
                    PlaybackPhase::StartingFetcher { attempt: attempt + 1 },
                    PlaybackAction::StartFetcher { attempt: attempt + 1 },
                )
            } else {
                skip_track(state, connected, guild_id);
                (PlaybackPhase::Idle, PlaybackAction::Again)
            },
            PlaybackPhase::TakingFetcherOutput => if event == PlaybackEvent::PipeReady {
                (
                    PlaybackPhase::StartingConverter { attempt: 1 },
                    PlaybackAction::StartConverter { attempt: 1 },
                )
            } else {
                (PlaybackPhase::Ended, PlaybackAction::Stop)
            },
            PlaybackPhase::StartingConverter { attempt } => if event == PlaybackEvent::Started {
                (PlaybackPhase::TakingConverterInput, PlaybackAction::TakeConverterInput)
            } else if attempt < MAX_ATTEMPTS {
                (
                    PlaybackPhase::StartingConverter { attempt: attempt + 1 },
                    PlaybackAction::StartConverter { attempt: attempt + 1 },
                )
            } else {
                skip_track(state, connected, guild_id);
                (PlaybackPhase::Idle, PlaybackAction::Again)
            },
            PlaybackPhase::TakingConverterInput => if event == PlaybackEvent::PipeReady {
                (PlaybackPhase::TakingConverterOutput, PlaybackAction::TakeConverterOutput)
            } else {
                (PlaybackPhase::Ended, PlaybackAction::Stop)
            },
            PlaybackPhase::TakingConverterOutput => if event == PlaybackEvent::PipeReady {
                (PlaybackPhase::Reading, PlaybackAction::StartPump)
            } else {
                (PlaybackPhase::Ended, PlaybackAction::Stop)
            },
            PlaybackPhase::Reading => match event {
                PlaybackEvent::FrameRead => (PlaybackPhase::Reading, PlaybackAction::SendFrame),
                PlaybackEvent::EndOfStream => (
                    PlaybackPhase::AwaitingPump,
                    PlaybackAction::AwaitPump,
                ),
                _ => (PlaybackPhase::Rereading { attempt: 1 }, PlaybackAction::ReadFrame),
            },
            PlaybackPhase::Rereading { attempt } => match event {
                PlaybackEvent::FrameRead => (PlaybackPhase::Reading, PlaybackAction::SendFrame),
                PlaybackEvent::EndOfStream => (PlaybackPhase::Reading, PlaybackAction::ReadFrame),
                _ => (
                    PlaybackPhase::RereadPause { attempt },
                    PlaybackAction::Sleep { millis: REREAD_MILLIS },
                ),
            },
            PlaybackPhase::RereadPause { attempt } => if attempt < MAX_ATTEMPTS {
                (PlaybackPhase::Rereading { attempt: attempt + 1 }, PlaybackAction::ReadFrame)
            } else {
                skip_track(state, connected, guild_id);
                (PlaybackPhase::AwaitingPump, PlaybackAction::AwaitPump)
            },
            PlaybackPhase::AwaitingPump => if event == PlaybackEvent::PumpEnded {
                (PlaybackPhase::AwaitingConverter, PlaybackAction::AwaitConverter)
            } else if skip_track(state, connected, guild_id) {
                (PlaybackPhase::Idle, PlaybackAction::Again)
            } else {
                (PlaybackPhase::Ended, PlaybackAction::Stop)
            },
            PlaybackPhase::AwaitingConverter => {
                let next = state.advance_after_track_end(guild_id);
                (
                    PlaybackPhase::Announcing { has_next: next.is_some() },
                    PlaybackAction::Announce,
                )
            },
            PlaybackPhase::Announcing { has_next } => if has_next {
                (PlaybackPhase::Idle, PlaybackAction::Again)
            } else {
                release(state, connected, guild_id);
                (PlaybackPhase::Ended, PlaybackAction::Stop)
            },
            PlaybackPhase::Ended => (PlaybackPhase::Ended, PlaybackAction::Stop),
        };
        self.phase = phase;
        action
    }
}

/// The arguments by which an attempt to fetch goes out: by the proxy, else from the source
/// address, else, before the last attempt, by one of the listed proxies in turn.
pub open spec fn attempt_route(
    attempt: u32,
    proxy: Option<Seq<char>>,
    source_addr: Option<Seq<char>>,
    proxies: Seq<Seq<char>>,
) -> Seq<Seq<char>> {
    if proxy is None && source_addr is None && proxies.len() > 0 && attempt < MAX_ATTEMPTS {
        seq!["--proxy"@, proxies[(attempt - 1) % (proxies.len() as int)]]
    } else {
        route_args(proxy, source_addr)
    }
}

/// The arguments of the fetching program.
pub fn fetcher_args(
    url: &str,
    attempt: u32,
    settings: &OutboundSettings,
    source_addr: Option<&str>,
    proxies: &Vec<String>,
) -> (r: Vec<String>)
    requires
        1 <= attempt <= MAX_ATTEMPTS,
    ensures
        r.deep_view() == seq!["--no-playlist"@, "-f"@, "bestaudio"@, "-o"@, "-"@, url@]
            + attempt_route(
            attempt,
            settings.proxy(),
            source_addr.deep_view(),
            proxies.deep_view(),
        ),
{
    let mut args: Vec<String> = Vec::new();
    push_arg(&mut args, "--no-playlist");
    push_arg(&mut args, "-f");
    push_arg(&mut args, "bestaudio");
    push_arg(&mut args, "-o");
    push_arg(&mut args, "-");
    push_arg(&mut args, url);
    let proxy = proxy_url(settings);
    let ghost head = seq!["--no-playlist"@, "-f"@, "bestaudio"@, "-o"@, "-"@, url@];
    assert(args.deep_view() =~= head);
    if proxy.is_none() && source_addr.is_none() && proxies.len() > 0 && attempt < MAX_ATTEMPTS {
        let turn: usize = (attempt - 1) as usize % proxies.len();
        push_arg(&mut args, "--proxy");
        push_arg(&mut args, &proxies[turn]);
        assert(proxies.deep_view()[turn as int] == proxies@[turn as int]@);
        assert(args.deep_view() =~= head + seq!["--proxy"@, proxies.deep_view()[turn as int]]);
    } else {
        push_route(&mut args, proxy, source_addr);
    }
    args
}

/// The arguments of the converting program: it reads what was fetched at the pace at which it
/// sounds and writes raw samples.
pub open spec fn converter_arguments() -> Seq<Seq<char>> {
    seq![
        "-re"@,
        "-i"@,
        "pipe:0"@,
        "-f"@,
        "s16le"@,
        "-ac"@,
        "2"@,
        "-ar"@,
        "48000"@,
        "pipe:1"@,
    ]
}

/// Adds the arguments by which the converting program reads and writes.
pub(crate) fn push_converter_args(args: &mut Vec<String>)
    ensures
        final(args).deep_view() == old(args).deep_view() + converter_arguments(),
{
    let ghost before = args.deep_view();
    push_arg(args, "-re");
    push_arg(args, "-i");
    push_arg(args, "pipe:0");
    push_arg(args, "-f");
    push_arg(args, "s16le");
    push_arg(args, "-ac");
    push_arg(args, "2");
    push_arg(args, "-ar");
    push_arg(args, "48000");
    push_arg(args, "pipe:1");
    assert(args.deep_view() =~= before + converter_arguments());
}

/// The arguments of the converting program.
pub fn converter_args() -> (r: Vec<String>)
    ensures
        r.deep_view() == converter_arguments(),
{
    let mut args: Vec<String> = Vec::new();
    push_converter_args(&mut args);
    assert(args.deep_view() =~= converter_arguments());
    args
}

/// A program that never starts is tried three times; the track is then given up, and the task
/// looks for the next one.
pub proof fn law_three_failed_starts_give_up(phase: PlaybackPhase, playing: bool, has_next: bool)
    requires
        phase == (PlaybackPhase::StartingFetcher { attempt: 1 }) || phase == (
        PlaybackPhase::StartingConverter { attempt: 1 }),
    ensures
        ({
            let failed = PlaybackEvent::StartFailed;
            let second = playback_next(phase, failed, playing, has_next);
            let third = playback_next(second.phase, failed, playing, has_next);
            let last = playback_next(third.phase, failed, playing, has_next);
            &&& second.effect is Keep && third.effect is Keep
            &&& last.effect is Skip && last.phase == PlaybackPhase::Idle && last.action
                == PlaybackAction::Again
        }),
{
}

/// A frame that cannot be read is read again three times; the track is then given up.
pub proof fn law_failed_reads_give_up(playing: bool, has_next: bool)
    ensures
        ({
            let failed = PlaybackEvent::ReadFailed;
            let resume = PlaybackEvent::Resume;
            let p1 = playback_next(PlaybackPhase::Reading, failed, playing, has_next).phase;
            let p2 = playback_next(p1, failed, playing, has_next).phase;
            let p3 = playback_next(p2, resume, playing, has_next).phase;
            let p4 = playback_next(p3, failed, playing, has_next).phase;
            let p5 = playback_next(p4, resume, playing, has_next).phase;
            let p6 = playback_next(p5, failed, playing, has_next).phase;
            let last = playback_next(p6, resume, playing, has_next);
            last.effect is Skip && last.phase == PlaybackPhase::AwaitingPump
        }),
{
}

/// Whatever comes, the phase that a step leads to is one that some event is expected in, unless
/// the task has ended; it then asks to be stopped.
pub proof fn law_playback_goes_on(
    phase: PlaybackPhase,
    event: PlaybackEvent,
    playing: bool,
    has_next: bool,
)
    requires
        expects(phase, event),
    ensures
        ({
            let next = playback_next(phase, event, playing, has_next);
            &&& next.phase == PlaybackPhase::Ended <==> next.action == PlaybackAction::Stop
            &&& next.phase != PlaybackPhase::Ended ==> exists|e: PlaybackEvent| #[trigger]
                expects(next.phase, e)
        }),
{
    let next = playback_next(phase, event, playing, has_next);
    assert(next.phase != PlaybackPhase::Ended ==> {
        ||| expects(next.phase, PlaybackEvent::Resume)
        ||| expects(next.phase, PlaybackEvent::Started)
        ||| expects(next.phase, PlaybackEvent::PipeReady)
        ||| expects(next.phase, PlaybackEvent::FrameRead)
        ||| expects(next.phase, PlaybackEvent::PumpEnded)
        ||| expects(next.phase, PlaybackEvent::ConverterExited)
        ||| expects(next.phase, PlaybackEvent::Announced)
    });
}

/// A step forgets the node of its guild, or disconnects the guild, only when nothing of it is
/// left to play.
pub proof fn law_released_only_when_nothing_plays(
    effect: PlaybackEffect,
    sessions: Map<GuildId, SessionView>,
    connected: Set<GuildId>,
    guild_id: GuildId,
)
    requires
        effect is Release ==> session_of(sessions, guild_id).current is None,
    ensures
        session_of(sessions_after(effect, sessions, guild_id), guild_id).node != session_of(
            sessions,
            guild_id,
        ).node ==> session_of(sessions_after(effect, sessions, guild_id), guild_id).current is None,
        connected.contains(guild_id) && !connected_after(
            effect,
            connected,
            sessions,
            guild_id,
        ).contains(guild_id) ==> session_of(
            sessions_after(effect, sessions, guild_id),
            guild_id,
        ).current is None,
{
}

/// Whatever becomes of a guild's playback, no other guild's session changes, and no other guild
/// is connected or released.
pub proof fn law_playback_touches_one_guild(
    effect: PlaybackEffect,
    sessions: Map<GuildId, SessionView>,
    connected: Set<GuildId>,
    guild_id: GuildId,
    other: GuildId,
)
    requires
        other != guild_id,
    ensures
        session_of(sessions_after(effect, sessions, guild_id), other) == session_of(
            sessions,
            other,
        ),
        connected_after(effect, connected, sessions, guild_id).contains(other)
            == connected.contains(other),
{
}

} // verus!
