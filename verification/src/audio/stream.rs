//! The audio connection of a client: the handshake, and the stream of frames that follows the
//! guild's current track.
//!
//! The stream is a state machine. The driver performs the action that a step asks for and hands
//! back how it went; which action comes next, and what becomes of the session, is decided here.
use vstd::prelude::*;
use crate::audio::playback::{converter_arguments, push_converter_args, FRAME_MILLIS};
use crate::command::{cookie_args, push_arg, push_cookies, push_route, route_args};
use crate::config::{sticky_proxy, sticky_proxy_url, yt_cookies_file, OutboundSettings};
use crate::model::{GuildId, SessionView, TrackView};
use crate::state::{advanced, keyed, moved_on, session_of, AstralinkState};
use crate::text::same;
use crate::track_id::{hex_digits, session_name};

verus! {

/// How long a client has for its handshake, in seconds.
pub const HANDSHAKE_TIMEOUT_SECS: u64 = 3;

/// What a client sends first.
#[derive(Debug)]
pub struct AudioHandshake {
    pub token: String,
    pub guild_id: GuildId,
}

/// What a handshake leads to.
#[derive(Debug, Clone, Copy, PartialEq, Eq, Structural)]
pub enum Admission {
    /// The connection is closed: nothing was sent, or the token is wrong.
    Close,
    /// The connection fails: what was sent is no handshake.
    Malformed,
    /// The client hears the guild.
    Admit { guild_id: GuildId },
}

/// What the handshake leads to. `bytes` is the length of the line that the client sent, and
/// `handshake` what it holds, `None` where it holds no handshake.
pub fn check_handshake(
    bytes: usize,
    handshake: Option<AudioHandshake>,
    token: &str,
) -> (r: Admission)
    ensures
        r == (if bytes == 0 {
            Admission::Close
        } else {
            match handshake {
                None => Admission::Malformed,
                Some(h) => if h.token@ == token@ {
                    Admission::Admit { guild_id: h.guild_id }
                } else {
                    Admission::Close
                },
            }
        }),
{
    if bytes == 0 {
        return Admission::Close;
    }
    match handshake {
        None => Admission::Malformed,
        Some(h) => if same(&h.token, token) {
            Admission::Admit { guild_id: h.guild_id }
        } else {
            Admission::Close
        },
    }
}

/// How long to wait before looking again for a track, in milliseconds.
pub const WAIT_STEP_MILLIS: u64 = 100;

/// How long to wait for a track before the connection is closed, in milliseconds.
pub const WAIT_LIMIT_MILLIS: u64 = 30_000;

/// Where a stream stands.
#[derive(Debug, Clone, Copy, PartialEq, Eq, Structural)]
pub enum StreamPhase {
    /// It is about to look for a track, having waited for so many milliseconds.
    Waiting { waited_ms: u64 },
    /// It has asked for the link to fetch the track from.
    Resolving,
    /// It has asked for the fetching and the converting program.
    Starting,
    /// It has asked for a frame.
    Reading,
    /// It has asked for the frame to be written to the client.
    Writing,
    /// It waits for the programs to exit; `natural` if the track came to its end.
    Draining { natural: bool },
    /// It tells the clients what the session is now.
    Announcing,
    /// It is over.
    Closed,
}

/// How an action went.
#[derive(Debug)]
pub enum StreamEvent {
    /// The stream goes on, after a pause or without one.
    Resume,
    /// The link to fetch the track from.
    PlaybackUrl(String),
    /// There is no special link; the track's own is used.
    PlaybackUrlFailed,
    /// The programs were started.
    ProgramsStarted,
    /// A frame was read.
    FrameRead,
    /// There are no more frames.
    EndOfStream,
    /// The frame was written to the client.
    FrameWritten,
    /// The programs exited.
    ProgramsEnded,
    /// The clients were told.
    Announced,
    /// The action failed in a way that ends the connection.
    Failed,
}

/// What the driver is to do next.
#[derive(Debug, Clone, Copy, PartialEq, Eq, Structural)]
pub enum StreamAction {
    /// Resume at once.
    Again,
    /// Resume after so many milliseconds.
    Sleep { millis: u64 },
    /// Find the link to fetch the track from.
    ResolvePlaybackUrl,
    /// Start the programs.
    StartPrograms,
    /// Read a frame.
    ReadFrame,
    /// Write the frame to the client.
    WriteFrame,
    /// Kill the programs and wait for them to exit.
    KillPrograms,
    /// Wait for the programs to exit.
    AwaitPrograms,
    /// From now on use the track's own link, then resume.
    BypassPlaybackUrl,
    /// Tell the clients what the session is now and resolve the next tracks ahead.
    Announce,
    /// Close the connection.
    Close,
}

/// What a stream knows, over sequences.
#[verifier::ext_equal]
pub struct StreamView {
    pub phase: StreamPhase,
    pub track_id: u128,
    pub track_url: Seq<char>,
    pub playback_url: Seq<char>,
    pub frames: u64,
}

/// What a step does to the guild's session.
pub enum StreamEffect {
    /// Nothing.
    Keep,
    /// The session is looked at; a fresh one is recorded if there is none.
    Look,
    /// The playing position moves on by a frame.
    Move,
    /// The session moves on to the next track.
    Advance,
}

/// What a step leads to.
pub struct StreamStep {
    pub stream: StreamView,
    pub action: StreamAction,
    pub effect: StreamEffect,
}

/// The event can come.
pub open spec fn stream_expects(stream: StreamView, event: StreamEvent) -> bool {
    if stream.phase == StreamPhase::Closed {
        false
    } else if event is Failed {
        true
    } else {
        match stream.phase {
            StreamPhase::Waiting { waited_ms } => event is Resume,
            StreamPhase::Resolving => event is PlaybackUrl || event is PlaybackUrlFailed,
            StreamPhase::Starting => event is ProgramsStarted,
            StreamPhase::Reading => event is EndOfStream || (event is FrameRead && stream.frames
                < u64::MAX),
            StreamPhase::Writing => event is FrameWritten,
            StreamPhase::Draining { .. } => event is ProgramsEnded,
            StreamPhase::Announcing => event is Announced,
            StreamPhase::Closed => false,
        }
    }
}

/// The stream in another phase.
pub open spec fn in_phase(stream: StreamView, phase: StreamPhase) -> StreamView {
    StreamView { phase, ..stream }
}

/// The step at the top of the frame loop: while the guild still plays the stream's track, a
/// frame is read; else the programs are killed.
pub open spec fn frame_or_kill(
    stream: StreamView,
    current: Option<TrackView>,
    effect: StreamEffect,
) -> StreamStep {
    if current matches Some(track) && track.id == stream.track_id {
        StreamStep {
            stream: in_phase(stream, StreamPhase::Reading),
            action: StreamAction::ReadFrame,
            effect,
        }
    } else {
        StreamStep {
            stream: in_phase(stream, StreamPhase::Draining { natural: false }),
            action: StreamAction::KillPrograms,
            effect,
        }
    }
}

/// The step back to the search for a track.
pub open spec fn start_over(
    stream: StreamView,
    action: StreamAction,
    effect: StreamEffect,
) -> StreamStep {
    StreamStep { stream: in_phase(stream, StreamPhase::Waiting { waited_ms: 0 }), action, effect }
}

/// What follows an event, given the guild's current track.
pub open spec fn stream_next(
    stream: StreamView,
    event: StreamEvent,
    current: Option<TrackView>,
) -> StreamStep {
    if event is Failed {
        StreamStep {
            stream: in_phase(stream, StreamPhase::Closed),
            action: StreamAction::Close,
            effect: StreamEffect::Keep,
        }
    } else {
        match stream.phase {
            StreamPhase::Waiting { waited_ms } => match current {
                Some(track) => StreamStep {
                    stream: StreamView {
                        phase: StreamPhase::Resolving,
                        track_id: track.id,
                        track_url: track.url,
                        playback_url: track.url,
                        frames: 0,
                    },
                    action: StreamAction::ResolvePlaybackUrl,
                    effect: StreamEffect::Look,
                },
                None => if waited_ms >= WAIT_LIMIT_MILLIS {
                    StreamStep {
                        stream: in_phase(stream, StreamPhase::Closed),
                        action: StreamAction::Close,
                        effect: StreamEffect::Look,
                    }
                } else {
                    StreamStep {
                        stream: in_phase(
                            stream,
                            StreamPhase::Waiting {
                                waited_ms: (waited_ms + WAIT_STEP_MILLIS) as u64,
                            },
                        ),
                        action: StreamAction::Sleep { millis: WAIT_STEP_MILLIS },
                        effect: StreamEffect::Look,
                    }
                },
            },
            StreamPhase::Resolving => StreamStep {
                stream: StreamView {
                    phase: StreamPhase::Starting,
                    playback_url: match event {
                        StreamEvent::PlaybackUrl(url) => url@,
                        _ => stream.track_url,
                    },
                    ..stream
                },
                action: StreamAction::StartPrograms,
                effect: StreamEffect::Keep,
            },
            StreamPhase::Starting => frame_or_kill(stream, current, StreamEffect::Look),
            StreamPhase::Reading => if event is FrameRead {
                StreamStep {
                    stream: StreamView {
                        phase: StreamPhase::Writing,
                        frames: (stream.frames + 1) as u64,
                        ..stream
                    },
                    action: StreamAction::WriteFrame,
                    effect: StreamEffect::Keep,
                }
            } else {
                StreamStep {
                    stream: in_phase(stream, StreamPhase::Draining { natural: true }),
                    action: StreamAction::AwaitPrograms,
                    effect: StreamEffect::Keep,
                }
            },
            StreamPhase::Writing => frame_or_kill(stream, current, StreamEffect::Move),
            StreamPhase::Draining { natural } => if stream.frames == 0 && stream.playback_url
                != stream.track_url {
                start_over(stream, StreamAction::BypassPlaybackUrl, StreamEffect::Keep)
            } else if natural {
                StreamStep {
                    stream: in_phase(stream, StreamPhase::Announcing),
                    action: StreamAction::Announce,
                    effect: StreamEffect::Advance,
                }
            } else {
                start_over(stream, StreamAction::Again, StreamEffect::Keep)
            },
            StreamPhase::Announcing => start_over(stream, StreamAction::Again, StreamEffect::Keep),
            StreamPhase::Closed => StreamStep {
                stream,
                action: StreamAction::Close,
                effect: StreamEffect::Keep,
            },
        }
    }
}

/// The sessions after an effect.
pub open spec fn streamed(
    effect: StreamEffect,
    sessions: Map<GuildId, SessionView>,
    guild_id: GuildId,
) -> Map<GuildId, SessionView> {
    let session = session_of(sessions, guild_id);
    match effect {
        StreamEffect::Keep => sessions,
        StreamEffect::Look => sessions.insert(guild_id, session),
        StreamEffect::Move => sessions.insert(guild_id, moved_on(session, FRAME_MILLIS)),
        StreamEffect::Advance => sessions.insert(guild_id, advanced(session)),
    }
}

/// The stream of frames to one client.
#[derive(Debug)]
pub struct GuildStream {
    guild_id: GuildId,
    phase: StreamPhase,
    track_id: u128,
    track_url: String,
    playback_url: String,
    frames: u64,
}

impl View for GuildStream {
    type V = StreamView;

    closed spec fn view(&self) -> StreamView {
        StreamView {
            phase: self.phase,
            track_id: self.track_id,
            track_url: self.track_url@,
            playback_url: self.playback_url@,
            frames: self.frames,
        }
    }
}

impl GuildStream {
    /// The guild that is streamed.
    pub closed spec fn guild(&self) -> GuildId {
        self.guild_id
    }

    /// A stream that has not begun.
    pub fn new(guild_id: GuildId) -> (r: Self)
        ensures
            r.guild() == guild_id,
            r@ == (StreamView {
                phase: StreamPhase::Waiting { waited_ms: 0 },
                track_id: 0,
                track_url: Seq::empty(),
                playback_url: Seq::empty(),
                frames: 0,
            }),
    {
        GuildStream {
            guild_id,
            phase: StreamPhase::Waiting { waited_ms: 0 },
            track_id: 0,
            track_url: String::new(),
            playback_url: String::new(),
            frames: 0,
        }
    }

    /// Whether the event can come now.
    pub fn accepts(&self, event: &StreamEvent) -> (r: bool)
        ensures
            r == stream_expects(self@, *event),
    {
        if self.phase == StreamPhase::Closed {
            return false;
        }
        match event {
            StreamEvent::Failed => true,
            StreamEvent::Resume => match self.phase {
                StreamPhase::Waiting { .. } => true,
                _ => false,
            },
            StreamEvent::PlaybackUrl(_) => self.phase == StreamPhase::Resolving,
            StreamEvent::PlaybackUrlFailed => self.phase == StreamPhase::Resolving,
            StreamEvent::ProgramsStarted => self.phase == StreamPhase::Starting,
            StreamEvent::FrameRead => self.phase == StreamPhase::Reading && self.frames
                < u64::MAX,
            StreamEvent::EndOfStream => self.phase == StreamPhase::Reading,
            StreamEvent::FrameWritten => self.phase == StreamPhase::Writing,
            StreamEvent::ProgramsEnded => match self.phase {
                StreamPhase::Draining { .. } => true,
                _ => false,
            },
            StreamEvent::Announced => self.phase == StreamPhase::Announcing,
        }
    }

    /// The identifier of the track that is streamed.
    pub fn track_id(&self) -> (r: u128)
        ensures
            r == self@.track_id,
    {
        self.track_id
    }

    /// The track's own link.
    pub fn track_url(&self) -> (r: &str)
        ensures
            r@ == self@.track_url,
    {
        self.track_url.as_str()
    }

    /// The link that the track is fetched from.
    pub fn playback_url(&self) -> (r: &str)
        ensures
            r@ == self@.playback_url,
    {
        self.playback_url.as_str()
    }

    /// The number of frames of the track that were read.
    pub fn frames(&self) -> (r: u64)
        ensures
            r == self@.frames,
    {
        self.frames
    }

    /// Whether the guild still plays the stream's track.
    fn still_current(&self, state: &mut AstralinkState) -> (r: bool)
        ensures
            r == (session_of(old(state).sessions(), self.guild()).current matches Some(track)
                && track.id == self@.track_id),
            final(state).sessions() == streamed(
                StreamEffect::Look,
                old(state).sessions(),
                self.guild(),
            ),
            final(state).own_id() == old(state).own_id(),
    {
        match state.current_for(self.guild_id) {
            Some(track) => track.id == self.track_id,
            None => false,
        }
    }

    /// The step at the top of the frame loop.
    fn frame_or_kill(&mut self, state: &mut AstralinkState) -> (action: StreamAction)
        ensures
            ({
                let current = session_of(old(state).sessions(), old(self).guild()).current;
                let next = frame_or_kill(old(self)@, current, StreamEffect::Look);
                &&& final(self)@ == next.stream
                &&& action == next.action
            }),
            final(self).guild() == old(self).guild(),
            final(state).sessions() == streamed(
                StreamEffect::Look,
                old(state).sessions(),
                old(self).guild(),
            ),
            final(state).own_id() == old(state).own_id(),
    {
        if self.still_current(state) {
            self.phase = StreamPhase::Reading;
            StreamAction::ReadFrame
        } else {
            self.phase = StreamPhase::Draining { natural: false };
            StreamAction::KillPrograms
        }
    }

    /// Takes in how the last action went and tells which comes next.
    pub fn step(&mut self, event: StreamEvent, state: &mut AstralinkState) -> (action: StreamAction)
        requires
            stream_expects(old(self)@, event),
        ensures
            ({
                let sessions = old(state).sessions();
                let guild_id = old(self).guild();
                let next = stream_next(old(self)@, event, session_of(sessions, guild_id).current);
                &&& final(self)@ == next.stream
                &&& action == next.action
                &&& final(state).sessions() == streamed(next.effect, sessions, guild_id)
            }),
            final(self).guild() == old(self).guild(),
            final(state).own_id() == old(state).own_id(),
            keyed(old(state).sessions()) ==> keyed(final(state).sessions()),
    {
        let guild_id: GuildId = self.guild_id;
        match event {
            StreamEvent::Failed => {
                self.phase = StreamPhase::Closed;
                StreamAction::Close
            },
            StreamEvent::Resume => {
                let waited_ms: u64 = match self.phase {
                    StreamPhase::Waiting { waited_ms } => waited_ms,
                    _ => 0,
                };
                match state.current_for(guild_id) {
                    Some(track) => {
                        self.phase = StreamPhase::Resolving;
                        self.track_id = track.id;
                        self.playback_url = track.url.clone();
                        self.track_url = track.url;
                        self.frames = 0;
                        StreamAction::ResolvePlaybackUrl
                    },
                    None => if waited_ms >= WAIT_LIMIT_MILLIS {
                        self.phase = StreamPhase::Closed;
                        StreamAction::Close
                    } else {
                        self.phase = StreamPhase::Waiting {
                            waited_ms: waited_ms + WAIT_STEP_MILLIS,
                        };
                        StreamAction::Sleep { millis: WAIT_STEP_MILLIS }
                    },
                }
            },
            StreamEvent::PlaybackUrl(url) => {
                self.playback_url = url;
                self.phase = StreamPhase::Starting;
                StreamAction::StartPrograms
            },
            StreamEvent::PlaybackUrlFailed => {
                self.playback_url = self.track_url.clone();
                self.phase = StreamPhase::Starting;
                StreamAction::StartPrograms
            },
            StreamEvent::ProgramsStarted => self.frame_or_kill(state),
            StreamEvent::FrameRead => {
                self.frames = self.frames + 1;
                self.phase = StreamPhase::Writing;
                StreamAction::WriteFrame
            },
            StreamEvent::EndOfStream => {
                self.phase = StreamPhase::Draining { natural: true };
                StreamAction::AwaitPrograms
            },
            StreamEvent::FrameWritten => {
                state.increment_position_ms(guild_id, FRAME_MILLIS);
                let ghost sessions = state.sessions();
                let action = self.frame_or_kill(state);
                assert(state.sessions() =~= sessions);
                action
            },
            StreamEvent::ProgramsEnded => {
                let natural = match self.phase {
                    StreamPhase::Draining { natural } => natural,
                    _ => false,
                };
                if self.frames == 0 && !same(&self.playback_url, &self.track_url) {
                    self.phase = StreamPhase::Waiting { waited_ms: 0 };
                    StreamAction::BypassPlaybackUrl
                } else if natural {
                    state.advance_after_track_end(guild_id);
                    self.phase = StreamPhase::Announcing;
                    StreamAction::Announce
                } else {
                    self.phase = StreamPhase::Waiting { waited_ms: 0 };
                    StreamAction::Again
                }
            },
            StreamEvent::Announced => {
                self.phase = StreamPhase::Waiting { waited_ms: 0 };
                StreamAction::Again
            },
        }
    }
}

/// The arguments of the fetching program before those that depend on the settings.
pub open spec fn fetcher_head(playback_url: Seq<char>) -> Seq<Seq<char>> {
    seq![
        "-f"@,
        "bestaudio[abr<=128]/bestaudio/best"@,
        "--no-playlist"@,
        "--socket-timeout"@,
        "8"@,
        "--retries"@,
        "2"@,
        "--fragment-retries"@,
        "2"@,
        "--no-part"@,
        "-o"@,
        "-"@,
        playback_url,
    ]
}

/// The proxy for a track: the address of the proxy for the session that the track names.
pub open spec fn track_proxy(proxy: Option<Seq<char>>, track_id: u128) -> Option<Seq<char>> {
    match proxy {
        Some(base) => Some(sticky_proxy(base, hex_digits(track_id, 0, 32))),
        None => None,
    }
}

/// The arguments of the fetching program.
pub fn fetcher_args(
    playback_url: &str,
    track_id: u128,
    settings: &OutboundSettings,
    source_addr: Option<&str>,
) -> (r: Vec<String>)
    ensures
        r.deep_view() == fetcher_head(playback_url@) + cookie_args(settings.cookies())
            + route_args(track_proxy(settings.proxy(), track_id), source_addr.deep_view()),
{
    let mut args: Vec<String> = Vec::new();
    push_arg(&mut args, "-f");
    push_arg(&mut args, "bestaudio[abr<=128]/bestaudio/best");
    push_arg(&mut args, "--no-playlist");
    push_arg(&mut args, "--socket-timeout");
    push_arg(&mut args, "8");
    push_arg(&mut args, "--retries");
    push_arg(&mut args, "2");
    push_arg(&mut args, "--fragment-retries");
    push_arg(&mut args, "2");
    push_arg(&mut args, "--no-part");
    push_arg(&mut args, "-o");
    push_arg(&mut args, "-");
    push_arg(&mut args, playback_url);
    assert(args.deep_view() =~= fetcher_head(playback_url@));
    push_cookies(&mut args, yt_cookies_file(settings));
    let session = session_name(track_id);
    let proxy = sticky_proxy_url(settings, &session);
    let route: Option<&str> = match &proxy {
        Some(url) => Some(url.as_str()),
        None => None,
    };
    push_route(&mut args, route, source_addr);
    args
}

/// The arguments of the converting program: quiet and with little delay, else as in playback.
pub open spec fn low_delay_arguments() -> Seq<Seq<char>> {
    seq![
        "-loglevel"@,
        "error"@,
        "-hide_banner"@,
        "-fflags"@,
        "nobuffer"@,
        "-flags"@,
        "low_delay"@,
        "-analyzeduration"@,
        "0"@,
        "-probesize"@,
        "32768"@,
    ] + converter_arguments()
}

/// The arguments of the converting program.
pub fn converter_args() -> (r: Vec<String>)
    ensures
        r.deep_view() == low_delay_arguments(),
{
    let mut args: Vec<String> = Vec::new();
    push_arg(&mut args, "-loglevel");
    push_arg(&mut args, "error");
    push_arg(&mut args, "-hide_banner");
    push_arg(&mut args, "-fflags");
    push_arg(&mut args, "nobuffer");
    push_arg(&mut args, "-flags");
    push_arg(&mut args, "low_delay");
    push_arg(&mut args, "-analyzeduration");
    push_arg(&mut args, "0");
    push_arg(&mut args, "-probesize");
    push_arg(&mut args, "32768");
    push_converter_args(&mut args);
    assert(args.deep_view() =~= low_delay_arguments());
    args
}

/// The playing position moves exactly when a frame has been written to the client, and the
/// session moves on exactly when the track came to its end without a failure, with frames or
/// from its own link.
pub proof fn law_what_moves_the_session(
    stream: StreamView,
    event: StreamEvent,
    current: Option<TrackView>,
)
    requires
        stream_expects(stream, event),
    ensures
        stream_next(stream, event, current).effect is Move <==> event is FrameWritten,
        stream_next(stream, event, current).effect is Advance <==> event is ProgramsEnded
            && stream.phase == (StreamPhase::Draining { natural: true }) && (stream.frames > 0
            || stream.playback_url == stream.track_url),
{
}

/// A stream waits for a track for half a minute at most: as long as no track comes, the time
/// waited grows and stays within the limit until the connection is closed.
pub proof fn law_wait_is_bounded(stream: StreamView, waited_ms: u64)
    requires
        stream.phase == (StreamPhase::Waiting { waited_ms }),
        waited_ms <= WAIT_LIMIT_MILLIS,
        waited_ms % WAIT_STEP_MILLIS == 0,
    ensures
        ({
            let next = stream_next(stream, StreamEvent::Resume, None);
            if waited_ms == WAIT_LIMIT_MILLIS {
                next.stream.phase == StreamPhase::Closed
            } else {
                next.stream.phase matches StreamPhase::Waiting { waited_ms: longer } && longer
                    == waited_ms + WAIT_STEP_MILLIS && longer <= WAIT_LIMIT_MILLIS && longer
                    % WAIT_STEP_MILLIS == 0
            }
        }),
{
}

/// Once the guild plays another track, or none, no further frame of this one is read: the
/// programs are killed and the stream starts over without moving the session on.
pub proof fn law_change_of_track_starts_over(
    stream: StreamView,
    event: StreamEvent,
    current: Option<TrackView>,
)
    requires
        event is ProgramsStarted && stream.phase == StreamPhase::Starting || event is FrameWritten
            && stream.phase == StreamPhase::Writing,
        current matches Some(track) ==> track.id != stream.track_id,
    ensures
        ({
            let next = stream_next(stream, event, current);
            let over = stream_next(next.stream, StreamEvent::ProgramsEnded, current);
            &&& next.action == StreamAction::KillPrograms
            &&& over.stream.phase == (StreamPhase::Waiting { waited_ms: 0 })
            &&& over.effect is Keep
        }),
{
}

/// Whatever comes, a step leads to where some event is expected, unless the stream is over; it
/// then asks for the connection to be closed.
pub proof fn law_stream_goes_on(
    stream: StreamView,
    event: StreamEvent,
    current: Option<TrackView>,
)
    requires
        stream_expects(stream, event),
    ensures
        ({
            let next = stream_next(stream, event, current);
            &&& next.stream.phase == StreamPhase::Closed <==> next.action == StreamAction::Close
            &&& next.stream.phase != StreamPhase::Closed ==> stream_expects(
                next.stream,
                StreamEvent::Failed,
            )
        }),
{
}

/// Whatever becomes of a guild's stream, no other guild's session changes.
pub proof fn law_stream_touches_one_guild(
    effect: StreamEffect,
    sessions: Map<GuildId, SessionView>,
    guild_id: GuildId,
    other: GuildId,
)
    requires
        other != guild_id,
    ensures
        session_of(streamed(effect, sessions, guild_id), other) == session_of(sessions, other),
{
}

} // verus!
