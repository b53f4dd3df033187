//! Laws of the audio connection: the handshake and each step of a stream.
use vstd::prelude::*;
use crate::audio::stream::{
    check_handshake, converter_args, fetcher_args, Admission, AudioHandshake, GuildStream,
    StreamAction, StreamEvent, StreamPhase, HANDSHAKE_TIMEOUT_SECS,
};
use crate::config::{sticky_proxy_url, OutboundSettings};
use crate::laws::command::{cookies_named, way_out};
use crate::model::{GuildId, Track};
use crate::state::AstralinkState;
use crate::track_id::session_name;

verus! {

/// A client has three seconds for its handshake. It is admitted to the guild that it names exactly
/// when it sent a handshake with the right token; one that sent nothing, or a wrong token, is cut
/// off, and one that sent anything else has failed.
pub proof fn law_handshake(
    bytes: usize,
    handshake: Option<AudioHandshake>,
    token: &str,
    r: Admission,
    guild_id: GuildId,
)
    requires
        call_ensures(check_handshake, (bytes, handshake, token), r),
    ensures
        HANDSHAKE_TIMEOUT_SECS == 3,
        r == (Admission::Admit { guild_id }) <==> bytes > 0 && handshake is Some
            && handshake->0.token@ == token@ && handshake->0.guild_id == guild_id,
        r is Malformed <==> bytes > 0 && handshake is None,
        r is Close <==> bytes == 0 || (handshake is Some && handshake->0.token@ != token@),
{
}

/// A new stream is for its guild, knows no link, has read no frame and has waited for no time, and
/// is about to look for a track.
pub proof fn law_new_stream(
    guild_id: GuildId,
    r: GuildStream,
    id: u128,
    own: &str,
    fetched: &str,
    frames: u64,
)
    requires
        call_ensures(GuildStream::new, (guild_id,), r),
        call_ensures(GuildStream::track_id, (&r,), id),
        call_ensures(GuildStream::track_url, (&r,), own),
        call_ensures(GuildStream::playback_url, (&r,), fetched),
        call_ensures(GuildStream::frames, (&r,), frames),
    ensures
        id == 0,
        own@.len() == 0,
        fetched@.len() == 0,
        r.guild() == guild_id,
        frames == 0,
        r@.phase is Waiting && r@.phase->waited_ms == 0,
{
}

/// Which event can come depends on the phase alone, but for a frame too many; a failure can come
/// at any time until the stream is over, and then nothing can.
pub proof fn law_expected_events(stream: &GuildStream, event: &StreamEvent, frames: u64, r: bool)
    requires
        call_ensures(GuildStream::accepts, (stream, event), r),
        call_ensures(GuildStream::frames, (stream,), frames),
    ensures
        stream@.phase is Closed ==> !r,
        !(stream@.phase is Closed) && event is Failed ==> r,
        event is Resume ==> (r <==> stream@.phase is Waiting),
        event is PlaybackUrl || event is PlaybackUrlFailed ==> (r <==> stream@.phase is Resolving),
        event is ProgramsStarted ==> (r <==> stream@.phase is Starting),
        event is FrameRead ==> (r <==> stream@.phase is Reading && frames < u64::MAX),
        event is EndOfStream ==> (r <==> stream@.phase is Reading),
        event is FrameWritten ==> (r <==> stream@.phase is Writing),
        event is ProgramsEnded ==> (r <==> stream@.phase is Draining),
        event is Announced ==> (r <==> stream@.phase is Announcing),
{
}

/// When the guild plays a track, a waiting stream takes it up: its identifier, and its `url` both
/// as the track's own link and as the link to fetch it from, whatever page or other link the track
/// names. No frame of it was read yet.
pub proof fn law_track_is_taken_up(
    looked: &mut AstralinkState,
    track: Track,
    stream: &mut GuildStream,
    state: &mut AstralinkState,
    action: StreamAction,
    id: u128,
    own: &str,
    fetched: &str,
    frames: u64,
)
    requires
        *old(looked) == *old(state),
        call_ensures(
            AstralinkState::current_for,
            (looked, old(stream).guild()),
            Some(track),
        ),
        old(stream)@.phase is Waiting,
        call_ensures(GuildStream::step, (stream, StreamEvent::Resume, state), action),
        call_ensures(GuildStream::track_id, (&*final(stream),), id),
        call_ensures(GuildStream::track_url, (&*final(stream),), own),
        call_ensures(GuildStream::playback_url, (&*final(stream),), fetched),
        call_ensures(GuildStream::frames, (&*final(stream),), frames),
    ensures
        action is ResolvePlaybackUrl,
        final(stream)@.phase is Resolving,
        id == track.id,
        own@ == track.url@,
        fetched@ == track.url@,
        frames == 0,
{
    let current = crate::state::session_of(old(state).sessions(), old(stream).guild()).current;
    assert(current == Some(track@));
}

/// When the guild plays nothing, a waiting stream looks again after 100 milliseconds, until it has
/// waited for 30 seconds; then it closes the connection.
pub proof fn law_no_track_yet(
    looked: &mut AstralinkState,
    stream: &mut GuildStream,
    state: &mut AstralinkState,
    waited: u64,
    action: StreamAction,
)
    requires
        *old(looked) == *old(state),
        call_ensures(AstralinkState::current_for, (looked, old(stream).guild()), None::<Track>),
        old(stream)@.phase == (StreamPhase::Waiting { waited_ms: waited }),
        call_ensures(GuildStream::step, (stream, StreamEvent::Resume, state), action),
    ensures
        waited >= 30_000 ==> action is Close && final(stream)@.phase is Closed,
        waited < 30_000 ==> action == (StreamAction::Sleep { millis: 100 })
            && final(stream)@.phase is Waiting && final(stream)@.phase->waited_ms == waited + 100,
{
    let current = crate::state::session_of(old(state).sessions(), old(stream).guild()).current;
    assert(current is None);
}

/// Whatever link was found is the one that the track is fetched from; where none was found it is
/// the track's own. The track's identifier and own link stay, and the programs are started.
pub proof fn law_link_is_found(
    stream: &mut GuildStream,
    event: StreamEvent,
    state: &mut AstralinkState,
    action: StreamAction,
    own_before: &str,
    own: &str,
    fetched: &str,
)
    requires
        event is PlaybackUrl || event is PlaybackUrlFailed,
        old(stream)@.phase is Resolving,
        call_ensures(GuildStream::track_url, (&*old(stream),), own_before),
        call_ensures(GuildStream::step, (stream, event, state), action),
        call_ensures(GuildStream::track_url, (&*final(stream),), own),
        call_ensures(GuildStream::playback_url, (&*final(stream),), fetched),
    ensures
        action is StartPrograms,
        final(stream)@.phase is Starting,
        event is PlaybackUrl ==> fetched@ == event->PlaybackUrl_0@,
        event is PlaybackUrlFailed ==> fetched@ == own_before@,
        own@ == own_before@,
        final(stream)@.track_id == old(stream)@.track_id,
        final(stream)@.frames == old(stream)@.frames,
        final(state).sessions() == old(state).sessions(),
{
}

/// When the programs have started, and each time a frame was written, a frame is read as long as
/// the guild plays the stream's track; once it plays another, or none, the programs are killed.
pub proof fn law_frame_or_kill(
    looked: &mut AstralinkState,
    current: Option<Track>,
    stream: &mut GuildStream,
    event: StreamEvent,
    state: &mut AstralinkState,
    action: StreamAction,
    id: u128,
)
    requires
        *old(looked) == *old(state),
        call_ensures(AstralinkState::current_for, (looked, old(stream).guild()), current),
        call_ensures(GuildStream::track_id, (&*old(stream),), id),
        (event is ProgramsStarted && old(stream)@.phase is Starting) || (event is FrameWritten
            && old(stream)@.phase is Writing),
        call_ensures(GuildStream::step, (stream, event, state), action),
    ensures
        current is Some && current->0.id == id ==> action is ReadFrame
            && final(stream)@.phase is Reading,
        !(current is Some && current->0.id == id) ==> action is KillPrograms
            && final(stream)@.phase is Draining && !final(stream)@.phase->natural,
        final(stream)@.track_id == old(stream)@.track_id,
        final(stream)@.track_url == old(stream)@.track_url,
        final(stream)@.playback_url == old(stream)@.playback_url,
        final(stream)@.frames == old(stream)@.frames,
{
    let seen = crate::state::session_of(old(state).sessions(), old(stream).guild()).current;
    assert(seen == current.deep_view());
    if current is Some {
        assert(seen == Some(current->0@));
        assert(current->0@.id == current->0.id);
    }
}

/// A frame that was read is counted and written; without a further frame the stream waits for the
/// programs to exit, and the track came to its natural end. The session is not touched.
pub proof fn law_reading(
    stream: &mut GuildStream,
    event: StreamEvent,
    state: &mut AstralinkState,
    action: StreamAction,
    before: u64,
    after: u64,
)
    requires
        event is FrameRead || event is EndOfStream,
        old(stream)@.phase is Reading,
        event is FrameRead ==> before < u64::MAX,
        call_ensures(GuildStream::frames, (&*old(stream),), before),
        call_ensures(GuildStream::step, (stream, event, state), action),
        call_ensures(GuildStream::frames, (&*final(stream),), after),
    ensures
        event is FrameRead ==> action is WriteFrame && final(stream)@.phase is Writing && after
            == before + 1,
        event is EndOfStream ==> action is AwaitPrograms && final(stream)@.phase is Draining
            && final(stream)@.phase->natural && after == before,
        final(stream)@.track_id == old(stream)@.track_id,
        final(stream)@.track_url == old(stream)@.track_url,
        final(stream)@.playback_url == old(stream)@.playback_url,
        final(state).sessions() == old(state).sessions(),
{
}

/// When the programs have exited without a single frame from a link that is not the track's own,
/// that link is bypassed; else a track that came to its end is followed by the next one, which the
/// clients are told of; else the stream looks for a track again at once.
pub proof fn law_programs_have_ended(
    stream: &mut GuildStream,
    state: &mut AstralinkState,
    action: StreamAction,
    own: &str,
    fetched: &str,
    frames: u64,
)
    requires
        old(stream)@.phase is Draining,
        call_ensures(GuildStream::track_url, (&*old(stream),), own),
        call_ensures(GuildStream::playback_url, (&*old(stream),), fetched),
        call_ensures(GuildStream::frames, (&*old(stream),), frames),
        call_ensures(GuildStream::step, (stream, StreamEvent::ProgramsEnded, state), action),
    ensures
        ({
            let bypassed = frames == 0 && own@ != fetched@;
            let ended = !bypassed && old(stream)@.phase->natural;
            &&& bypassed ==> action is BypassPlaybackUrl
            &&& ended ==> action is Announce && final(stream)@.phase is Announcing
            &&& !bypassed && !ended ==> action is Again
            &&& !ended ==> final(stream)@.phase is Waiting && final(stream)@.phase->waited_ms == 0
                && final(state).sessions() == old(state).sessions()
        }),
{
}

/// After the clients were told, the stream looks for a track again at once.
pub proof fn law_clients_were_told(
    stream: &mut GuildStream,
    state: &mut AstralinkState,
    action: StreamAction,
)
    requires
        old(stream)@.phase is Announcing,
        call_ensures(GuildStream::step, (stream, StreamEvent::Announced, state), action),
    ensures
        action is Again,
        final(stream)@.phase is Waiting && final(stream)@.phase->waited_ms == 0,
        final(state).sessions() == old(state).sessions(),
{
}

/// A failure ends the stream, wherever it stands, and leaves the sessions as they are.
pub proof fn law_stream_failure(
    stream: &mut GuildStream,
    state: &mut AstralinkState,
    action: StreamAction,
)
    requires
        !(old(stream)@.phase is Closed),
        call_ensures(GuildStream::step, (stream, StreamEvent::Failed, state), action),
    ensures
        action is Close,
        final(stream)@.phase is Closed,
        final(state).sessions() == old(state).sessions(),
{
}

/// Writing a frame moves the guild's playing position on by the 20 milliseconds that a frame lasts,
/// and does nothing else to the sessions.
pub proof fn law_written_frame_moves_on(
    moved: &mut AstralinkState,
    stream: &mut GuildStream,
    state: &mut AstralinkState,
    action: StreamAction,
)
    requires
        *old(moved) == *old(state),
        call_ensures(
            AstralinkState::increment_position_ms,
            (moved, old(stream).guild(), 20),
            (),
        ),
        old(stream)@.phase is Writing,
        call_ensures(GuildStream::step, (stream, StreamEvent::FrameWritten, state), action),
    ensures
        final(state).sessions() == final(moved).sessions(),
{
}

/// A track that was streamed to its end leaves the session as the end of a track does.
pub proof fn law_streamed_track_ends(
    ended: &mut AstralinkState,
    next: Option<Track>,
    stream: &mut GuildStream,
    state: &mut AstralinkState,
    action: StreamAction,
    own: &str,
    fetched: &str,
    frames: u64,
)
    requires
        *old(ended) == *old(state),
        call_ensures(
            AstralinkState::advance_after_track_end,
            (ended, old(stream).guild()),
            next,
        ),
        old(stream)@.phase == (StreamPhase::Draining { natural: true }),
        call_ensures(GuildStream::frames, (&*old(stream),), frames),
        call_ensures(GuildStream::track_url, (&*old(stream),), own),
        call_ensures(GuildStream::playback_url, (&*old(stream),), fetched),
        frames > 0 || own@ == fetched@,
        call_ensures(GuildStream::step, (stream, StreamEvent::ProgramsEnded, state), action),
    ensures
        final(state).sessions() == final(ended).sessions(),
{
}

/// Looking for a track, and starting one, leave the sessions as looking at the guild's track does.
pub proof fn law_looking_for_a_track(
    looked: &mut AstralinkState,
    current: Option<Track>,
    stream: &mut GuildStream,
    event: StreamEvent,
    state: &mut AstralinkState,
    action: StreamAction,
)
    requires
        *old(looked) == *old(state),
        call_ensures(AstralinkState::current_for, (looked, old(stream).guild()), current),
        (event is Resume && old(stream)@.phase is Waiting) || (event is ProgramsStarted && old(
            stream,
        )@.phase is Starting),
        call_ensures(GuildStream::step, (stream, event, state), action),
    ensures
        final(state).sessions() == final(looked).sessions(),
{
}

/// No step changes which guild is streamed, nor which node this is.
pub proof fn law_stream_stays_with_its_guild(
    stream: &mut GuildStream,
    event: StreamEvent,
    state: &mut AstralinkState,
    action: StreamAction,
)
    requires
        call_ensures(GuildStream::step, (stream, event, state), action),
    ensures
        final(stream).guild() == old(stream).guild(),
        final(state).own_id() == old(state).own_id(),
{
}

/// The arguments of the fetching program: the best sound up to 128 kilobits, one track, eight
/// seconds and two tries, to its output, from the link; the cookie file where there is one; and
/// the proxy with the track's session, else the source address.
pub proof fn law_stream_fetcher(
    playback_url: &str,
    track_id: u128,
    settings: &OutboundSettings,
    source_addr: Option<&str>,
    r: Vec<String>,
    name: String,
    session: &str,
    proxy: Option<String>,
)
    requires
        call_ensures(fetcher_args, (playback_url, track_id, settings, source_addr), r),
        call_ensures(session_name, (track_id,), name),
        session@ == name@,
        call_ensures(sticky_proxy_url, (settings, session), proxy),
    ensures
        r.deep_view() == seq![
            "-f"@,
            "bestaudio[abr<=128]/bestaudio/best"@,
            "--no-playlist"@,
            "--socket-timeout"@,
            "8"@,
            "--retries"@,
            "2"@,
            "--fragment-retries"@,
            "2"@,
            "--no-part"@,
            "-o"@,
            "-"@,
            playback_url@,
        ] + cookies_named(settings.cookies()) + way_out(
            proxy.deep_view(),
            source_addr.deep_view(),
        ),
{
    let cookies = cookies_named(settings.cookies());
    assert(cookies =~= crate::command::cookie_args(settings.cookies()));
    let route = way_out(proxy.deep_view(), source_addr.deep_view());
    assert(route =~= crate::command::route_args(proxy.deep_view(), source_addr.deep_view()));
}

/// The arguments of the converting program: quiet, with little delay and in real time, from its
/// input to raw sound of two channels and 48000 samples per second on its output.
pub proof fn law_stream_converter(r: Vec<String>)
    requires
        call_ensures(converter_args, (), r),
    ensures
        r.deep_view() == seq![
            "-loglevel"@,
            "error"@,
            "-hide_banner"@,
            "-fflags"@,
            "nobuffer"@,
            "-flags"@,
            "low_delay"@,
            "-analyzeduration"@,
            "0"@,
            "-probesize"@,
            "32768"@,
            "-re"@,
            "-i"@,
            "pipe:0"@,
            "-f"@,
            "s16le"@,
            "-ac"@,
            "2"@,
            "-ar"@,
            "48000"@,
            "pipe:1"@,
        ],
{
}

} // verus!
