//! Laws of the playback tasks: their registry and each step of a task.
use vstd::prelude::*;
use crate::audio::playback::{
    converter_args, fetcher_args, GuildPlayback, PlaybackAction, PlaybackEvent, PlaybackPhase,
    PlaybackRegistry, CHANNELS, FRAME_BYTES, FRAME_MILLIS, SAMPLE_BYTES, SAMPLE_RATE,
};
use crate::config::OutboundSettings;
use crate::laws::command::way_out;
use crate::model::{GuildId, Track};
use crate::net::node::ConnectedGuilds;
use crate::state::AstralinkState;

verus! {

/// Sound has 48000 samples per second on each of two channels, of two bytes each, and a frame
/// lasts 20 milliseconds, which makes 3840 bytes.
pub proof fn law_sound()
    ensures
        SAMPLE_RATE == 48000,
        CHANNELS == 2,
        SAMPLE_BYTES == 2,
        FRAME_MILLIS == 20,
        FRAME_BYTES == 3840,
{
}

/// No guild has a task at first, a guild can be subscribed to once it was given one, and giving a
/// guild its task does nothing to the others.
pub proof fn law_registry(
    fresh: PlaybackRegistry,
    subscribed_at_first: bool,
    registry: &mut PlaybackRegistry,
    guild_id: GuildId,
    r: Option<GuildPlayback>,
    other: GuildId,
    before: bool,
    after: bool,
)
    requires
        call_ensures(PlaybackRegistry::new, (), fresh),
        call_ensures(PlaybackRegistry::subscribe, (&fresh, other), subscribed_at_first),
        call_ensures(PlaybackRegistry::subscribe, (&*old(registry), other), before),
        call_ensures(PlaybackRegistry::ensure_guild_playback, (registry, guild_id), r),
        call_ensures(PlaybackRegistry::subscribe, (&*final(registry), other), after),
    ensures
        !subscribed_at_first,
        other == guild_id ==> after,
        other != guild_id ==> after == before,
{
}

/// A guild is given a task exactly when it has none, and the task is a new one for that guild.
pub proof fn law_one_task_for_a_guild(
    registry: &mut PlaybackRegistry,
    guild_id: GuildId,
    had: bool,
    r: Option<GuildPlayback>,
    again: &mut PlaybackRegistry,
    second: Option<GuildPlayback>,
)
    requires
        call_ensures(PlaybackRegistry::subscribe, (&*old(registry), guild_id), had),
        call_ensures(PlaybackRegistry::ensure_guild_playback, (registry, guild_id), r),
        *old(again) == *final(registry),
        call_ensures(PlaybackRegistry::ensure_guild_playback, (again, guild_id), second),
    ensures
        r is Some <==> !had,
        r is Some ==> r->0.guild() == guild_id && r->0.at() is Idle && r->0.link().len() == 0,
        second is None,
{
}

/// A new task is for its guild, has not ended, plays from no link and is about to look for a track.
pub proof fn law_new_task(guild_id: GuildId, r: GuildPlayback, ended: bool, link: &str)
    requires
        call_ensures(GuildPlayback::new, (guild_id,), r),
        call_ensures(GuildPlayback::has_ended, (&r,), ended),
        call_ensures(GuildPlayback::url, (&r,), link),
    ensures
        link@.len() == 0,
        r.guild() == guild_id,
        r.at() is Idle,
        !ended,
{
}

/// A task has ended exactly when it has reached its last phase.
pub proof fn law_has_ended(task: &GuildPlayback, r: bool)
    requires
        call_ensures(GuildPlayback::has_ended, (task,), r),
    ensures
        r <==> task.at() is Ended,
{
}

/// So many times were tried: at least one, and three at most.
pub open spec fn within_three(attempt: u32) -> bool {
    attempt == 1 || attempt == 2 || attempt == 3
}

/// Which event can come in which phase.
pub proof fn law_expected_playback_events(task: &GuildPlayback, event: PlaybackEvent, r: bool)
    requires
        call_ensures(GuildPlayback::accepts, (task, event), r),
    ensures
        event is Resume ==> (r <==> task.at() is Idle || (task.at() is RereadPause && within_three(
            task.at()->RereadPause_attempt,
        ))),
        event is Started || event is StartFailed ==> (r <==> (task.at() is StartingFetcher
            && within_three(task.at()->StartingFetcher_attempt)) || (task.at() is StartingConverter
            && within_three(task.at()->StartingConverter_attempt))),
        event is PipeReady || event is PipeMissing ==> (r <==> task.at() is TakingFetcherOutput
            || task.at() is TakingConverterInput || task.at() is TakingConverterOutput),
        event is FrameRead || event is EndOfStream || event is ReadFailed ==> (r <==> task.at()
            is Reading || (task.at() is Rereading && within_three(task.at()->Rereading_attempt))),
        event is PumpEnded || event is PumpPanicked ==> (r <==> task.at() is AwaitingPump),
        event is ConverterExited ==> (r <==> task.at() is AwaitingConverter),
        event is Announced ==> (r <==> task.at() is Announcing),
{
}

/// An idle task starts to fetch the guild's track from the track's `url`, whatever other link the
/// track names; without a track it looks again after 200 milliseconds.
pub proof fn law_idle_task(
    looked: &mut AstralinkState,
    current: Option<Track>,
    task: &mut GuildPlayback,
    event: PlaybackEvent,
    state: &mut AstralinkState,
    connected: &mut ConnectedGuilds,
    action: PlaybackAction,
    link_before: &str,
    link: &str,
)
    requires
        *old(looked) == *old(state),
        call_ensures(AstralinkState::current_for, (looked, old(task).guild()), current),
        old(task).at() is Idle,
        call_ensures(GuildPlayback::url, (&*old(task),), link_before),
        call_ensures(GuildPlayback::step, (task, event, state, connected), action),
        call_ensures(GuildPlayback::url, (&*final(task),), link),
    ensures
        current is Some ==> action == (PlaybackAction::StartFetcher { attempt: 1 })
            && final(task).at() == (PlaybackPhase::StartingFetcher { attempt: 1 }) && link@
            == current->0.url@,
        current is None ==> action == (PlaybackAction::Sleep { millis: 200 }) && final(task).at()
            is Idle && link@ == link_before@,
        final(state).sessions() == final(looked).sessions(),
        final(connected).ids() == old(connected).ids(),
{
    let seen = crate::state::session_of(old(state).sessions(), old(task).guild()).current;
    assert(seen == current.deep_view());
    if current is Some {
        assert(seen == Some(current->0@));
        assert(current->0@.url == current->0.url@);
    } else {
        assert(seen is None);
    }
}

/// A program that has started hands over its pipes in turn: the fetching program's output, then the
/// converting program is started, its input, its output, and then frames are pumped and read. None
/// of this touches the sessions.
pub proof fn law_programs_start_in_turn(
    task: &mut GuildPlayback,
    event: PlaybackEvent,
    state: &mut AstralinkState,
    connected: &mut ConnectedGuilds,
    action: PlaybackAction,
)
    requires
        event is Started || event is PipeReady,
        event is Started ==> old(task).at() is StartingFetcher || old(task).at()
            is StartingConverter,
        event is PipeReady ==> old(task).at() is TakingFetcherOutput || old(task).at()
            is TakingConverterInput || old(task).at() is TakingConverterOutput,
        call_ensures(GuildPlayback::step, (task, event, state, connected), action),
    ensures
        old(task).at() is StartingFetcher ==> action is TakeFetcherOutput && final(task).at()
            is TakingFetcherOutput,
        old(task).at() is TakingFetcherOutput ==> action == (PlaybackAction::StartConverter {
            attempt: 1,
        }) && final(task).at() == (PlaybackPhase::StartingConverter { attempt: 1 }),
        old(task).at() is StartingConverter ==> action is TakeConverterInput && final(task).at()
            is TakingConverterInput,
        old(task).at() is TakingConverterInput ==> action is TakeConverterOutput
            && final(task).at() is TakingConverterOutput,
        old(task).at() is TakingConverterOutput ==> action is StartPump && final(task).at()
            is Reading,
        final(task).link() == old(task).link(),
        final(state).sessions() == old(state).sessions(),
        final(connected).ids() == old(connected).ids(),
{
}

/// A pipe that is missing ends the task, and does nothing to the sessions.
pub proof fn law_missing_pipe(
    task: &mut GuildPlayback,
    state: &mut AstralinkState,
    connected: &mut ConnectedGuilds,
    action: PlaybackAction,
)
    requires
        old(task).at() is TakingFetcherOutput || old(task).at() is TakingConverterInput || old(
            task,
        ).at() is TakingConverterOutput,
        call_ensures(
            GuildPlayback::step,
            (task, PlaybackEvent::PipeMissing, state, connected),
            action,
        ),
    ensures
        action is Stop,
        final(task).at() is Ended,
        final(state).sessions() == old(state).sessions(),
        final(connected).ids() == old(connected).ids(),
{
}

/// A program that did not start is started again, the second and the third time.
pub proof fn law_program_is_started_again(
    task: &mut GuildPlayback,
    state: &mut AstralinkState,
    connected: &mut ConnectedGuilds,
    attempt: u32,
    action: PlaybackAction,
)
    requires
        attempt == 1 || attempt == 2,
        old(task).at() == (PlaybackPhase::StartingFetcher { attempt }) || old(task).at() == (
        PlaybackPhase::StartingConverter { attempt }),
        call_ensures(
            GuildPlayback::step,
            (task, PlaybackEvent::StartFailed, state, connected),
            action,
        ),
    ensures
        old(task).at() is StartingFetcher ==> action is StartFetcher && action->StartFetcher_attempt
            == attempt + 1 && final(task).at() is StartingFetcher
            && final(task).at()->StartingFetcher_attempt == attempt + 1,
        old(task).at() is StartingConverter ==> action is StartConverter
            && action->StartConverter_attempt == attempt + 1 && final(task).at()
            is StartingConverter && final(task).at()->StartingConverter_attempt == attempt + 1,
        final(task).link() == old(task).link(),
        final(state).sessions() == old(state).sessions(),
        final(connected).ids() == old(connected).ids(),
{
}

/// A frame that was read is sent out and the next one is read. At the end of the frames the task
/// waits for the pump; where the end comes while a frame is read again, it reads once more.
pub proof fn law_frames(
    task: &mut GuildPlayback,
    event: PlaybackEvent,
    state: &mut AstralinkState,
    connected: &mut ConnectedGuilds,
    action: PlaybackAction,
)
    requires
        event is FrameRead || event is EndOfStream,
        old(task).at() is Reading || old(task).at() is Rereading,
        call_ensures(GuildPlayback::step, (task, event, state, connected), action),
    ensures
        event is FrameRead ==> action is SendFrame && final(task).at() is Reading,
        event is EndOfStream && old(task).at() is Reading ==> action is AwaitPump
            && final(task).at() is AwaitingPump,
        event is EndOfStream && old(task).at() is Rereading ==> action is ReadFrame
            && final(task).at() is Reading,
        final(task).link() == old(task).link(),
        final(state).sessions() == old(state).sessions(),
        final(connected).ids() == old(connected).ids(),
{
}

/// A frame that could not be read is read again at once the first time, and after a pause of 100
/// milliseconds the second and the third time.
pub proof fn law_frame_is_read_again(
    task: &mut GuildPlayback,
    event: PlaybackEvent,
    state: &mut AstralinkState,
    connected: &mut ConnectedGuilds,
    attempt: u32,
    action: PlaybackAction,
)
    requires
        (event is ReadFailed && old(task).at() is Reading) || (event is ReadFailed && old(task).at()
            == (PlaybackPhase::Rereading { attempt }) && within_three(attempt)) || (event is Resume
            && old(task).at() == (PlaybackPhase::RereadPause { attempt }) && (attempt == 1
            || attempt == 2)),
        call_ensures(GuildPlayback::step, (task, event, state, connected), action),
    ensures
        old(task).at() is Reading ==> action is ReadFrame && final(task).at() == (
        PlaybackPhase::Rereading { attempt: 1 }),
        old(task).at() is Rereading ==> action == (PlaybackAction::Sleep { millis: 100 })
            && final(task).at() == (PlaybackPhase::RereadPause { attempt }),
        old(task).at() is RereadPause ==> action is ReadFrame && final(task).at() is Rereading
            && final(task).at()->Rereading_attempt == attempt + 1,
        final(task).link() == old(task).link(),
        final(state).sessions() == old(state).sessions(),
        final(connected).ids() == old(connected).ids(),
{
}

/// The track is given up in this phase upon this event: the third start of a program failed, a
/// frame was read for the third time in vain, or the pump panicked.
pub open spec fn is_given_up(phase: PlaybackPhase, event: PlaybackEvent) -> bool {
    ||| phase == (PlaybackPhase::StartingFetcher { attempt: 3 }) && event is StartFailed
    ||| phase == (PlaybackPhase::StartingConverter { attempt: 3 }) && event is StartFailed
    ||| phase == (PlaybackPhase::RereadPause { attempt: 3 }) && event is Resume
    ||| phase is AwaitingPump && event is PumpPanicked
}

/// A track that is given up leaves the session as the end of a track does. If another track
/// follows, the guild stays connected and with its node.
pub proof fn law_given_up_track_is_followed(
    ended: &mut AstralinkState,
    next: Option<Track>,
    task: &mut GuildPlayback,
    event: PlaybackEvent,
    state: &mut AstralinkState,
    connected: &mut ConnectedGuilds,
    action: PlaybackAction,
)
    requires
        *old(ended) == *old(state),
        call_ensures(AstralinkState::advance_after_track_end, (ended, old(task).guild()), next),
        next is Some,
        is_given_up(old(task).at(), event),
        call_ensures(GuildPlayback::step, (task, event, state, connected), action),
    ensures
        final(state).sessions() == final(ended).sessions(),
        final(connected).ids() == old(connected).ids(),
        old(task).at() is RereadPause ==> action is AwaitPump && final(task).at() is AwaitingPump,
        !(old(task).at() is RereadPause) ==> action is Again && final(task).at() is Idle,
{
    assert(next.deep_view() is Some);
}

/// If no track follows one that is given up, the guild is moreover disconnected and left by its
/// node; a task whose pump panicked then ends.
pub proof fn law_last_track_given_up(
    ended: &mut AstralinkState,
    next: Option<Track>,
    left: &mut AstralinkState,
    task: &mut GuildPlayback,
    event: PlaybackEvent,
    state: &mut AstralinkState,
    connected: &mut ConnectedGuilds,
    action: PlaybackAction,
)
    requires
        *old(ended) == *old(state),
        call_ensures(AstralinkState::advance_after_track_end, (ended, old(task).guild()), next),
        next is None,
        *old(left) == *final(ended),
        call_ensures(AstralinkState::unassign_node, (left, old(task).guild()), ()),
        is_given_up(old(task).at(), event),
        call_ensures(GuildPlayback::step, (task, event, state, connected), action),
    ensures
        final(state).sessions() == final(left).sessions(),
        final(connected).ids() == old(connected).ids().remove(old(task).guild()),
        old(task).at() is RereadPause ==> action is AwaitPump && final(task).at() is AwaitingPump,
        old(task).at() is AwaitingPump ==> action is Stop && final(task).at() is Ended,
        old(task).at() is StartingFetcher || old(task).at() is StartingConverter ==> action is Again
            && final(task).at() is Idle,
{
    assert(next.deep_view() is None);
}

/// When the pump has ended, the converting program is waited for; when that has exited, the session
/// is left as the end of a track leaves it and the clients are told.
pub proof fn law_played_track_ends(
    ended: &mut AstralinkState,
    next: Option<Track>,
    task: &mut GuildPlayback,
    event: PlaybackEvent,
    state: &mut AstralinkState,
    connected: &mut ConnectedGuilds,
    action: PlaybackAction,
)
    requires
        *old(ended) == *old(state),
        call_ensures(AstralinkState::advance_after_track_end, (ended, old(task).guild()), next),
        (event is PumpEnded && old(task).at() is AwaitingPump) || (event is ConverterExited && old(
            task,
        ).at() is AwaitingConverter),
        call_ensures(GuildPlayback::step, (task, event, state, connected), action),
    ensures
        event is PumpEnded ==> action is AwaitConverter && final(task).at() is AwaitingConverter
            && final(state).sessions() == old(state).sessions(),
        event is ConverterExited ==> {
            &&& action is Announce
            &&& final(task).at() is Announcing
            &&& final(task).at()->has_next <==> next is Some
            &&& final(state).sessions() == final(ended).sessions()
        },
        final(connected).ids() == old(connected).ids(),
{
    assert(next.deep_view() is Some == next is Some);
}

/// When the clients were told, the task goes on if another track follows; else the guild is
/// disconnected and left by its node, and the task ends.
pub proof fn law_task_goes_on_or_ends(
    left: &mut AstralinkState,
    task: &mut GuildPlayback,
    state: &mut AstralinkState,
    connected: &mut ConnectedGuilds,
    action: PlaybackAction,
)
    requires
        *old(left) == *old(state),
        call_ensures(AstralinkState::unassign_node, (left, old(task).guild()), ()),
        old(task).at() is Announcing,
        call_ensures(
            GuildPlayback::step,
            (task, PlaybackEvent::Announced, state, connected),
            action,
        ),
    ensures
        old(task).at()->has_next ==> action is Again && final(task).at() is Idle
            && final(state).sessions() == old(state).sessions() && final(connected).ids() == old(
            connected,
        ).ids(),
        !old(task).at()->has_next ==> action is Stop && final(task).at() is Ended
            && final(state).sessions() == final(left).sessions() && final(connected).ids() == old(
            connected,
        ).ids().remove(old(task).guild()),
{
}

/// No step changes which guild is played for, nor which node this is.
pub proof fn law_task_stays_with_its_guild(
    task: &mut GuildPlayback,
    event: PlaybackEvent,
    state: &mut AstralinkState,
    connected: &mut ConnectedGuilds,
    action: PlaybackAction,
)
    requires
        call_ensures(GuildPlayback::step, (task, event, state, connected), action),
    ensures
        final(task).guild() == old(task).guild(),
        final(state).own_id() == old(state).own_id(),
{
}

/// The arguments of the fetching program: the best sound of one track, to its output, from the
/// link; by the proxy, else from the source address, else by a listed proxy, the next one for
/// each attempt and from the start again after the last, but the third attempt goes without.
pub proof fn law_playback_fetcher(
    url: &str,
    attempt: u32,
    settings: &OutboundSettings,
    source_addr: Option<&str>,
    proxies: &Vec<String>,
    r: Vec<String>,
)
    requires
        within_three(attempt),
        call_ensures(fetcher_args, (url, attempt, settings, source_addr, proxies), r),
    ensures
        ({
            let head = seq!["--no-playlist"@, "-f"@, "bestaudio"@, "-o"@, "-"@, url@];
            let listed = settings.proxy() is None && source_addr is None && proxies@.len() > 0
                && attempt != 3;
            &&& !listed ==> r.deep_view() == head + way_out(
                settings.proxy(),
                source_addr.deep_view(),
            )
            &&& listed && attempt == 1 ==> r.deep_view() == head + seq![
                "--proxy"@,
                proxies@[0]@,
            ]
            &&& listed && attempt == 2 && proxies@.len() == 1 ==> r.deep_view() == head + seq![
                "--proxy"@,
                proxies@[0]@,
            ]
            &&& listed && attempt == 2 && proxies@.len() > 1 ==> r.deep_view() == head + seq![
                "--proxy"@,
                proxies@[1]@,
            ]
        }),
{
    assert(source_addr.deep_view() is None <==> source_addr is None);
    let n = proxies@.len() as int;
    assert(proxies.deep_view().len() == n);
    if n > 0 {
        assert(proxies.deep_view()[0] == proxies@[0]@);
        assert(0int % n == 0) by (nonlinear_arith)
            requires
                n > 0,
        ;
    }
    if n > 1 {
        assert(proxies.deep_view()[1] == proxies@[1]@);
        assert(1int % n == 1) by (nonlinear_arith)
            requires
                n > 1,
        ;
    }
    let route = way_out(settings.proxy(), source_addr.deep_view());
    assert(route =~= crate::command::route_args(settings.proxy(), source_addr.deep_view()));
}

/// The arguments of the converting program: in real time, from its input to raw sound of two
/// channels and 48000 samples per second on its output.
pub proof fn law_playback_converter(r: Vec<String>)
    requires
        call_ensures(converter_args, (), r),
    ensures
        r.deep_view() == seq![
            "-re"@,
            "-i"@,
            "pipe:0"@,
            "-f"@,
            "s16le"@,
            "-ac"@,
            "2"@,
            "-ar"@,
            "48000"@,
            "pipe:1"@,
        ],
{
}

} // verus!
