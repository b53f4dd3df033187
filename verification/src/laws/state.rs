//! Laws of the sessions: what each call leaves recorded, and what it tells.
//!
//! A call changes the session of its own guild alone: what is recorded after it is what was
//! recorded before, with that one session put in.
use vstd::prelude::*;
use crate::model::{
    ActionRequest, GuildId, GuildSessionState, NodeInfo, NodeView, QueueItem, QueueItemView,
    SessionView, StateResponse, StateView, Track,
};
use crate::state::{session_of, AstralinkState};

verus! {

/// The session of a guild that is met for the first time: nothing is queued or played, the
/// volume is 100, and no node serves it.
pub proof fn law_first_meeting(sessions: Map<GuildId, SessionView>, guild_id: GuildId)
    ensures
        sessions.contains_key(guild_id) ==> session_of(sessions, guild_id) == sessions[guild_id],
        !sessions.contains_key(guild_id) ==> {
            let fresh = session_of(sessions, guild_id);
            &&& fresh.guild_id == guild_id
            &&& fresh.queue.len() == 0
            &&& fresh.current is None
            &&& !fresh.paused
            &&& fresh.volume == 100
            &&& fresh.position_ms == 0
            &&& !fresh.is_finished
            &&& fresh.node is None
        },
{
}

/// Reading a session gives the recorded one, or the one of a first meeting, which is then
/// recorded.
pub proof fn law_get_or_init(state: &mut AstralinkState, guild_id: GuildId, r: GuildSessionState)
    requires
        call_ensures(AstralinkState::get_or_init, (state, guild_id), r),
    ensures
        old(state).sessions().contains_key(guild_id) ==> r@ == old(state).sessions()[guild_id]
            && final(state).sessions() == old(state).sessions(),
        !old(state).sessions().contains_key(guild_id) ==> {
            &&& r.guild_id == guild_id
            &&& r@.queue.len() == 0
            &&& r@.current is None
            &&& !r.paused
            &&& r.volume == 100
            &&& r.position_ms == 0
            &&& !r.is_finished
            &&& r@.node is None
            &&& final(state).sessions() == old(state).sessions().insert(guild_id, r@)
        },
        final(state).own_id() == old(state).own_id(),
{
    assert(old(state).sessions().contains_key(guild_id) ==> final(state).sessions() =~= old(
        state,
    ).sessions());
}

/// A session that was set is the one that is read next, and reading any other guild is not
/// changed by it.
pub proof fn law_set_is_read_back(
    state: &mut AstralinkState,
    session: &GuildSessionState,
    after: &mut AstralinkState,
    guild_id: GuildId,
    r: GuildSessionState,
)
    requires
        call_ensures(AstralinkState::set_state_async, (state, session), ()),
        call_ensures(AstralinkState::get_or_init, (after, guild_id), r),
        *old(after) == *final(state),
    ensures
        guild_id == session.guild_id ==> r@ == session@,
        guild_id != session.guild_id && old(state).sessions().contains_key(guild_id) ==> r@ == old(
            state,
        ).sessions()[guild_id],
        final(state).sessions() == old(state).sessions().insert(session.guild_id, session@),
        final(state).own_id() == old(state).own_id(),
{
}

/// After a known guild was assigned to a node, this node serves it exactly if it is that node;
/// nothing else of the session changes. A guild that is not known stays so.
pub proof fn law_assigned_node_serves(
    state: &mut AstralinkState,
    guild_id: GuildId,
    node: NodeInfo,
    mine: bool,
)
    requires
        call_ensures(AstralinkState::assign_node, (state, guild_id, node), ()),
        call_ensures(AstralinkState::is_assigned_to_me, (&*final(state), guild_id), mine),
    ensures
        old(state).sessions().contains_key(guild_id) ==> mine == (node.id@ == old(state).own_id())
            && final(state).sessions() == old(state).sessions().insert(
            guild_id,
            (SessionView { node: Some(node@), ..old(state).sessions()[guild_id] }),
        ),
        !old(state).sessions().contains_key(guild_id) ==> !mine && final(state).sessions() == old(
            state,
        ).sessions(),
        final(state).own_id() == old(state).own_id(),
{
}

/// This node serves a guild exactly if the guild is known and its node has this node's
/// identifier.
pub proof fn law_serving(state: &AstralinkState, guild_id: GuildId, r: bool)
    requires
        call_ensures(AstralinkState::is_assigned_to_me, (state, guild_id), r),
    ensures
        r <==> exists|node: NodeView|
            state.sessions().contains_key(guild_id) && state.sessions()[guild_id].node == Some(node)
                && #[trigger] node.id == state.own_id(),
{
    if r {
        let node = state.sessions()[guild_id].node->0;
        assert(node.id == state.own_id());
    }
}

/// After the node of a guild was forgotten, no node serves it; nothing else of the session
/// changes.
pub proof fn law_unassigned_is_not_served(
    state: &mut AstralinkState,
    guild_id: GuildId,
    mine: bool,
)
    requires
        call_ensures(AstralinkState::unassign_node, (state, guild_id), ()),
        call_ensures(AstralinkState::is_assigned_to_me, (&*final(state), guild_id), mine),
    ensures
        !mine,
        old(state).sessions().contains_key(guild_id) ==> final(state).sessions() == old(
            state,
        ).sessions().insert(
            guild_id,
            (SessionView { node: None, ..old(state).sessions()[guild_id] }),
        ),
        !old(state).sessions().contains_key(guild_id) ==> final(state).sessions() == old(
            state,
        ).sessions(),
        final(state).own_id() == old(state).own_id(),
{
}

/// A client is told all of a session but the guild's number.
pub proof fn law_told_state(session: SessionView, told: StateView)
    requires
        told == session.response(),
    ensures
        told.queue == session.queue,
        told.current == session.current,
        told.paused == session.paused,
        told.volume == session.volume,
        told.position_ms == session.position_ms,
        told.is_finished == session.is_finished,
        told.node == session.node,
{
}

/// The reply to a read tells the session and leaves it as it is.
pub proof fn law_as_response(state: &mut AstralinkState, guild_id: GuildId, r: StateResponse)
    requires
        call_ensures(AstralinkState::as_response, (state, guild_id), r),
    ensures
        ({
            let session = session_of(old(state).sessions(), guild_id);
            &&& final(state).sessions() == old(state).sessions().insert(guild_id, session)
            &&& r@.queue == session.queue
            &&& r@.current == session.current
            &&& r.paused == session.paused
            &&& r.volume == session.volume
            &&& r.position_ms == session.position_ms
            &&& r.is_finished == session.is_finished
            &&& r@.node == session.node
        }),
        final(state).own_id() == old(state).own_id(),
{
}

/// What a control leaves recorded is what its reply tells, for the guild it was given for, and
/// no other guild's session changes.
pub proof fn law_reply_tells_what_was_recorded(
    state: &mut AstralinkState,
    guild_id: GuildId,
    action: ActionRequest,
    r: StateResponse,
)
    requires
        call_ensures(AstralinkState::apply_action, (state, guild_id, action), r),
    ensures
        ({
            let after = final(state).sessions()[guild_id];
            &&& final(state).sessions() == old(state).sessions().insert(guild_id, after)
            &&& after.guild_id == session_of(old(state).sessions(), guild_id).guild_id
            &&& r@.queue == after.queue
            &&& r@.current == after.current
            &&& r.paused == after.paused
            &&& r.volume == after.volume
            &&& r.position_ms == after.position_ms
            &&& r.is_finished == after.is_finished
            &&& r@.node == after.node
        }),
        final(state).own_id() == old(state).own_id(),
{
}

/// Play goes on with the current track where it stands; without one it starts the head of the
/// queue from its beginning; without either it changes nothing but that the session is finished.
pub proof fn law_play(state: &mut AstralinkState, guild_id: GuildId, r: StateResponse)
    requires
        call_ensures(AstralinkState::apply_action, (state, guild_id, ActionRequest::Play), r),
    ensures
        ({
            let before = session_of(old(state).sessions(), guild_id);
            let after = final(state).sessions()[guild_id];
            &&& before.current is Some ==> after == (SessionView {
                paused: false,
                is_finished: false,
                ..before
            })
            &&& before.current is None && before.queue.len() > 0 ==> after == (SessionView {
                current: Some(before.queue[0].track),
                position_ms: 0,
                paused: false,
                is_finished: false,
                ..before
            })
            &&& before.current is None && before.queue.len() == 0 ==> after == (SessionView {
                is_finished: true,
                ..before
            })
        }),
{
}

/// Pause and resume set the pause mark and nothing else, but that a session is finished from then
/// on exactly if nothing plays and nothing is queued.
pub proof fn law_pause_and_resume(
    state: &mut AstralinkState,
    guild_id: GuildId,
    pause: bool,
    r: StateResponse,
)
    requires
        call_ensures(
            AstralinkState::apply_action,
            (
                state,
                guild_id,
                if pause {
                    ActionRequest::Pause
                } else {
                    ActionRequest::Resume
                },
            ),
            r,
        ),
    ensures
        ({
            let before = session_of(old(state).sessions(), guild_id);
            final(state).sessions()[guild_id] == (SessionView {
                paused: pause,
                is_finished: before.current is None && before.queue.len() == 0,
                ..before
            })
        }),
{
}

/// A skip takes the head off the queue and plays what then stands there from its beginning; with
/// nothing left, nothing plays and the session is finished. Pause mark, volume and node stay.
pub proof fn law_skip(state: &mut AstralinkState, guild_id: GuildId, r: StateResponse)
    requires
        call_ensures(AstralinkState::apply_action, (state, guild_id, ActionRequest::Skip), r),
    ensures
        ({
            let before = session_of(old(state).sessions(), guild_id);
            let after = final(state).sessions()[guild_id];
            &&& before.queue.len() > 1 ==> after == (SessionView {
                queue: before.queue.drop_first(),
                current: Some(before.queue[1].track),
                position_ms: 0,
                is_finished: false,
                ..before
            })
            &&& before.queue.len() <= 1 ==> after.queue.len() == 0 && after == (SessionView {
                queue: after.queue,
                current: None,
                position_ms: 0,
                is_finished: true,
                ..before
            })
        }),
{
    let before = session_of(old(state).sessions(), guild_id);
    assert(before.queue.skip(1) =~= before.queue.drop_first());
}

/// A stop leaves nothing queued, nothing playing and no pause, and finishes the session; volume
/// and node stay.
pub proof fn law_stop(state: &mut AstralinkState, guild_id: GuildId, r: StateResponse)
    requires
        call_ensures(AstralinkState::apply_action, (state, guild_id, ActionRequest::Stop), r),
    ensures
        ({
            let before = session_of(old(state).sessions(), guild_id);
            let after = final(state).sessions()[guild_id];
            after.queue.len() == 0 && after == (SessionView {
                queue: after.queue,
                current: None,
                position_ms: 0,
                paused: false,
                is_finished: true,
                ..before
            })
        }),
{
}

/// A clear empties the queue, takes the finished mark off and changes nothing else: what plays
/// plays on from where it is.
pub proof fn law_clear(state: &mut AstralinkState, guild_id: GuildId, r: StateResponse)
    requires
        call_ensures(AstralinkState::apply_action, (state, guild_id, ActionRequest::Clear), r),
    ensures
        ({
            let before = session_of(old(state).sessions(), guild_id);
            let after = final(state).sessions()[guild_id];
            after.queue.len() == 0 && after == (SessionView {
                queue: after.queue,
                is_finished: false,
                ..before
            })
        }),
{
}

/// Setting the volume sets it, to 150 at most, whatever plays, is queued or was set before, and
/// changes nothing else, but that the session is finished exactly if nothing plays and nothing is
/// queued.
pub proof fn law_set_volume(
    state: &mut AstralinkState,
    guild_id: GuildId,
    volume: u8,
    r: StateResponse,
)
    requires
        call_ensures(
            AstralinkState::apply_action,
            (state, guild_id, ActionRequest::SetVolume { volume }),
            r,
        ),
    ensures
        volume <= 150 ==> r.volume == volume,
        volume > 150 ==> r.volume == 150,
        ({
            let before = session_of(old(state).sessions(), guild_id);
            final(state).sessions()[guild_id] == (SessionView {
                volume: r.volume,
                is_finished: before.current is None && before.queue.len() == 0,
                ..before
            })
        }),
{
}

/// Where items are put into a queue: at the position that was asked for if it is inside the
/// queue, else after all others.
pub open spec fn insertion_point(queue: Seq<QueueItemView>, position: Option<usize>) -> int {
    if position is Some && position->0 < queue.len() {
        position->0 as int
    } else {
        queue.len() as int
    }
}

/// Queueing puts the items together and in their order where they belong, keeps everything that
/// was queued before and after them, starts the head of the queue if nothing played, and takes
/// the finished mark off. Position, pause mark, volume and node stay, and with no items
/// everything does.
pub proof fn law_enqueue(
    state: &mut AstralinkState,
    guild_id: GuildId,
    tracks: Vec<QueueItem>,
    position: Option<usize>,
    r: GuildSessionState,
)
    requires
        call_ensures(AstralinkState::enqueue, (state, guild_id, tracks, position), r),
    ensures
        ({
            let before = session_of(old(state).sessions(), guild_id);
            let items = tracks.deep_view();
            let at = insertion_point(before.queue, position);
            &&& final(state).sessions() == old(state).sessions().insert(guild_id, r@)
            &&& final(state).own_id() == old(state).own_id()
            &&& items.len() == 0 ==> r@ == before
            &&& items.len() > 0 ==> {
                &&& r@.queue.len() == before.queue.len() + items.len()
                &&& forall|i: int| 0 <= i < at ==> #[trigger] r@.queue[i] == before.queue[i]
                &&& forall|i: int|
                    at <= i < at + items.len() ==> #[trigger] r@.queue[i] == items[i - at]
                &&& forall|i: int|
                    at + items.len() <= i < r@.queue.len() ==> #[trigger] r@.queue[i]
                        == before.queue[i - items.len()]
                &&& before.current is Some ==> r@.current == before.current
                &&& before.current is None ==> r@.current == Some(r@.queue[0].track)
                &&& r@ == (SessionView {
                    queue: r@.queue,
                    current: r@.current,
                    is_finished: false,
                    ..before
                })
            }
        }),
{
}

/// The playing position moves on by the time given and by no more than can be held; nothing else
/// changes.
pub proof fn law_increment_position(
    state: &mut AstralinkState,
    guild_id: GuildId,
    delta_ms: u64,
)
    requires
        call_ensures(AstralinkState::increment_position_ms, (state, guild_id, delta_ms), ()),
    ensures
        ({
            let before = session_of(old(state).sessions(), guild_id);
            let after = final(state).sessions()[guild_id];
            &&& final(state).sessions() == old(state).sessions().insert(guild_id, after)
            &&& after == (SessionView { position_ms: after.position_ms, ..before })
            &&& before.position_ms + delta_ms <= u64::MAX ==> after.position_ms
                == before.position_ms + delta_ms
            &&& before.position_ms + delta_ms > u64::MAX ==> after.position_ms == u64::MAX
        }),
        final(state).own_id() == old(state).own_id(),
{
}

/// The current track that is told is the session's, and telling it changes nothing.
pub proof fn law_current_for(state: &mut AstralinkState, guild_id: GuildId, r: Option<Track>)
    requires
        call_ensures(AstralinkState::current_for, (state, guild_id), r),
    ensures
        ({
            let session = session_of(old(state).sessions(), guild_id);
            &&& r is None <==> session.current is None
            &&& r is Some ==> Some(r->0@) == session.current
            &&& final(state).sessions() == old(state).sessions().insert(guild_id, session)
        }),
        final(state).own_id() == old(state).own_id(),
{
}

/// At the end of a track the head leaves the queue and what then stands there plays; with nothing
/// left, nothing plays and the session is finished. Position, pause mark, volume and node stay.
pub proof fn law_track_end(state: &mut AstralinkState, guild_id: GuildId, r: Option<Track>)
    requires
        call_ensures(AstralinkState::advance_after_track_end, (state, guild_id), r),
    ensures
        ({
            let before = session_of(old(state).sessions(), guild_id);
            let after = final(state).sessions()[guild_id];
            &&& final(state).sessions() == old(state).sessions().insert(guild_id, after)
            &&& before.queue.len() > 1 ==> {
                &&& r is Some
                &&& r->0@ == before.queue[1].track
                &&& after == (SessionView {
                    queue: before.queue.drop_first(),
                    current: Some(before.queue[1].track),
                    ..before
                })
            }
            &&& before.queue.len() <= 1 ==> {
                &&& r is None
                &&& after.queue.len() == 0
                &&& after == (SessionView {
                    queue: after.queue,
                    current: None,
                    is_finished: true,
                    ..before
                })
            }
        }),
        final(state).own_id() == old(state).own_id(),
{
    let before = session_of(old(state).sessions(), guild_id);
    assert(before.queue.skip(1) =~= before.queue.drop_first());
}

/// A node that starts has met no guild.
pub proof fn law_new_state(node_id: String, r: AstralinkState, guild_id: GuildId, mine: bool)
    requires
        call_ensures(AstralinkState::new, (node_id,), r),
        call_ensures(AstralinkState::is_assigned_to_me, (&r, guild_id), mine),
    ensures
        !r.sessions().contains_key(guild_id),
        r.own_id() == node_id@,
        !mine,
{
}

} // verus!
