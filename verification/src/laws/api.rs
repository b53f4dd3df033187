//! Laws of the requests and their replies.
use vstd::prelude::*;
use crate::api::{
    begin_enqueue, begin_resolve, finish_enqueue, finish_resolve, greet, handle_action,
    handle_nodes, queue_items, resolve_route, soundcloud_failure, spotify_failure, EnqueueReply,
    EnqueueStart, Greeting, ResolveRoute, TrackQuery,
};
use crate::laws::state::insertion_point;
use crate::model::{
    ActionRequest, ActionResponse, EnqueueRequest, GuildId, NodeInfo, NodesResponse, QueueItem,
    ResolveRequest, ResolveResponse, ResolveSourceHint, SessionView, Track, UserId,
};
use crate::resolve::soundcloud::SoundcloudError;
use crate::resolve::spotify::SpotifyError;
use crate::resolve::ytdl::YtdlError;
use crate::state::{session_of, AstralinkState};
use crate::text::{has_prefix, has_text, trimmed};

verus! {

/// The service that tracks are asked of is the one that the hint names, YouTube without a hint,
/// whatever the query is. The query only tells whether a link is looked up: for YouTube one that
/// begins with `http://` or `https://`, for Spotify such a one that names `open.spotify.com`.
/// SoundCloud is asked in one way.
pub proof fn law_hint_chooses_the_service(
    query: &str,
    hint: Option<ResolveSourceHint>,
    r: ResolveRoute,
)
    requires
        call_ensures(resolve_route, (query, hint), r),
    ensures
        hint == Some(ResolveSourceHint::Soundcloud) <==> r == ResolveRoute::Soundcloud,
        hint == Some(ResolveSourceHint::Spotify) <==> r == ResolveRoute::SpotifyUrl || r
            == ResolveRoute::SpotifySearch,
        hint is None || hint == Some(ResolveSourceHint::Youtube) <==> r == ResolveRoute::YoutubeUrl
            || r == ResolveRoute::YoutubeSearch,
        ({
            let link = has_prefix(query@, "http://"@) || has_prefix(query@, "https://"@);
            &&& r == ResolveRoute::YoutubeUrl ==> link
            &&& r == ResolveRoute::YoutubeSearch ==> !link
            &&& r == ResolveRoute::SpotifyUrl ==> link && has_text(query@, "open.spotify.com"@)
            &&& r == ResolveRoute::SpotifySearch ==> !link || !has_text(
                query@,
                "open.spotify.com"@,
            )
        }),
{
}

/// A request without a hint goes where the same request with the hint YouTube goes.
pub proof fn law_no_hint_is_youtube(query: &str, a: ResolveRoute, b: ResolveRoute)
    requires
        call_ensures(resolve_route, (query, None), a),
        call_ensures(resolve_route, (query, Some(ResolveSourceHint::Youtube)), b),
    ensures
        a == b,
{
}

/// A request to find tracks asks for its trimmed query, by the route that the trimmed query and
/// the hint give; a blank one asks for nothing.
pub proof fn law_begin_resolve(
    body: &ResolveRequest,
    r: Option<TrackQuery>,
    query: &str,
    route: ResolveRoute,
)
    requires
        call_ensures(begin_resolve, (body,), r),
        call_ensures(resolve_route, (query, body.source), route),
        query@ == trimmed(body.query@),
    ensures
        r is None <==> query@.len() == 0,
        r is Some ==> r->0.query@ == query@ && r->0.route == route,
{
}

/// Found tracks are replied with the status 200, all of them and in their order; an error with
/// the status 502 and no tracks.
pub proof fn law_finish_resolve(
    found: Result<Vec<Track>, YtdlError>,
    r: (u16, ResolveResponse),
)
    requires
        call_ensures(finish_resolve, (found,), r),
    ensures
        found is Ok <==> r.0 == 200,
        found is Err <==> r.0 == 502,
        found is Ok ==> r.1.tracks@ == found->Ok_0@,
        found is Err ==> r.1.tracks@.len() == 0,
{
}

/// A blank request to queue tracks is told the state with the status 200 and the node's own
/// description; nothing is queued, announced or changed.
pub proof fn law_blank_enqueue(
    state: &mut AstralinkState,
    node_info: &NodeInfo,
    guild_id: GuildId,
    body: &EnqueueRequest,
    r: EnqueueStart,
)
    requires
        call_ensures(begin_enqueue, (state, node_info, guild_id, body), r),
        trimmed(body.query@).len() == 0,
    ensures
        r is Reply,
        ({
            let session = session_of(old(state).sessions(), guild_id);
            let reply = r->Reply_0;
            &&& reply.status == 200
            &&& !reply.queued
            &&& reply.response.success
            &&& reply.response.message is None
            &&& reply.response.node is Some && reply.response.node->0@ == node_info@
            &&& reply.response.state@.queue == session.queue
            &&& reply.response.state@.current == session.current
            &&& reply.response.state.paused == session.paused
            &&& reply.response.state.volume == session.volume
            &&& reply.response.state.position_ms == session.position_ms
            &&& reply.response.state.is_finished == session.is_finished
            &&& reply.response.state@.node == session.node
            &&& final(state).sessions() == old(state).sessions().insert(guild_id, session)
        }),
        final(state).own_id() == old(state).own_id(),
{
}

/// Any other request to queue tracks asks for its trimmed query by the route of the trimmed
/// query, remembers the node that served the guild, and prepares the session: a finished one
/// forgets what was queued and played and starts at nought, and one that no node serves is
/// served by this one. Pause mark and volume stay.
pub proof fn law_begin_enqueue(
    state: &mut AstralinkState,
    node_info: &NodeInfo,
    guild_id: GuildId,
    body: &EnqueueRequest,
    r: EnqueueStart,
    query: &str,
    route: ResolveRoute,
)
    requires
        call_ensures(begin_enqueue, (state, node_info, guild_id, body), r),
        call_ensures(resolve_route, (query, body.source), route),
        query@ == trimmed(body.query@),
        query@.len() > 0,
    ensures
        r is Find,
        r->wanted.query@ == query@,
        r->wanted.route == route,
        ({
            let before = session_of(old(state).sessions(), guild_id);
            let after = final(state).sessions()[guild_id];
            &&& final(state).sessions() == old(state).sessions().insert(guild_id, after)
            &&& r->node is None <==> before.node is None
            &&& r->node is Some ==> Some(r->node->0@) == before.node
            &&& after.guild_id == before.guild_id
            &&& after.paused == before.paused
            &&& after.volume == before.volume
            &&& !after.is_finished
            &&& before.node is Some ==> after.node == before.node
            &&& before.node is None ==> after.node == Some(node_info@)
            &&& !before.is_finished ==> after.queue == before.queue && after.current
                == before.current && after.position_ms == before.position_ms
            &&& before.is_finished ==> after.queue.len() == 0 && after.current is None
                && after.position_ms == 0
        }),
        final(state).own_id() == old(state).own_id(),
{
}

/// Tracks are queued in their order, each for the user who asked.
pub proof fn law_queue_items(tracks: Vec<Track>, user_id: UserId, r: Vec<QueueItem>)
    requires
        call_ensures(queue_items, (tracks, user_id), r),
    ensures
        r@.len() == tracks@.len(),
        forall|i: int|
            0 <= i < r@.len() ==> (#[trigger] r@[i]).track@ == tracks@[i]@ && r@[i].requested_by
                == user_id,
{
    assert(r.deep_view().len() == tracks.deep_view().len());
    assert(tracks.deep_view().len() == tracks@.len());
    assert forall|i: int| 0 <= i < r@.len() implies (#[trigger] r@[i]).track@ == tracks@[i]@
        && r@[i].requested_by == user_id by {
        assert(r.deep_view()[i] == r@[i]@);
        assert(tracks.deep_view()[i] == tracks@[i]@);
    }
}

/// Found tracks are queued where the request wants them and in their order, for the user who
/// asked; what was queued stays around them, and the head starts if nothing played. The reply
/// has the status 200 and tells the session, its node, or this node where it has none; the state
/// is announced.
pub proof fn law_finish_enqueue_with_tracks(
    state: &mut AstralinkState,
    node_info: &NodeInfo,
    guild_id: GuildId,
    body: &EnqueueRequest,
    node: Option<NodeInfo>,
    tracks: Vec<Track>,
    r: EnqueueReply,
)
    requires
        call_ensures(
            finish_enqueue,
            (state, node_info, guild_id, body, node, Ok::<Vec<Track>, YtdlError>(tracks)),
            r,
        ),
    ensures
        r.status == 200,
        r.queued,
        r.response.success,
        r.response.message is None,
        ({
            let before = session_of(old(state).sessions(), guild_id);
            let after = final(state).sessions()[guild_id];
            let at = insertion_point(before.queue, body.position);
            let n = tracks@.len() as int;
            &&& final(state).sessions() == old(state).sessions().insert(guild_id, after)
            &&& n == 0 ==> after == before
            &&& n > 0 ==> {
                &&& after.queue.len() == before.queue.len() + n
                &&& forall|i: int| 0 <= i < at ==> #[trigger] after.queue[i] == before.queue[i]
                &&& forall|i: int|
                    at <= i < at + n ==> (#[trigger] after.queue[i]).track == tracks@[i - at]@
                        && after.queue[i].requested_by == body.user_id
                &&& forall|i: int|
                    at + n <= i < after.queue.len() ==> #[trigger] after.queue[i]
                        == before.queue[i - n]
                &&& before.current is Some ==> after.current == before.current
                &&& before.current is None ==> after.current == Some(after.queue[0].track)
                &&& after == (SessionView {
                    queue: after.queue,
                    current: after.current,
                    is_finished: false,
                    ..before
                })
            }
            &&& r.response.state@.queue == after.queue
            &&& r.response.state@.current == after.current
            &&& r.response.state.paused == after.paused
            &&& r.response.state.volume == after.volume
            &&& r.response.state.position_ms == after.position_ms
            &&& r.response.state.is_finished == after.is_finished
            &&& r.response.state@.node == after.node
            &&& r.response.node is Some
            &&& after.node is Some ==> Some(r.response.node->0@) == after.node
            &&& after.node is None ==> r.response.node->0@ == node_info@
        }),
        final(state).own_id() == old(state).own_id(),
{
    let items = crate::api::items_of(tracks.deep_view(), body.user_id);
    assert forall|i: int| 0 <= i < items.len() implies (#[trigger] items[i]).track == tracks@[i]@
        && items[i].requested_by == body.user_id by {
        assert(tracks.deep_view()[i] == tracks@[i]@);
    }
}

/// An error is replied with the status 502, its message, the state as it is and the node that
/// served the guild before; nothing is queued, announced or changed.
pub proof fn law_finish_enqueue_with_error(
    state: &mut AstralinkState,
    node_info: &NodeInfo,
    guild_id: GuildId,
    body: &EnqueueRequest,
    node: Option<NodeInfo>,
    err: YtdlError,
    message: String,
    r: EnqueueReply,
)
    requires
        call_ensures(
            finish_enqueue,
            (state, node_info, guild_id, body, node, Err::<Vec<Track>, YtdlError>(err)),
            r,
        ),
        call_ensures(YtdlError::message, (&err,), message),
    ensures
        r.status == 502,
        !r.queued,
        !r.response.success,
        r.response.message is Some && r.response.message->0@ == message@,
        r.response.node == node,
        ({
            let session = session_of(old(state).sessions(), guild_id);
            &&& final(state).sessions() == old(state).sessions().insert(guild_id, session)
            &&& r.response.state@.queue == session.queue
            &&& r.response.state@.current == session.current
            &&& r.response.state.paused == session.paused
            &&& r.response.state.volume == session.volume
            &&& r.response.state.position_ms == session.position_ms
            &&& r.response.state.is_finished == session.is_finished
            &&& r.response.state@.node == session.node
        }),
        final(state).own_id() == old(state).own_id(),
{
}

/// A control is answered with what the control itself tells, and with the node that served the
/// guild before.
pub proof fn law_handle_action(
    state: &mut AstralinkState,
    other: &mut AstralinkState,
    guild_id: GuildId,
    action: ActionRequest,
    r: ActionResponse,
    told: crate::model::StateResponse,
)
    requires
        call_ensures(handle_action, (state, guild_id, action), r),
        call_ensures(AstralinkState::apply_action, (other, guild_id, action), told),
        *old(state) == *old(other),
    ensures
        r.ok,
        r.error is None,
        r.state is Some && r.state->0@ == told@,
        ({
            let before = session_of(old(state).sessions(), guild_id);
            &&& r.node is None <==> before.node is None
            &&& r.node is Some ==> Some(r.node->0@) == before.node
        }),
        final(state).sessions() == final(other).sessions(),
        final(state).own_id() == old(state).own_id(),
{
}

/// The node knows of one node, itself.
pub proof fn law_handle_nodes(node_info: &NodeInfo, r: NodesResponse)
    requires
        call_ensures(handle_nodes, (node_info,), r),
    ensures
        r.nodes@.len() == 1,
        r.nodes@[0]@ == node_info@,
{
    assert(r.nodes.deep_view().len() == 1);
    assert(r.nodes.deep_view()[0] == r.nodes@[0]@);
}

/// A follower is told the state unless another node serves the guild; a guild that no node serves
/// can be followed anywhere. Greeting a follower changes no session.
pub proof fn law_greet(
    state: &mut AstralinkState,
    node_info: &NodeInfo,
    guild_id: GuildId,
    r: Greeting,
)
    requires
        call_ensures(greet, (state, node_info, guild_id), r),
    ensures
        ({
            let session = session_of(old(state).sessions(), guild_id);
            let elsewhere = session.node is Some && session.node->0.id != node_info.id@;
            &&& r is WrongNode <==> elsewhere
            &&& r is WrongNode ==> r->WrongNode_0@ == "{\"error\": \"Wrong node\"}"@
            &&& r is Follow ==> {
                let told = r->Follow_0;
                &&& told@.queue == session.queue
                &&& told@.current == session.current
                &&& told.paused == session.paused
                &&& told.volume == session.volume
                &&& told.position_ms == session.position_ms
                &&& told.is_finished == session.is_finished
                &&& told@.node == session.node
            }
            &&& final(state).sessions() == old(state).sessions().insert(guild_id, session)
        }),
        final(state).own_id() == old(state).own_id(),
{
}

/// What Spotify or SoundCloud could not give is reported with the message of the error, as a
/// failed invocation.
pub proof fn law_failures_keep_the_message(
    spotify: &SpotifyError,
    soundcloud: &SoundcloudError,
    spotify_message: String,
    soundcloud_message: String,
    a: YtdlError,
    b: YtdlError,
)
    requires
        call_ensures(spotify_failure, (spotify,), a),
        call_ensures(soundcloud_failure, (soundcloud,), b),
        call_ensures(SpotifyError::message, (spotify,), spotify_message),
        call_ensures(SoundcloudError::message, (soundcloud,), soundcloud_message),
    ensures
        a is InvocationFailed && a->InvocationFailed_0@ == spotify_message@,
        b is InvocationFailed && b->InvocationFailed_0@ == soundcloud_message@,
{
}

} // verus!
