//! What the node replies to requests, and what each request does to the sessions.
//!
//! A request that needs tracks is handled in two parts: the first decides where the tracks come
//! from, the second takes the tracks, or the error in their place, and makes the reply.
use vstd::prelude::*;
use crate::model::{
    ActionRequest, ActionResponse, EnqueueRequest, EnqueueResponse, GuildId, NodeInfo, NodeView,
    NodesResponse, QueueItem, QueueItemView, ResolveRequest, ResolveResponse, ResolveSourceHint,
    SessionView, StateResponse, Track, TrackView, UserId,
};
use crate::resolve::soundcloud::SoundcloudError;
use crate::resolve::spotify::SpotifyError;
use crate::resolve::ytdl::YtdlError;
use crate::state::{
    acted, enqueued, keyed, law_enqueue_keeps_order, session_of, AstralinkState,
};
use crate::text::{contains, has_prefix, has_text, same, starts_with, trim, trimmed};

verus! {

/// The status of a reply that went well.
pub const STATUS_OK: u16 = 200;

/// The status of a reply for which no tracks could be had.
pub const STATUS_BAD_GATEWAY: u16 = 502;

/// Where tracks come from.
#[derive(Debug, Clone, Copy, PartialEq, Eq, Structural)]
pub enum ResolveRoute {
    /// The link is resolved.
    YoutubeUrl,
    /// YouTube is searched.
    YoutubeSearch,
    /// The link to Spotify is looked up.
    SpotifyUrl,
    /// Spotify is searched.
    SpotifySearch,
    /// SoundCloud is asked.
    Soundcloud,
}

/// The query is a link.
pub open spec fn is_http_url(query: Seq<char>) -> bool {
    has_prefix(query, "http://"@) || has_prefix(query, "https://"@)
}

/// Where the tracks of a trimmed query come from. Without a hint they come from YouTube.
pub open spec fn route_of(query: Seq<char>, hint: Option<ResolveSourceHint>) -> ResolveRoute {
    match hint {
        Some(ResolveSourceHint::Spotify) => if is_http_url(query) && has_text(
            query,
            "open.spotify.com"@,
        ) {
            ResolveRoute::SpotifyUrl
        } else {
            ResolveRoute::SpotifySearch
        },
        Some(ResolveSourceHint::Soundcloud) => ResolveRoute::Soundcloud,
        _ => if is_http_url(query) {
            ResolveRoute::YoutubeUrl
        } else {
            ResolveRoute::YoutubeSearch
        },
    }
}

/// Where the tracks of a trimmed query come from.
pub fn resolve_route(query: &str, hint: Option<ResolveSourceHint>) -> (r: ResolveRoute)
    ensures
        r == route_of(query@, hint),
{
    let is_http = starts_with(query, "http://") || starts_with(query, "https://");
    match hint {
        Some(ResolveSourceHint::Spotify) => if is_http && contains(query, "open.spotify.com") {
            ResolveRoute::SpotifyUrl
        } else {
            ResolveRoute::SpotifySearch
        },
        Some(ResolveSourceHint::Soundcloud) => ResolveRoute::Soundcloud,
        Some(ResolveSourceHint::Youtube) | None => if is_http {
            ResolveRoute::YoutubeUrl
        } else {
            ResolveRoute::YoutubeSearch
        },
    }
}

/// The error of a request that Spotify gave no tracks for.
pub fn spotify_failure(err: &SpotifyError) -> (r: YtdlError)
    ensures
        r matches YtdlError::InvocationFailed(why) && why@ == err.text(),
{
    YtdlError::InvocationFailed(err.message())
}

/// The error of a request that SoundCloud gave no tracks for.
pub fn soundcloud_failure(err: &SoundcloudError) -> (r: YtdlError)
    ensures
        r matches YtdlError::InvocationFailed(why) && why@ == err.text(),
{
    YtdlError::InvocationFailed(err.message())
}

/// A query and where its tracks come from.
#[derive(Debug)]
pub struct TrackQuery {
    pub query: String,
    pub route: ResolveRoute,
}

impl TrackQuery {
    /// The query is the trimmed text, and it goes where the hint sends it.
    pub open spec fn is_for(&self, text: Seq<char>, hint: Option<ResolveSourceHint>) -> bool {
        self.query@ == trimmed(text) && self.route == route_of(trimmed(text), hint)
    }
}

/// The first part of a request to find tracks: which to find. `None` if the query is blank; the
/// reply then names no tracks.
pub fn begin_resolve(body: &ResolveRequest) -> (r: Option<TrackQuery>)
    ensures
        match r {
            Some(wanted) => trimmed(body.query@).len() > 0 && wanted.is_for(
                body.query@,
                body.source,
            ),
            None => trimmed(body.query@).len() == 0,
        },
{
    let query = trim(&body.query);
    if query.as_str().is_empty() {
        return None;
    }
    let route = resolve_route(&query, body.source);
    Some(TrackQuery { query, route })
}

/// The second part of a request to find tracks: the status and the reply.
pub fn finish_resolve(found: Result<Vec<Track>, YtdlError>) -> (r: (u16, ResolveResponse))
    ensures
        match found {
            Ok(tracks) => r.0 == STATUS_OK && r.1.tracks == tracks,
            Err(_) => r.0 == STATUS_BAD_GATEWAY && r.1.tracks@.len() == 0,
        },
{
    match found {
        Ok(tracks) => (STATUS_OK, ResolveResponse { tracks }),
        Err(_) => (STATUS_BAD_GATEWAY, ResolveResponse { tracks: Vec::new() }),
    }
}

/// The session that tracks are queued into: a finished one starts over, and one that no node
/// serves is served by this one.
pub open spec fn prepared(session: SessionView, node: NodeView) -> SessionView {
    let reset = if session.is_finished {
        SessionView {
            is_finished: false,
            current: None,
            queue: Seq::empty(),
            position_ms: 0,
            ..session
        }
    } else {
        session
    };
    if reset.node is None {
        SessionView { node: Some(node), ..reset }
    } else {
        reset
    }
}

/// The reply to a request to queue tracks.
#[derive(Debug)]
pub struct EnqueueReply {
    pub status: u16,
    pub response: EnqueueResponse,
    /// Whether the clients are told the state, and the next tracks are resolved ahead.
    pub queued: bool,
}

/// What the first part of a request to queue tracks leads to.
#[derive(Debug)]
pub enum EnqueueStart {
    /// The reply is made at once.
    Reply(EnqueueReply),
    /// Tracks are to be found; `node` served the guild before the request.
    Find { wanted: TrackQuery, node: Option<NodeInfo> },
}

/// The first part of a request to queue tracks. A blank query is told the state; for any other
/// the session is prepared and tracks are to be found.
pub fn begin_enqueue(
    state: &mut AstralinkState,
    node_info: &NodeInfo,
    guild_id: GuildId,
    body: &EnqueueRequest,
) -> (r: EnqueueStart)
    ensures
        keyed(final(state).sessions()),
        ({
            let session = session_of(old(state).sessions(), guild_id);
            if trimmed(body.query@).len() == 0 {
                &&& r matches EnqueueStart::Reply(reply)
                &&& reply.status == STATUS_OK
                &&& reply.response.state@ == session.response()
                &&& reply.response.success
                &&& reply.response.message is None
                &&& reply.response.node.deep_view() == Some(node_info@)
                &&& !reply.queued
                &&& final(state).sessions() == old(state).sessions().insert(guild_id, session)
            } else {
                &&& r matches EnqueueStart::Find { wanted, node }
                &&& wanted.is_for(body.query@, body.source)
                &&& node.deep_view() == session.node
                &&& final(state).sessions() == old(state).sessions().insert(
                    guild_id,
                    prepared(session, node_info@),
                )
            }
        }),
        final(state).own_id() == old(state).own_id(),
{
    let query = trim(&body.query);
    if query.as_str().is_empty() {
        let current = state.as_response(guild_id);
        return EnqueueStart::Reply(
            EnqueueReply {
                status: STATUS_OK,
                response: EnqueueResponse {
                    state: current,
                    success: true,
                    message: None,
                    node: Some(node_info.clone()),
                },
                queued: false,
            },
        );
    }
    let full_state = state.get_or_init(guild_id);
    let mut session = full_state.clone();
    if session.is_finished {
        session.is_finished = false;
        session.current = None;
        session.queue.clear();
        session.position_ms = 0;
        assert(session.queue.deep_view() =~= Seq::<QueueItemView>::empty());
        state.set_state_async(&session);
    }
    let ghost reset = session@;
    assert(state.sessions() =~= old(state).sessions().insert(guild_id, reset));
    if session.node.is_none() {
        session.node = Some(node_info.clone());
        state.assign_node(guild_id, node_info.clone());
        state.set_state_async(&session);
    }
    assert(session@ =~= prepared(full_state@, node_info@));
    assert(state.sessions() =~= old(state).sessions().insert(guild_id, session@));
    let route = resolve_route(&query, body.source);
    EnqueueStart::Find { wanted: TrackQuery { query, route }, node: full_state.node }
}

/// The items that a user's tracks are queued as.
pub open spec fn items_of(tracks: Seq<TrackView>, user_id: UserId) -> Seq<QueueItemView> {
    tracks.map_values(|track: TrackView| QueueItemView { track, requested_by: user_id })
}

/// The items that a user's tracks are queued as.
pub fn queue_items(tracks: Vec<Track>, user_id: UserId) -> (r: Vec<QueueItem>)
    ensures
        r.deep_view() == items_of(tracks.deep_view(), user_id),
{
    let mut out: Vec<QueueItem> = Vec::new();
    let ghost all = items_of(tracks.deep_view(), user_id);
    for track in it: tracks
        invariant
            it.seq() == tracks@,
            all == items_of(tracks.deep_view(), user_id),
            out.deep_view() =~= all.take(it.index() as int),
    {
        let ghost before = out.deep_view();
        let ghost i = it.index() as int;
        out.push(QueueItem { track, requested_by: user_id });
        assert(out.deep_view() =~= before.push(all[i]));
        assert(out.deep_view() =~= all.take(i + 1));
    }
    assert(all.take(all.len() as int) =~= all);
    out
}

/// The second part of a request to queue tracks: the tracks that were found are queued, or the
/// error is reported. `node` served the guild before the request.
pub fn finish_enqueue(
    state: &mut AstralinkState,
    node_info: &NodeInfo,
    guild_id: GuildId,
    body: &EnqueueRequest,
    node: Option<NodeInfo>,
    found: Result<Vec<Track>, YtdlError>,
) -> (r: EnqueueReply)
    ensures
        ({
            let session = session_of(old(state).sessions(), guild_id);
            match found {
                Ok(tracks) => {
                    let after = enqueued(
                        session,
                        items_of(tracks.deep_view(), body.user_id),
                        body.position,
                    );
                    &&& r.status == STATUS_OK
                    &&& r.response.state@ == after.response()
                    &&& r.response.success
                    &&& r.response.message is None
                    &&& r.response.node.deep_view() == (if after.node is Some {
                        after.node
                    } else {
                        Some(node_info@)
                    })
                    &&& r.queued
                    &&& final(state).sessions() == old(state).sessions().insert(guild_id, after)
                },
                Err(err) => {
                    &&& r.status == STATUS_BAD_GATEWAY
                    &&& r.response.state@ == session.response()
                    &&& !r.response.success
                    &&& r.response.message.deep_view() == Some(err.text())
                    &&& r.response.node == node
                    &&& !r.queued
                    &&& final(state).sessions() == old(state).sessions().insert(guild_id, session)
                },
            }
        }),
        final(state).own_id() == old(state).own_id(),
        keyed(final(state).sessions()),
{
    match found {
        Ok(tracks) => {
            let items = queue_items(tracks, body.user_id);
            state.enqueue(guild_id, items, body.position);
            let ghost sessions = state.sessions();
            let after = state.as_response(guild_id);
            assert(state.sessions() =~= sessions);
            let served = match &after.node {
                Some(n) => n.clone(),
                None => node_info.clone(),
            };
            EnqueueReply {
                status: STATUS_OK,
                response: EnqueueResponse {
                    state: after,
                    success: true,
                    message: None,
                    node: Some(served),
                },
                queued: true,
            }
        },
        Err(err) => {
            let current = state.as_response(guild_id);
            EnqueueReply {
                status: STATUS_BAD_GATEWAY,
                response: EnqueueResponse {
                    state: current,
                    success: false,
                    message: Some(err.message()),
                    node,
                },
                queued: false,
            }
        },
    }
}

/// The reply to a playback control: the control is applied, and the reply names the node that
/// served the guild before.
pub fn handle_action(state: &mut AstralinkState, guild_id: GuildId, action: ActionRequest) -> (r:
    ActionResponse)
    ensures
        ({
            let session = session_of(old(state).sessions(), guild_id);
            &&& r.ok
            &&& r.error is None
            &&& r.state matches Some(told)
            &&& told@ == acted(session, action).response()
            &&& r.node.deep_view() == session.node
            &&& final(state).sessions() == old(state).sessions().insert(
                guild_id,
                acted(session, action),
            )
        }),
        final(state).own_id() == old(state).own_id(),
        keyed(final(state).sessions()),
{
    let full_state = state.get_or_init(guild_id);
    let after = state.apply_action(guild_id, action);
    assert(state.sessions() =~= old(state).sessions().insert(
        guild_id,
        acted(session_of(old(state).sessions(), guild_id), action),
    ));
    ActionResponse { ok: true, error: None, state: Some(after), node: full_state.node }
}

/// The nodes that this node knows of: itself.
pub fn handle_nodes(node_info: &NodeInfo) -> (r: NodesResponse)
    ensures
        r.nodes.deep_view() == seq![node_info@],
{
    let mut nodes: Vec<NodeInfo> = Vec::new();
    nodes.push(node_info.clone());
    assert(nodes.deep_view() =~= seq![node_info@]);
    NodesResponse { nodes }
}

/// What a client that wants to follow a guild is told first.
#[derive(Debug)]
pub enum Greeting {
    /// Another node serves the guild; the text says so and the connection is closed.
    WrongNode(String),
    /// The state of the guild's session; more follows.
    Follow(StateResponse),
}

/// What a client that wants to follow a guild is told first: the state, unless another node
/// serves the guild.
pub fn greet(state: &mut AstralinkState, node_info: &NodeInfo, guild_id: GuildId) -> (r: Greeting)
    ensures
        ({
            let session = session_of(old(state).sessions(), guild_id);
            if session.node matches Some(n) && n.id != node_info.id@ {
                r matches Greeting::WrongNode(text) && text@ == "{\"error\": \"Wrong node\"}"@
            } else {
                r matches Greeting::Follow(told) && told@ == session.response()
            }
        }),
        final(state).sessions() == old(state).sessions().insert(
            guild_id,
            session_of(old(state).sessions(), guild_id),
        ),
        final(state).own_id() == old(state).own_id(),
        keyed(final(state).sessions()),
{
    let told = state.as_response(guild_id);
    let wrong = match &told.node {
        Some(n) => !same(&n.id, &node_info.id),
        None => false,
    };
    if wrong {
        Greeting::WrongNode(String::from_str("{\"error\": \"Wrong node\"}"))
    } else {
        Greeting::Follow(told)
    }
}

/// A session that is prepared for tracks is not finished and is served by a node; one that was
/// neither finished nor without a node stays as it is. To prepare it again changes nothing.
pub proof fn law_prepared_session(session: SessionView, node: NodeView)
    ensures
        !prepared(session, node).is_finished,
        prepared(session, node).node is Some,
        prepared(session, node).guild_id == session.guild_id,
        prepared(session, node).volume == session.volume,
        !session.is_finished && session.node is Some ==> prepared(session, node) == session,
        prepared(prepared(session, node), node) == prepared(session, node),
{
}

/// Tracks that are queued for a finished session play from the first one on.
pub proof fn law_finished_session_starts_over(
    session: SessionView,
    node: NodeView,
    tracks: Seq<TrackView>,
    user_id: UserId,
    position: Option<usize>,
)
    requires
        session.is_finished,
        tracks.len() > 0,
    ensures
        ({
            let after = enqueued(prepared(session, node), items_of(tracks, user_id), position);
            &&& after.current == Some(tracks[0])
            &&& after.queue == items_of(tracks, user_id)
            &&& after.position_ms == 0
            &&& !after.is_finished
        }),
{
    let after = enqueued(prepared(session, node), items_of(tracks, user_id), position);
    assert(after.queue =~= items_of(tracks, user_id));
}

/// A request that queues tracks leaves something playing, in a session that is not finished and
/// that a node serves; a track that played before, in a session that was not finished, plays on.
pub proof fn law_queued_tracks_play(
    session: SessionView,
    node: NodeView,
    tracks: Seq<TrackView>,
    user_id: UserId,
    position: Option<usize>,
)
    requires
        tracks.len() > 0,
    ensures
        ({
            let after = enqueued(prepared(session, node), items_of(tracks, user_id), position);
            &&& after.current is Some
            &&& !after.is_finished
            &&& after.node is Some
            &&& !session.is_finished && session.current is Some ==> after.current
                == session.current
        }),
{
    law_enqueue_keeps_order(prepared(session, node), items_of(tracks, user_id), position);
}

} // verus!
