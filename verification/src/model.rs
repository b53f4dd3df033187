//! The tracks, sessions, nodes, requests and replies that the node deals in.
//!
//! Every type that holds text or a queue has a view: the same value over sequences.
use vstd::prelude::*;

verus! {

/// The number of a guild.
pub type GuildId = u64;

/// The number of a user.
pub type UserId = u64;

/// Where a track comes from.
#[derive(Debug, Clone, Copy, PartialEq, Eq, Structural)]
pub enum TrackSource {
    Youtube,
    Spotify,
    Soundcloud,
}

/// A playable track. `id` is the 128-bit value of its UUID.
#[derive(Debug)]
pub struct Track {
    pub id: u128,
    pub title: String,
    pub url: String,
    pub thumbnail: Option<String>,
    pub duration_ms: Option<u64>,
    pub source: TrackSource,
    pub original_url: Option<String>,
    pub artist: Option<String>,
}

/// A queued track and the user who asked for it.
#[derive(Debug)]
pub struct QueueItem {
    pub track: Track,
    pub requested_by: UserId,
}

/// All that the node knows of one guild's playback.
#[derive(Debug)]
pub struct GuildSessionState {
    pub guild_id: GuildId,
    pub queue: Vec<QueueItem>,
    pub current: Option<Track>,
    pub paused: bool,
    pub volume: u8,
    pub position_ms: u64,
    pub is_finished: bool,
    pub node: Option<NodeInfo>,
}

/// A request to find tracks.
#[derive(Debug, Clone)]
pub struct ResolveRequest {
    pub query: String,
    pub source: Option<ResolveSourceHint>,
}

/// Where a request wants its tracks from.
#[derive(Debug, Clone, Copy, PartialEq, Eq, Structural)]
pub enum ResolveSourceHint {
    Youtube,
    Spotify,
    Soundcloud,
}

/// A request to find tracks and queue them.
#[derive(Debug, Clone)]
pub struct EnqueueRequest {
    pub query: String,
    pub user_id: UserId,
    pub position: Option<usize>,
    pub source: Option<ResolveSourceHint>,
}

/// The tracks that were found.
#[derive(Debug, Clone)]
pub struct ResolveResponse {
    pub tracks: Vec<Track>,
}

/// What a client is told of a guild's playback.
#[derive(Debug)]
pub struct StateResponse {
    pub queue: Vec<QueueItem>,
    pub current: Option<Track>,
    pub paused: bool,
    pub volume: u8,
    pub position_ms: u64,
    pub is_finished: bool,
    pub node: Option<NodeInfo>,
}

/// A playback control.
#[derive(Debug, Clone, Copy, PartialEq, Eq, Structural)]
pub enum ActionRequest {
    Play,
    Pause,
    Resume,
    Skip,
    Stop,
    Clear,
    SetVolume { volume: u8 },
}

/// The reply to a playback control.
#[derive(Debug, Clone)]
pub struct ActionResponse {
    pub ok: bool,
    pub error: Option<String>,
    pub state: Option<StateResponse>,
    pub node: Option<NodeInfo>,
}

/// The reply to a request to queue tracks.
#[derive(Debug, Clone)]
pub struct EnqueueResponse {
    pub state: StateResponse,
    pub success: bool,
    pub message: Option<String>,
    pub node: Option<NodeInfo>,
}

/// A node, where it listens and how many guilds it can still take.
#[derive(Debug)]
pub struct NodeInfo {
    pub id: String,
    pub host: String,
    pub http_port: u16,
    pub audio_port: u16,
    pub available_slots: usize,
    pub total_slots: usize,
}

/// The nodes of the cluster.
#[derive(Debug, Clone)]
pub struct NodesResponse {
    pub nodes: Vec<NodeInfo>,
}

/// A track over sequences of characters.
#[verifier::ext_equal]
pub struct TrackView {
    pub id: u128,
    pub title: Seq<char>,
    pub url: Seq<char>,
    pub thumbnail: Option<Seq<char>>,
    pub duration_ms: Option<u64>,
    pub source: TrackSource,
    pub original_url: Option<Seq<char>>,
    pub artist: Option<Seq<char>>,
}

/// A queued track over sequences of characters.
#[verifier::ext_equal]
pub struct QueueItemView {
    pub track: TrackView,
    pub requested_by: UserId,
}

/// A node over sequences of characters.
#[verifier::ext_equal]
pub struct NodeView {
    pub id: Seq<char>,
    pub host: Seq<char>,
    pub http_port: u16,
    pub audio_port: u16,
    pub available_slots: usize,
    pub total_slots: usize,
}

/// A session over sequences.
#[verifier::ext_equal]
pub struct SessionView {
    pub guild_id: GuildId,
    pub queue: Seq<QueueItemView>,
    pub current: Option<TrackView>,
    pub paused: bool,
    pub volume: u8,
    pub position_ms: u64,
    pub is_finished: bool,
    pub node: Option<NodeView>,
}

/// What a client is told of a session, over sequences.
#[verifier::ext_equal]
pub struct StateView {
    pub queue: Seq<QueueItemView>,
    pub current: Option<TrackView>,
    pub paused: bool,
    pub volume: u8,
    pub position_ms: u64,
    pub is_finished: bool,
    pub node: Option<NodeView>,
}

impl SessionView {
    /// What a client is told of the session: all of it but the guild's number.
    pub open spec fn response(self) -> StateView {
        StateView {
            queue: self.queue,
            current: self.current,
            paused: self.paused,
            volume: self.volume,
            position_ms: self.position_ms,
            is_finished: self.is_finished,
            node: self.node,
        }
    }
}

impl View for Track {
    type V = TrackView;

    open spec fn view(&self) -> TrackView {
        TrackView {
            id: self.id,
            title: self.title@,
            url: self.url@,
            thumbnail: self.thumbnail.deep_view(),
            duration_ms: self.duration_ms,
            source: self.source,
            original_url: self.original_url.deep_view(),
            artist: self.artist.deep_view(),
        }
    }
}

impl DeepView for Track {
    type V = TrackView;

    open spec fn deep_view(&self) -> TrackView {
        self@
    }
}

impl View for QueueItem {
    type V = QueueItemView;

    open spec fn view(&self) -> QueueItemView {
        QueueItemView { track: self.track@, requested_by: self.requested_by }
    }
}

impl DeepView for QueueItem {
    type V = QueueItemView;

    open spec fn deep_view(&self) -> QueueItemView {
        self@
    }
}

impl View for NodeInfo {
    type V = NodeView;

    open spec fn view(&self) -> NodeView {
        NodeView {
            id: self.id@,
            host: self.host@,
            http_port: self.http_port,
            audio_port: self.audio_port,
            available_slots: self.available_slots,
            total_slots: self.total_slots,
        }
    }
}

impl DeepView for NodeInfo {
    type V = NodeView;

    open spec fn deep_view(&self) -> NodeView {
        self@
    }
}

impl View for GuildSessionState {
    type V = SessionView;

    open spec fn view(&self) -> SessionView {
        SessionView {
            guild_id: self.guild_id,
            queue: self.queue.deep_view(),
            current: self.current.deep_view(),
            paused: self.paused,
            volume: self.volume,
            position_ms: self.position_ms,
            is_finished: self.is_finished,
            node: self.node.deep_view(),
        }
    }
}

impl View for StateResponse {
    type V = StateView;

    open spec fn view(&self) -> StateView {
        StateView {
            queue: self.queue.deep_view(),
            current: self.current.deep_view(),
            paused: self.paused,
            volume: self.volume,
            position_ms: self.position_ms,
            is_finished: self.is_finished,
            node: self.node.deep_view(),
        }
    }
}

impl Clone for Track {
    fn clone(&self) -> (r: Self)
        ensures
            r == *self,
    {
        Track {
            id: self.id,
            title: self.title.clone(),
            url: self.url.clone(),
            thumbnail: self.thumbnail.clone(),
            duration_ms: self.duration_ms,
            source: self.source,
            original_url: self.original_url.clone(),
            artist: self.artist.clone(),
        }
    }
}

impl Clone for QueueItem {
    fn clone(&self) -> (r: Self)
        ensures
            r == *self,
    {
        QueueItem { track: self.track.clone(), requested_by: self.requested_by }
    }
}

impl Clone for NodeInfo {
    fn clone(&self) -> (r: Self)
        ensures
            r == *self,
    {
        NodeInfo {
            id: self.id.clone(),
            host: self.host.clone(),
            http_port: self.http_port,
            audio_port: self.audio_port,
            available_slots: self.available_slots,
            total_slots: self.total_slots,
        }
    }
}

/// A copy of the queue, item by item.
pub fn clone_queue(queue: &Vec<QueueItem>) -> (r: Vec<QueueItem>)
    ensures
        r@ == queue@,
{
    let r = queue.clone();
    assert(r@ =~= queue@);
    r
}

impl Clone for GuildSessionState {
    fn clone(&self) -> (r: Self)
        ensures
            r@ == self@,
    {
        GuildSessionState {
            guild_id: self.guild_id,
            queue: clone_queue(&self.queue),
            current: self.current.clone(),
            paused: self.paused,
            volume: self.volume,
            position_ms: self.position_ms,
            is_finished: self.is_finished,
            node: self.node.clone(),
        }
    }
}

impl Clone for StateResponse {
    fn clone(&self) -> (r: Self)
        ensures
            r@ == self@,
    {
        StateResponse {
            queue: clone_queue(&self.queue),
            current: self.current.clone(),
            paused: self.paused,
            volume: self.volume,
            position_ms: self.position_ms,
            is_finished: self.is_finished,
            node: self.node.clone(),
        }
    }
}

impl From<&GuildSessionState> for StateResponse {
    fn from(state: &GuildSessionState) -> (r: Self)
        ensures
            r@ == state@.response(),
    {
        StateResponse {
            queue: clone_queue(&state.queue),
            current: state.current.clone(),
            paused: state.paused,
            volume: state.volume,
            position_ms: state.position_ms,
            is_finished: state.is_finished,
            node: state.node.clone(),
        }
    }
}

impl vstd::std_specs::convert::FromSpecImpl<&GuildSessionState> for StateResponse {
    open spec fn obeys_from_spec() -> bool {
        false
    }

    open spec fn from_spec(state: &GuildSessionState) -> Self {
        arbitrary()
    }
}

} // verus!
