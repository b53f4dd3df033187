//! Laws of the views and copies: a view shows every field of its value, and a copy is the value.
use vstd::prelude::*;
use crate::model::{GuildSessionState, NodeInfo, QueueItem, StateResponse, Track};

verus! {

/// A track's view shows each of its fields.
pub proof fn law_track_view(track: Track)
    ensures
        track@.id == track.id,
        track@.title == track.title@,
        track@.url == track.url@,
        track@.thumbnail == (match track.thumbnail {
            Some(t) => Some(t@),
            None => None,
        }),
        track@.duration_ms == track.duration_ms,
        track@.source == track.source,
        track@.original_url == (match track.original_url {
            Some(t) => Some(t@),
            None => None,
        }),
        track@.artist == (match track.artist {
            Some(t) => Some(t@),
            None => None,
        }),
{
}

/// A queued item's view shows its track and who asked for it.
pub proof fn law_queue_item_view(item: QueueItem)
    ensures
        item@.track == item.track@,
        item@.requested_by == item.requested_by,
{
}

/// A node's view shows each of its fields.
pub proof fn law_node_view(node: NodeInfo)
    ensures
        node@.id == node.id@,
        node@.host == node.host@,
        node@.http_port == node.http_port,
        node@.audio_port == node.audio_port,
        node@.available_slots == node.available_slots,
        node@.total_slots == node.total_slots,
{
}

/// A session's view shows each of its fields, its queue item by item.
pub proof fn law_session_view(session: GuildSessionState)
    ensures
        session@.guild_id == session.guild_id,
        session@.queue.len() == session.queue@.len(),
        forall|i: int|
            0 <= i < session.queue@.len() ==> #[trigger] session@.queue[i] == session.queue@[i]@,
        session@.current == (match session.current {
            Some(t) => Some(t@),
            None => None,
        }),
        session@.paused == session.paused,
        session@.volume == session.volume,
        session@.position_ms == session.position_ms,
        session@.is_finished == session.is_finished,
        session@.node == (match session.node {
            Some(n) => Some(n@),
            None => None,
        }),
{
}

/// The view of what a client is told shows each of its fields, its queue item by item.
pub proof fn law_state_view(told: StateResponse)
    ensures
        told@.queue.len() == told.queue@.len(),
        forall|i: int|
            0 <= i < told.queue@.len() ==> #[trigger] told@.queue[i] == told.queue@[i]@,
        told@.current == (match told.current {
            Some(t) => Some(t@),
            None => None,
        }),
        told@.paused == told.paused,
        told@.volume == told.volume,
        told@.position_ms == told.position_ms,
        told@.is_finished == told.is_finished,
        told@.node == (match told.node {
            Some(n) => Some(n@),
            None => None,
        }),
{
}

/// A copy of a track, an item or a node is the value itself.
pub proof fn law_copies(
    track: &Track,
    item: &QueueItem,
    node: &NodeInfo,
    of_track: Track,
    of_item: QueueItem,
    of_node: NodeInfo,
)
    requires
        call_ensures(Track::clone, (track,), of_track),
        call_ensures(QueueItem::clone, (item,), of_item),
        call_ensures(NodeInfo::clone, (node,), of_node),
    ensures
        of_track == *track,
        of_item == *item,
        of_node == *node,
{
}

/// What a client is told of a session is all of it but the guild's number.
pub proof fn law_state_response_of_session(session: &GuildSessionState, r: StateResponse)
    requires
        call_ensures(<StateResponse as From<&GuildSessionState>>::from, (session,), r),
    ensures
        r@.queue == session@.queue,
        r@.current == session@.current,
        r.paused == session.paused,
        r.volume == session.volume,
        r.position_ms == session.position_ms,
        r.is_finished == session.is_finished,
        r@.node == session@.node,
{
}

} // verus!
