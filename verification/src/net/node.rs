//! The nodes of the cluster: what a node says of itself and which one takes a new guild.
use vstd::prelude::*;
use dashmap::DashMap;
use crate::collections::{
    add_connected, connected_guilds, count_connected, drop_connected, new_connected,
};
use crate::model::{GuildId, NodeInfo, NodeView};
use crate::records::{keep_readable, readable};

verus! {

/// The seconds between two heartbeats.
pub const HEARTBEAT_INTERVAL_SECS: u64 = 10;

/// The seconds after which the list of nodes lapses unless a heartbeat renews it.
pub const EXPIRE_SECS: i64 = 30;

/// The seconds after which a node that sends no heartbeat is taken off the list.
pub const STALE_SECS: u64 = 60;

/// The guilds that the node is connected to.
#[derive(Debug)]
pub struct ConnectedGuilds {
    guilds: DashMap<GuildId, ()>,
}

impl ConnectedGuilds {
    /// The guilds that the node is connected to.
    pub closed spec fn ids(&self) -> Set<GuildId> {
        connected_guilds(self.guilds)
    }

    /// The node is connected to no guild.
    pub fn new() -> (r: Self)
        ensures
            r.ids() == Set::<GuildId>::empty(),
    {
        ConnectedGuilds { guilds: new_connected() }
    }

    /// Notes that the node is connected to the guild.
    pub fn insert(&mut self, guild_id: GuildId)
        ensures
            final(self).ids() == old(self).ids().insert(guild_id),
    {
        add_connected(&mut self.guilds, guild_id);
    }

    /// Notes that the node is no longer connected to the guild.
    pub fn remove(&mut self, guild_id: GuildId)
        ensures
            final(self).ids() == old(self).ids().remove(guild_id),
    {
        drop_connected(&mut self.guilds, guild_id);
    }
}

/// The number of guilds that the node is connected to.
pub fn connected_guilds_count(connected: &ConnectedGuilds) -> (r: usize)
    ensures
        r == connected.ids().len(),
{
    count_connected(&connected.guilds)
}

/// The free slots of a node with so many guilds.
pub open spec fn free_slots(total: usize, connected: nat) -> usize {
    if connected >= total {
        0
    } else {
        (total - connected) as usize
    }
}

/// What the node says of itself in a heartbeat: its free slots are those that its connected
/// guilds leave.
pub fn heartbeat_info(node_info: &NodeInfo, connected: &ConnectedGuilds) -> (r: NodeInfo)
    ensures
        r@ == (NodeView {
            available_slots: free_slots(node_info.total_slots, connected.ids().len()),
            ..node_info@
        }),
{
    let count: usize = connected_guilds_count(connected);
    let mut info = node_info.clone();
    info.available_slots = node_info.total_slots.saturating_sub(count);
    info
}

/// The nodes on the list that can take a guild, in their order. `None` stands for an entry that
/// could not be read.
pub fn get_active_nodes(members: Vec<Option<NodeInfo>>) -> (r: Vec<NodeInfo>)
    ensures
        r@ == readable(members@).filter(|n: NodeInfo| n.available_slots > 0),
{
    let nodes = keep_readable(members);
    let ghost active = |n: NodeInfo| n.available_slots > 0;
    let mut out: Vec<NodeInfo> = Vec::new();
    for i in 0..nodes.len()
        invariant
            active == (|n: NodeInfo| n.available_slots > 0),
            out@ == nodes@.take(i as int).filter(active),
    {
        proof {
            reveal(Seq::filter);
            assert(nodes@.take(i + 1).drop_last() =~= nodes@.take(i as int));
        }
        if nodes[i].available_slots > 0 {
            out.push(nodes[i].clone());
        }
    }
    assert(nodes@.take(nodes@.len() as int) =~= nodes@);
    out
}

/// Node `i` has the most free slots, at least one, and every later node has fewer.
pub open spec fn least_loaded(nodes: Seq<NodeInfo>, i: int) -> bool {
    &&& 0 <= i < nodes.len()
    &&& nodes[i].available_slots > 0
    &&& forall|j: int|
        0 <= j < nodes.len() ==> #[trigger] nodes[j].available_slots <= nodes[i].available_slots
    &&& forall|j: int|
        i < j < nodes.len() ==> #[trigger] nodes[j].available_slots < nodes[i].available_slots
}

/// No node has a free slot.
pub open spec fn all_full(nodes: Seq<NodeInfo>) -> bool {
    forall|i: int| 0 <= i < nodes.len() ==> #[trigger] nodes[i].available_slots == 0
}

/// The node that takes a new guild: the last of those with the most free slots. There is none
/// exactly when no node has a free slot.
pub fn pick_least_loaded(nodes: Vec<NodeInfo>) -> (r: Option<NodeInfo>)
    ensures
        match r {
            Some(node) => exists|i: int| #[trigger] least_loaded(nodes@, i) && node == nodes@[i],
            None => all_full(nodes@),
        },
{
    let mut best: Option<usize> = None;
    for i in 0..nodes.len()
        invariant
            match best {
                Some(b) => least_loaded(nodes@.take(i as int), b as int),
                None => forall|j: int| 0 <= j < i ==> #[trigger] nodes@[j].available_slots == 0,
            },
    {
        let ghost seen = nodes@.take(i as int);
        let ghost next = nodes@.take(i + 1);
        assert forall|j: int| 0 <= j < i implies #[trigger] next[j] == seen[j] by {}
        assert(next[i as int] == nodes@[i as int]);
        if nodes[i].available_slots > 0 {
            let better = match best {
                Some(b) => nodes[i].available_slots >= nodes[b].available_slots,
                None => true,
            };
            if better {
                best = Some(i);
                assert(least_loaded(next, i as int));
            } else {
                assert(least_loaded(next, best->0 as int));
            }
        } else {
            if let Some(b) = best {
                assert(least_loaded(next, b as int));
            }
        }
    }
    assert(nodes@.take(nodes@.len() as int) =~= nodes@);
    match best {
        Some(b) => Some(nodes[b].clone()),
        None => None,
    }
}

/// A heartbeat never claims more free slots than there are slots, and claims all that the
/// connected guilds leave.
pub proof fn law_slots_add_up(total: usize, connected: nat)
    ensures
        free_slots(total, connected) <= total,
        connected <= total ==> free_slots(total, connected) + connected == total,
        connected > total ==> free_slots(total, connected) == 0,
{
}

/// Nodes without a free slot do not bear on the choice: the node chosen among the active ones
/// is the one chosen among all.
pub proof fn law_full_nodes_do_not_matter(nodes: Seq<NodeInfo>, i: int, j: int)
    requires
        least_loaded(nodes, i),
        least_loaded(nodes.filter(|n: NodeInfo| n.available_slots > 0), j),
    ensures
        nodes.filter(|n: NodeInfo| n.available_slots > 0)[j] == nodes[i],
    decreases nodes.len(),
{
    reveal(Seq::filter);
    let active = |n: NodeInfo| n.available_slots > 0;
    let kept = nodes.filter(active);
    let fewer = nodes.drop_last();
    assert(kept == if active(nodes.last()) {
        fewer.filter(active).push(nodes.last())
    } else {
        fewer.filter(active)
    });
    nodes.lemma_filter_contains(active, i);
    let k = choose|k: int| 0 <= k < kept.len() && kept[k] == nodes[i];
    assert(kept[k].available_slots <= kept[j].available_slots);
    assert(kept.contains(kept[j]));
    nodes.lemma_filter_contains_rev(active, kept[j]);
    let m = choose|m: int| 0 <= m < nodes.len() && nodes[m] == kept[j];
    assert(nodes[m].available_slots <= nodes[i].available_slots);
    if i < nodes.len() - 1 {
        let rest = fewer.filter(active);
        assert forall|n: int| 0 <= n < fewer.len() implies #[trigger] fewer[n] == nodes[n] by {}
        assert forall|n: int| 0 <= n < rest.len() implies #[trigger] rest[n] == kept[n] by {}
        assert(least_loaded(fewer, i));
        assert(least_loaded(rest, j));
        law_full_nodes_do_not_matter(fewer, i, j);
    } else {
        assert(kept.last() == nodes.last());
        assert(j == kept.len() - 1);
    }
}

} // verus!
