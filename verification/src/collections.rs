//! The maps and sets of the `dashmap` crate that the node keeps its records in.
//!
//! A `DashMap` can be written through a shared reference. Here every write goes through an
//! exclusive one, and the fields that hold the maps are private, so between two calls the
//! contents of a map stay what the last write left.
use vstd::prelude::*;
use dashmap::DashMap;
use dashmap::DashSet;
use crate::model::{GuildId, GuildSessionState, SessionView};
use crate::resolve::ytdl::{CachedTrack, CachedView};

verus! {

/// `dashmap::DashMap`, a concurrent hash map.
#[verifier::external_type_specification]
#[verifier::external_body]
#[verifier::reject_recursive_types(K)]
#[verifier::reject_recursive_types(V)]
#[verifier::reject_recursive_types(S)]
pub struct ExDashMap<K, V, S>(dashmap::DashMap<K, V, S>);

/// `dashmap::DashSet`, a concurrent hash set.
#[verifier::external_type_specification]
#[verifier::external_body]
#[verifier::reject_recursive_types(K)]
#[verifier::reject_recursive_types(S)]
pub struct ExDashSet<K, S>(dashmap::DashSet<K, S>);

/// The sessions that a map holds, by guild.
pub uninterp spec fn guild_sessions(m: DashMap<GuildId, GuildSessionState>) -> Map<
    GuildId,
    SessionView,
>;

/// A record of no sessions.
pub open spec fn no_sessions() -> Map<GuildId, SessionView> {
    Map::empty()
}

/// `DashMap::new` makes an empty map.
#[verifier::external_body]
pub(crate) fn new_sessions() -> (m: DashMap<GuildId, GuildSessionState>)
    ensures
        guild_sessions(m) == no_sessions(),
{
    DashMap::new()
}

/// `DashMap::get` finds the value that the key is mapped to, if it is mapped; the caller gets
/// a copy of it.
#[verifier::external_body]
pub(crate) fn find_session(
    m: &DashMap<GuildId, GuildSessionState>,
    guild_id: GuildId,
) -> (r: Option<GuildSessionState>)
    ensures
        match r {
            Some(s) => guild_sessions(*m).contains_key(guild_id) && s@ == guild_sessions(
                *m,
            )[guild_id],
            None => !guild_sessions(*m).contains_key(guild_id),
        },
{
    m.get(&guild_id).map(|entry| entry.value().clone())
}

/// `DashMap::insert` maps the key to the value, in place of what the key was mapped to.
#[verifier::external_body]
pub(crate) fn put_session(
    m: &mut DashMap<GuildId, GuildSessionState>,
    guild_id: GuildId,
    state: GuildSessionState,
)
    ensures
        guild_sessions(*final(m)) == guild_sessions(*old(m)).insert(guild_id, state@),
{
    m.insert(guild_id, state);
}

/// The guilds that a map has as keys.
pub uninterp spec fn connected_guilds(m: DashMap<GuildId, ()>) -> Set<GuildId>;

/// `DashMap::new` makes an empty map.
#[verifier::external_body]
pub(crate) fn new_connected() -> (m: DashMap<GuildId, ()>)
    ensures
        connected_guilds(m) == Set::<GuildId>::empty(),
{
    DashMap::new()
}

/// `DashMap::insert` adds the key.
#[verifier::external_body]
pub(crate) fn add_connected(m: &mut DashMap<GuildId, ()>, guild_id: GuildId)
    ensures
        connected_guilds(*final(m)) == connected_guilds(*old(m)).insert(guild_id),
{
    m.insert(guild_id, ());
}

/// `DashMap::remove` takes the key out, if it is there.
#[verifier::external_body]
pub(crate) fn drop_connected(m: &mut DashMap<GuildId, ()>, guild_id: GuildId)
    ensures
        connected_guilds(*final(m)) == connected_guilds(*old(m)).remove(guild_id),
{
    m.remove(&guild_id);
}

/// `DashMap::contains_key` tells whether the key is there.
#[verifier::external_body]
pub(crate) fn has_connected(m: &DashMap<GuildId, ()>, guild_id: GuildId) -> (r: bool)
    ensures
        r == connected_guilds(*m).contains(guild_id),
{
    m.contains_key(&guild_id)
}

/// `DashMap::len` counts the keys.
#[verifier::external_body]
pub(crate) fn count_connected(m: &DashMap<GuildId, ()>) -> (r: usize)
    ensures
        r == connected_guilds(*m).len(),
{
    m.len()
}

/// The resolved tracks that a map holds, by search.
pub uninterp spec fn cached_tracks(m: DashMap<String, CachedTrack>) -> Map<Seq<char>, CachedView>;

/// A record of no resolved tracks.
pub open spec fn no_tracks() -> Map<Seq<char>, CachedView> {
    Map::empty()
}

/// `DashMap::new` makes an empty map.
#[verifier::external_body]
pub(crate) fn new_cache() -> (m: DashMap<String, CachedTrack>)
    ensures
        cached_tracks(m) == no_tracks(),
{
    DashMap::new()
}

/// `DashMap::get` finds the value that the key is mapped to, if it is mapped; the caller gets
/// a copy of it.
#[verifier::external_body]
pub(crate) fn find_cached(m: &DashMap<String, CachedTrack>, key: &str) -> (r: Option<CachedTrack>)
    ensures
        match r {
            Some(c) => cached_tracks(*m).contains_key(key@) && c@ == cached_tracks(*m)[key@],
            None => !cached_tracks(*m).contains_key(key@),
        },
{
    m.get(key).map(|entry| entry.value().clone())
}

/// `DashMap::insert` maps the key to the value, in place of what the key was mapped to.
#[verifier::external_body]
pub(crate) fn put_cached(m: &mut DashMap<String, CachedTrack>, key: String, cached: CachedTrack)
    ensures
        cached_tracks(*final(m)) == cached_tracks(*old(m)).insert(key@, cached@),
{
    m.insert(key, cached);
}

/// `DashMap::remove` takes the key and its value out, if the key is mapped.
#[verifier::external_body]
pub(crate) fn drop_cached(m: &mut DashMap<String, CachedTrack>, key: &str)
    ensures
        cached_tracks(*final(m)) == cached_tracks(*old(m)).remove(key@),
{
    m.remove(key);
}

/// The track identifiers that a set holds.
pub uninterp spec fn preloading_ids(s: DashSet<u128>) -> Set<u128>;

/// `DashSet::new` makes an empty set.
#[verifier::external_body]
pub(crate) fn new_preloading() -> (s: DashSet<u128>)
    ensures
        preloading_ids(s) == Set::<u128>::empty(),
{
    DashSet::new()
}

/// `DashSet::contains` tells whether the identifier is in the set.
#[verifier::external_body]
pub(crate) fn has_preloading(s: &DashSet<u128>, id: u128) -> (r: bool)
    ensures
        r == preloading_ids(*s).contains(id),
{
    s.contains(&id)
}

/// `DashSet::insert` adds the identifier.
#[verifier::external_body]
pub(crate) fn add_preloading(s: &mut DashSet<u128>, id: u128)
    ensures
        preloading_ids(*final(s)) == preloading_ids(*old(s)).insert(id),
{
    s.insert(id);
}

/// `DashSet::remove` takes the identifier out, if it is there.
#[verifier::external_body]
pub(crate) fn drop_preloading(s: &mut DashSet<u128>, id: u128)
    ensures
        preloading_ids(*final(s)) == preloading_ids(*old(s)).remove(id),
{
    s.remove(&id);
}

} // verus!
