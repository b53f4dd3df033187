use astralink::model::{GuildSessionState, QueueItem, Track, TrackSource};
use astralink::resolve::preload::PreloadSet;

fn session(ids: &[u128]) -> GuildSessionState {
    GuildSessionState {
        guild_id: 1,
        queue: ids
            .iter()
            .map(|id| QueueItem {
                track: Track {
                    id: *id,
                    title: String::new(),
                    url: String::new(),
                    thumbnail: None,
                    duration_ms: None,
                    source: TrackSource::Youtube,
                    original_url: None,
                    artist: None,
                },
                requested_by: 1,
            })
            .collect(),
        current: None,
        paused: false,
        volume: 100,
        position_ms: 0,
        is_finished: false,
        node: None,
    }
}

fn ids(tracks: Vec<Track>) -> Vec<u128> {
    tracks.into_iter().map(|t| t.id).collect()
}

#[test]
fn the_two_tracks_behind_the_head_are_resolved_ahead() {
    let mut set = PreloadSet::new();
    assert_eq!(ids(set.trigger_preload(&session(&[10, 11, 12, 13]))), vec![11, 12]);
}

#[test]
fn a_track_is_not_resolved_twice_at_a_time() {
    let mut set = PreloadSet::new();
    assert_eq!(ids(set.trigger_preload(&session(&[10, 11]))), vec![11]);
    assert_eq!(ids(set.trigger_preload(&session(&[10, 11, 12]))), vec![12]);
    set.finish(11);
    assert_eq!(ids(set.trigger_preload(&session(&[10, 11, 12]))), vec![11]);
    assert_eq!(ids(set.trigger_preload(&session(&[20, 21, 21]))), vec![21]);
}

#[test]
fn a_short_queue_has_nothing_to_resolve() {
    let mut set = PreloadSet::new();
    assert!(set.trigger_preload(&session(&[])).is_empty());
    assert!(set.trigger_preload(&session(&[1])).is_empty());
}
