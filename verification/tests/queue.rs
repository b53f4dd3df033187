use astralink::model::{
    ActionRequest, GuildSessionState, NodeInfo, QueueItem, StateResponse, Track, TrackSource,
};
use astralink::state::AstralinkState;

fn track(id: u128, title: &str) -> Track {
    Track {
        id,
        title: title.to_string(),
        url: format!("https://example.com/{title}"),
        thumbnail: None,
        duration_ms: Some(1000),
        source: TrackSource::Youtube,
        original_url: None,
        artist: None,
    }
}

fn items(titles: &[&str]) -> Vec<QueueItem> {
    titles
        .iter()
        .enumerate()
        .map(|(i, t)| QueueItem { track: track(i as u128 + 1, t), requested_by: 7 })
        .collect()
}

fn node(id: &str) -> NodeInfo {
    NodeInfo {
        id: id.to_string(),
        host: "0.0.0.0".to_string(),
        http_port: 9000,
        audio_port: 9001,
        available_slots: 100,
        total_slots: 100,
    }
}

fn titles(state: &StateResponse) -> Vec<String> {
    state.queue.iter().map(|i| i.track.title.clone()).collect()
}

fn current(state: &StateResponse) -> Option<String> {
    state.current.as_ref().map(|t| t.title.clone())
}

#[test]
fn a_new_guild_has_a_fresh_session() {
    let mut state = AstralinkState::new("node-a".to_string());
    let s = state.get_or_init(5);
    assert_eq!(s.guild_id, 5);
    assert!(s.queue.is_empty());
    assert!(s.current.is_none());
    assert!(!s.paused);
    assert_eq!(s.volume, 100);
    assert_eq!(s.position_ms, 0);
    assert!(!s.is_finished);
    assert!(s.node.is_none());
}

#[test]
fn what_was_recorded_is_read_and_other_guilds_stay() {
    let mut state = AstralinkState::new("node-a".to_string());
    let mut s = state.get_or_init(5);
    s.volume = 42;
    s.paused = true;
    s.queue = items(&["a", "b"]);
    state.set_state_async(&s);
    let read: GuildSessionState = state.get_or_init(5);
    assert_eq!(read.volume, 42);
    assert!(read.paused);
    assert_eq!(read.queue.len(), 2);
    assert_eq!(read.queue[1].track.title, "b");
    assert_eq!(state.get_or_init(6).volume, 100);
    let again = state.get_or_init(5);
    assert_eq!(again.volume, 42);
}

#[test]
fn a_node_is_assigned_and_forgotten() {
    let mut state = AstralinkState::new("node-a".to_string());
    state.assign_node(5, node("node-a"));
    assert!(!state.is_assigned_to_me(5));
    state.get_or_init(5);
    assert!(!state.is_assigned_to_me(5));
    state.assign_node(5, node("node-a"));
    assert!(state.is_assigned_to_me(5));
    state.assign_node(5, node("node-b"));
    assert!(!state.is_assigned_to_me(5));
    state.unassign_node(5);
    assert!(state.get_or_init(5).node.is_none());
    state.unassign_node(99);
    assert!(!state.is_assigned_to_me(99));
}

#[test]
fn items_are_queued_after_the_others() {
    let mut state = AstralinkState::new("n".to_string());
    let s = state.enqueue(1, items(&["a", "b"]), None);
    assert_eq!(s.current.as_ref().map(|t| t.title.as_str()), Some("a"));
    assert_eq!(s.queue.len(), 2);
    let s = state.enqueue(1, items(&["c"]), Some(2));
    assert_eq!(s.queue[2].track.title, "c");
    assert_eq!(s.queue[2].requested_by, 7);
    assert_eq!(s.current.as_ref().map(|t| t.title.as_str()), Some("a"));
}

#[test]
fn items_are_queued_at_a_position_in_their_order() {
    let mut state = AstralinkState::new("n".to_string());
    state.enqueue(1, items(&["a", "b", "c"]), None);
    state.enqueue(1, items(&["x", "y"]), Some(1));
    let r = state.as_response(1);
    assert_eq!(titles(&r), vec!["a", "x", "y", "b", "c"]);
    assert_eq!(current(&r), Some("a".to_string()));
}

#[test]
fn no_items_change_nothing() {
    let mut state = AstralinkState::new("n".to_string());
    state.apply_action(1, ActionRequest::Stop);
    let s = state.enqueue(1, Vec::new(), None);
    assert!(s.is_finished);
    assert!(s.queue.is_empty());
    let s = state.enqueue(1, items(&["a"]), None);
    assert!(!s.is_finished);
}

#[test]
fn play_starts_the_head_of_the_queue() {
    let mut state = AstralinkState::new("n".to_string());
    let mut s = state.get_or_init(1);
    s.queue = items(&["a", "b"]);
    s.paused = true;
    s.position_ms = 500;
    state.set_state_async(&s);
    let r = state.apply_action(1, ActionRequest::Play);
    assert_eq!(current(&r), Some("a".to_string()));
    assert_eq!(r.position_ms, 0);
    assert!(!r.paused);
    assert!(!r.is_finished);
}

#[test]
fn play_goes_on_with_the_current_track() {
    let mut state = AstralinkState::new("n".to_string());
    state.enqueue(1, items(&["a"]), None);
    state.increment_position_ms(1, 300);
    state.apply_action(1, ActionRequest::Pause);
    let r = state.apply_action(1, ActionRequest::Play);
    assert_eq!(r.position_ms, 300);
    assert!(!r.paused);
}

#[test]
fn play_with_nothing_to_play_finishes() {
    let mut state = AstralinkState::new("n".to_string());
    state.apply_action(1, ActionRequest::Pause);
    let r = state.apply_action(1, ActionRequest::Play);
    assert!(r.paused);
    assert!(r.is_finished);
}

#[test]
fn resume_undoes_pause() {
    let mut state = AstralinkState::new("n".to_string());
    state.enqueue(1, items(&["a"]), None);
    let paused = state.apply_action(1, ActionRequest::Pause);
    assert!(paused.paused);
    let resumed = state.apply_action(1, ActionRequest::Resume);
    assert!(!resumed.paused);
    assert_eq!(current(&resumed), Some("a".to_string()));
}

#[test]
fn skip_plays_the_next_item() {
    let mut state = AstralinkState::new("n".to_string());
    state.enqueue(1, items(&["a", "b"]), None);
    state.increment_position_ms(1, 300);
    let r = state.apply_action(1, ActionRequest::Skip);
    assert_eq!(titles(&r), vec!["b"]);
    assert_eq!(current(&r), Some("b".to_string()));
    assert_eq!(r.position_ms, 0);
    assert!(!r.is_finished);
    let r = state.apply_action(1, ActionRequest::Skip);
    assert!(r.current.is_none());
    assert!(r.is_finished);
    let r = state.apply_action(1, ActionRequest::Skip);
    assert!(r.is_finished);
}

#[test]
fn stop_leaves_nothing_and_stays() {
    let mut state = AstralinkState::new("n".to_string());
    state.enqueue(1, items(&["a", "b"]), None);
    state.apply_action(1, ActionRequest::Pause);
    let r = state.apply_action(1, ActionRequest::Stop);
    assert!(r.queue.is_empty());
    assert!(r.current.is_none());
    assert!(!r.paused);
    assert!(r.is_finished);
    let again = state.apply_action(1, ActionRequest::Stop);
    assert!(again.is_finished);
    assert!(again.queue.is_empty());
}

#[test]
fn clear_lets_the_current_track_play_on() {
    let mut state = AstralinkState::new("n".to_string());
    state.enqueue(1, items(&["a", "b"]), None);
    state.increment_position_ms(1, 300);
    let r = state.apply_action(1, ActionRequest::Clear);
    assert!(r.queue.is_empty());
    assert_eq!(current(&r), Some("a".to_string()));
    assert_eq!(r.position_ms, 300);
    assert!(!r.is_finished);
}

#[test]
fn clear_takes_the_finished_mark_off() {
    let mut state = AstralinkState::new("n".to_string());
    state.apply_action(1, ActionRequest::Stop);
    let r = state.apply_action(1, ActionRequest::Clear);
    assert!(!r.is_finished);
}

#[test]
fn the_volume_is_held_under_its_limit() {
    let mut state = AstralinkState::new("n".to_string());
    assert_eq!(state.apply_action(1, ActionRequest::SetVolume { volume: 30 }).volume, 30);
    assert_eq!(state.apply_action(1, ActionRequest::SetVolume { volume: 150 }).volume, 150);
    assert_eq!(state.apply_action(1, ActionRequest::SetVolume { volume: 151 }).volume, 150);
    assert_eq!(state.apply_action(1, ActionRequest::SetVolume { volume: 255 }).volume, 150);
    assert_eq!(state.apply_action(1, ActionRequest::SetVolume { volume: 0 }).volume, 0);
}

#[test]
fn the_position_saturates() {
    let mut state = AstralinkState::new("n".to_string());
    state.increment_position_ms(1, 20);
    state.increment_position_ms(1, 20);
    assert_eq!(state.as_response(1).position_ms, 40);
    state.increment_position_ms(1, u64::MAX);
    assert_eq!(state.as_response(1).position_ms, u64::MAX);
}

#[test]
fn tracks_play_in_the_order_of_the_queue() {
    let mut state = AstralinkState::new("n".to_string());
    state.enqueue(1, items(&["a", "b", "c"]), None);
    assert_eq!(state.current_for(1).map(|t| t.title), Some("a".to_string()));
    assert_eq!(state.advance_after_track_end(1).map(|t| t.title), Some("b".to_string()));
    assert_eq!(state.advance_after_track_end(1).map(|t| t.title), Some("c".to_string()));
    assert!(!state.as_response(1).is_finished);
    assert!(state.advance_after_track_end(1).is_none());
    assert!(state.as_response(1).is_finished);
    assert!(state.current_for(1).is_none());
    assert!(state.advance_after_track_end(1).is_none());
}

#[test]
fn the_end_of_a_track_keeps_the_position() {
    let mut state = AstralinkState::new("n".to_string());
    state.enqueue(1, items(&["a", "b"]), None);
    state.increment_position_ms(1, 300);
    state.advance_after_track_end(1);
    assert_eq!(state.as_response(1).position_ms, 300);
    state.apply_action(1, ActionRequest::Skip);
    assert_eq!(state.as_response(1).position_ms, 0);
}

#[test]
fn controls_keep_the_guild_and_the_node() {
    let mut state = AstralinkState::new("node-a".to_string());
    state.enqueue(1, items(&["a", "b"]), None);
    state.assign_node(1, node("node-a"));
    state.apply_action(1, ActionRequest::Skip);
    state.apply_action(1, ActionRequest::Stop);
    state.advance_after_track_end(1);
    let s = state.get_or_init(1);
    assert_eq!(s.guild_id, 1);
    assert_eq!(s.node.map(|n| n.id), Some("node-a".to_string()));
}

#[test]
fn an_item_put_before_the_head_does_not_interrupt() {
    let mut state = AstralinkState::new("n".to_string());
    state.enqueue(1, items(&["a", "b"]), None);
    state.enqueue(1, items(&["x"]), Some(0));
    let r = state.as_response(1);
    assert_eq!(current(&r), Some("a".to_string()));
    assert_eq!(titles(&r), vec!["x", "a", "b"]);
}

#[test]
fn a_response_holds_all_but_the_guild() {
    let s = GuildSessionState {
        guild_id: 3,
        queue: items(&["a"]),
        current: Some(track(9, "now")),
        paused: true,
        volume: 12,
        position_ms: 34,
        is_finished: false,
        node: Some(node("z")),
    };
    let r = StateResponse::from(&s);
    assert_eq!(titles(&r), vec!["a"]);
    assert_eq!(r.current.as_ref().map(|t| t.id), Some(9));
    assert!(r.paused);
    assert_eq!(r.volume, 12);
    assert_eq!(r.position_ms, 34);
    assert!(!r.is_finished);
    assert_eq!(r.node.map(|n| n.http_port), Some(9000));
}
