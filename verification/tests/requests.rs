use astralink::api::{
    begin_enqueue, begin_resolve, finish_enqueue, finish_resolve, greet, handle_action,
    handle_nodes, queue_items, resolve_route, soundcloud_failure, spotify_failure, EnqueueStart,
    Greeting, ResolveRoute,
};
use astralink::model::{
    ActionRequest, EnqueueRequest, NodeInfo, ResolveRequest, ResolveSourceHint, Track,
    TrackSource,
};
use astralink::resolve::soundcloud::SoundcloudError;
use astralink::resolve::spotify::SpotifyError;
use astralink::resolve::ytdl::YtdlError;
use astralink::state::AstralinkState;

fn track(title: &str) -> Track {
    Track {
        id: 1,
        title: title.to_string(),
        url: String::new(),
        thumbnail: None,
        duration_ms: None,
        source: TrackSource::Youtube,
        original_url: None,
        artist: None,
    }
}

fn node(id: &str) -> NodeInfo {
    NodeInfo {
        id: id.to_string(),
        host: "h".to_string(),
        http_port: 1,
        audio_port: 2,
        available_slots: 3,
        total_slots: 4,
    }
}

fn body(query: &str) -> EnqueueRequest {
    EnqueueRequest { query: query.to_string(), user_id: 77, position: None, source: None }
}

#[test]
fn queries_go_where_the_hint_sends_them() {
    let yt = Some(ResolveSourceHint::Youtube);
    let sp = Some(ResolveSourceHint::Spotify);
    let sc = Some(ResolveSourceHint::Soundcloud);
    assert_eq!(resolve_route("https://youtu.be/1", None), ResolveRoute::YoutubeUrl);
    assert_eq!(resolve_route("http://youtu.be/1", yt), ResolveRoute::YoutubeUrl);
    assert_eq!(resolve_route("HTTP://youtu.be/1", yt), ResolveRoute::YoutubeSearch);
    assert_eq!(resolve_route("song", None), ResolveRoute::YoutubeSearch);
    assert_eq!(resolve_route("https://open.spotify.com/track/1", sp), ResolveRoute::SpotifyUrl);
    assert_eq!(resolve_route("open.spotify.com/track/1", sp), ResolveRoute::SpotifySearch);
    assert_eq!(resolve_route("https://youtu.be/1", sp), ResolveRoute::SpotifySearch);
    assert_eq!(resolve_route("https://open.spotify.com/track/1", None), ResolveRoute::YoutubeUrl);
    assert_eq!(resolve_route("https://x", sc), ResolveRoute::Soundcloud);
}

#[test]
fn a_request_to_resolve_is_trimmed() {
    let r = ResolveRequest { query: "  song ".to_string(), source: None };
    let wanted = begin_resolve(&r).expect("a query");
    assert_eq!(wanted.query, "song");
    assert_eq!(wanted.route, ResolveRoute::YoutubeSearch);
    let blank = ResolveRequest { query: " \n".to_string(), source: None };
    assert!(begin_resolve(&blank).is_none());
}

#[test]
fn a_resolve_reply_has_a_status() {
    let (status, reply) = finish_resolve(Ok(vec![track("a")]));
    assert_eq!(status, 200);
    assert_eq!(reply.tracks.len(), 1);
    let (status, reply) = finish_resolve(Err(YtdlError::MissingBinary));
    assert_eq!(status, 502);
    assert!(reply.tracks.is_empty());
}

#[test]
fn other_errors_are_wrapped() {
    assert_eq!(
        spotify_failure(&SpotifyError::NotConfigured).message(),
        "yt-dlp invocation failed: spotify is not configured"
    );
    assert_eq!(
        soundcloud_failure(&SoundcloudError::RequestFailed("x".to_string())).message(),
        "yt-dlp invocation failed: soundcloud request failed: x"
    );
}

#[test]
fn a_blank_query_is_told_the_state() {
    let mut state = AstralinkState::new("me".to_string());
    match begin_enqueue(&mut state, &node("me"), 1, &body("  ")) {
        EnqueueStart::Reply(r) => {
            assert_eq!(r.status, 200);
            assert!(!r.queued);
            assert!(r.response.success);
            assert!(r.response.message.is_none());
            assert_eq!(r.response.node.map(|n| n.id), Some("me".to_string()));
            assert!(r.response.state.node.is_none());
        }
        EnqueueStart::Find { .. } => panic!("a reply was expected"),
    }
}

#[test]
fn a_blank_query_keeps_a_finished_session() {
    let mut state = AstralinkState::new("n1".to_string());
    state.apply_action(1, ActionRequest::Stop);
    match begin_enqueue(&mut state, &node("n1"), 1, &body("  ")) {
        EnqueueStart::Reply(r) => {
            assert_eq!(r.status, 200);
            assert!(r.response.state.is_finished);
            assert_eq!(r.response.state.volume, 100);
            assert!(r.response.state.queue.is_empty());
        }
        EnqueueStart::Find { .. } => panic!("a reply was expected"),
    }
    assert!(state.as_response(1).is_finished);
    assert!(state.as_response(1).node.is_none());
}

#[test]
fn tracks_are_found_and_queued() {
    let mut state = AstralinkState::new("me".to_string());
    let b = body(" song ");
    let before = match begin_enqueue(&mut state, &node("me"), 1, &b) {
        EnqueueStart::Find { wanted, node } => {
            assert_eq!(wanted.query, "song");
            assert_eq!(wanted.route, ResolveRoute::YoutubeSearch);
            assert!(node.is_none());
            node
        }
        EnqueueStart::Reply(_) => panic!("a search was expected"),
    };
    assert!(state.is_assigned_to_me(1));
    let reply = finish_enqueue(
        &mut state,
        &node("me"),
        1,
        &b,
        before,
        Ok(vec![track("a"), track("b")]),
    );
    assert_eq!(reply.status, 200);
    assert!(reply.queued);
    assert!(reply.response.success);
    assert_eq!(reply.response.state.queue.len(), 2);
    assert_eq!(reply.response.state.queue[0].requested_by, 77);
    assert_eq!(reply.response.state.current.map(|t| t.title), Some("a".to_string()));
    assert_eq!(reply.response.node.map(|n| n.id), Some("me".to_string()));
}

#[test]
fn a_failed_search_is_told() {
    let mut state = AstralinkState::new("me".to_string());
    let b = body("song");
    let before = match begin_enqueue(&mut state, &node("me"), 1, &b) {
        EnqueueStart::Find { node, .. } => node,
        EnqueueStart::Reply(_) => panic!("a search was expected"),
    };
    let err = Err(YtdlError::InvocationFailed("x".to_string()));
    let reply = finish_enqueue(&mut state, &node("me"), 1, &b, before, err);
    assert_eq!(reply.status, 502);
    assert!(!reply.queued);
    assert!(!reply.response.success);
    assert_eq!(reply.response.message.as_deref(), Some("yt-dlp invocation failed: x"));
    assert!(reply.response.node.is_none());
    assert!(reply.response.state.queue.is_empty());
}

#[test]
fn a_finished_session_starts_over() {
    let mut state = AstralinkState::new("me".to_string());
    state.enqueue(1, queue_items(vec![track("old")], 5), None);
    let mut s = state.get_or_init(1);
    s.is_finished = true;
    s.position_ms = 99;
    state.set_state_async(&s);
    let b = body("song");
    begin_enqueue(&mut state, &node("me"), 1, &b);
    let s = state.get_or_init(1);
    assert!(!s.is_finished);
    assert!(s.current.is_none());
    assert!(s.queue.is_empty());
    assert_eq!(s.position_ms, 0);
    assert_eq!(s.volume, 100);
    let reply = finish_enqueue(&mut state, &node("me"), 1, &b, None, Ok(vec![track("new")]));
    assert_eq!(reply.response.state.current.map(|t| t.title), Some("new".to_string()));
}

#[test]
fn a_served_session_keeps_its_node() {
    let mut state = AstralinkState::new("me".to_string());
    state.get_or_init(1);
    state.assign_node(1, node("other"));
    match begin_enqueue(&mut state, &node("me"), 1, &body("song")) {
        EnqueueStart::Find { node, .. } => {
            assert_eq!(node.map(|n| n.id), Some("other".to_string()));
        }
        EnqueueStart::Reply(_) => panic!("a search was expected"),
    }
    assert!(!state.is_assigned_to_me(1));
}

#[test]
fn a_control_is_answered() {
    let mut state = AstralinkState::new("me".to_string());
    let r = handle_action(&mut state, 1, ActionRequest::SetVolume { volume: 20 });
    assert!(r.ok);
    assert!(r.error.is_none());
    assert!(r.node.is_none());
    assert_eq!(r.state.map(|s| s.volume), Some(20));
    assert_eq!(state.as_response(1).volume, 20);
}

#[test]
fn the_node_names_itself() {
    let r = handle_nodes(&node("me"));
    assert_eq!(r.nodes.len(), 1);
    assert_eq!(r.nodes[0].id, "me");
    assert_eq!(r.nodes[0].available_slots, 3);
}

#[test]
fn a_follower_is_greeted_by_the_right_node() {
    let mut state = AstralinkState::new("me".to_string());
    match greet(&mut state, &node("me"), 1) {
        Greeting::Follow(s) => assert_eq!(s.volume, 100),
        Greeting::WrongNode(_) => panic!("the state was expected"),
    }
    state.assign_node(1, node("other"));
    match greet(&mut state, &node("me"), 1) {
        Greeting::WrongNode(text) => assert_eq!(text, r#"{"error": "Wrong node"}"#),
        Greeting::Follow(_) => panic!("a refusal was expected"),
    }
    state.assign_node(1, node("me"));
    assert!(matches!(greet(&mut state, &node("me"), 1), Greeting::Follow(_)));
}
