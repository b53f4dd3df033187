use astralink::model::NodeInfo;
use astralink::net::ipv6::{
    detected_block, global_candidates, parse_ipv6_global, random_source_addr, GlobalCandidate,
    Ipv6Block, Ipv6SetupError, SourceAddresses,
};
use astralink::net::node::{
    connected_guilds_count, get_active_nodes, heartbeat_info, pick_least_loaded, ConnectedGuilds,
};

const OUTPUT: &str = "1: lo: <LOOPBACK,UP> mtu 65536
    inet6 ::1/128 scope host
2: eth0: <BROADCAST,UP> mtu 1500
    inet6 2001:db8::5/128 scope global
       valid_lft forever preferred_lft forever
3: eth1: <BROADCAST,UP> mtu 1500
    inet6 2001:db8:1::7/64 scope global dynamic
    inet6 2001:db8:2::9/48 scope global
";

fn node(id: &str, free: usize) -> NodeInfo {
    NodeInfo {
        id: id.to_string(),
        host: "h".to_string(),
        http_port: 1,
        audio_port: 2,
        available_slots: free,
        total_slots: 10,
    }
}

fn addr(text: &str) -> Option<u128> {
    match text {
        "2001:db8::5" => Some(0x2001_0db8_0000_0000_0000_0000_0000_0005),
        "2001:db8:1::7" => Some(0x2001_0db8_0001_0000_0000_0000_0000_0007),
        "2001:db8:2::9" => Some(0x2001_0db8_0002_0000_0000_0000_0000_0009),
        _ => None,
    }
}

fn detect(output: &str) -> Option<(u128, u8, String)> {
    let candidates = global_candidates(output)?;
    let addrs: Vec<Option<u128>> = candidates.iter().map(|c| addr(&c.addr)).collect();
    parse_ipv6_global(&candidates, &addrs)
}

#[test]
fn the_first_global_address_with_a_prefix_is_found() {
    let (a, len, interface) = detect(OUTPUT).expect("an address");
    assert_eq!(Some(a), addr("2001:db8:1::7"));
    assert_eq!(len, 64);
    assert_eq!(interface, "eth1");
}

#[test]
fn address_lines_are_collected_up_to_the_first_prefix() {
    let c: Vec<GlobalCandidate> = global_candidates(OUTPUT).expect("candidates");
    assert_eq!(c.len(), 2);
    assert_eq!(c[0].addr, "2001:db8::5");
    assert_eq!(c[0].prefix_len, 128);
    assert_eq!(c[0].interface, "eth0");
    assert_eq!(c[1].addr, "2001:db8:1::7");
}

#[test]
fn an_output_without_an_address_gives_none() {
    assert!(detect("").is_none());
    assert!(detect("1: lo: <UP>\n inet6 ::1/128 scope host\n").is_none());
    assert!(detect("inet6 2001:db8::5/128 scope global").is_none());
    assert!(detect("inet6 2001:db8::5 scope global\ninet6 2001:db8::5/64 scope global").is_none());
    assert!(detect("inet6 nothing/128 scope global\ninet6 2001:db8::5/64 scope global").is_none());
    assert!(detect("inet6 2001:db8::5/300 scope global\ninet6 2001:db8::5/64 scope global")
        .is_none());
    assert_eq!(
        detect("inet6 2001:db8::5/64 scope global").map(|f| f.2),
        Some(String::new())
    );
}

#[test]
fn a_block_is_made_of_the_address() {
    match detected_block(Some((0x2001_0db8_0001_0000_0000_0000_0000_0007, 64, "e".to_string()))) {
        Ok(b) => {
            assert_eq!(b.prefix(), 0x2001_0db8_0001_0000_0000_0000_0000_0000);
            assert_eq!(b.prefix_len(), 64);
            assert_eq!(b.small_block_size(), None);
        }
        Err(e) => panic!("{}", e.message()),
    }
    match detected_block(None) {
        Err(e) => {
            assert_eq!(e, Ipv6SetupError::NoGlobalAddress);
            assert_eq!(
                e.message(),
                "no global-scope IPv6 address found on any interface"
            );
        }
        Ok(_) => panic!("an error was expected"),
    }
}

#[test]
fn small_blocks_are_counted() {
    assert_eq!(Ipv6Block::new(0, 96).small_block_size(), None);
    assert_eq!(Ipv6Block::new(0, 97).small_block_size(), Some(1 << 31));
    assert_eq!(Ipv6Block::new(0, 127).small_block_size(), Some(2));
}

#[test]
fn hosts_are_put_into_the_block() {
    let b = Ipv6Block::new(0xabcd_0000_0000_0000_0000_0000_0000_00ff, 120);
    assert_eq!(b.prefix(), 0xabcd_0000_0000_0000_0000_0000_0000_0000);
    assert_eq!(b.address_of(0x12), 0xabcd_0000_0000_0000_0000_0000_0000_0012);
    let all = Ipv6Block::new(u128::MAX, 0);
    assert_eq!(all.prefix(), 0);
    assert_eq!(all.address_of(u128::MAX), u128::MAX);
}

#[test]
fn drawn_addresses_lie_inside_the_block() {
    let b = Ipv6Block::new(0xabcd << 112, 126);
    let mut seen = [false, false, false, false];
    for _ in 0..200 {
        let a = b.random_addr();
        assert_eq!(a >> 2, (0xabcdu128 << 112) >> 2);
        seen[(a & 3) as usize] = true;
    }
    assert_eq!(seen, [false, true, true, false]);
    let any = Ipv6Block::new(0, 0).random_addr();
    assert!(any != 0 && any != u128::MAX);
}

#[test]
fn the_block_is_installed_once() {
    let mut sources = SourceAddresses::new();
    assert_eq!(random_source_addr(&sources), None);
    assert!(sources.install(Ipv6Block::new(7 << 64, 64)).is_ok());
    match sources.install(Ipv6Block::new(9 << 64, 64)) {
        Err(e) => {
            assert_eq!(e, Ipv6SetupError::AlreadyInitialized);
            assert_eq!(e.message(), "IPv6 block already initialized");
        }
        Ok(()) => panic!("an error was expected"),
    }
    assert_eq!(random_source_addr(&sources).map(|a| a >> 64), Some(7));
}

#[test]
fn connected_guilds_are_counted() {
    let mut connected = ConnectedGuilds::new();
    assert_eq!(connected_guilds_count(&connected), 0);
    connected.insert(1);
    connected.insert(2);
    connected.insert(1);
    assert_eq!(connected_guilds_count(&connected), 2);
    connected.remove(1);
    connected.remove(5);
    assert_eq!(connected_guilds_count(&connected), 1);
}

#[test]
fn a_heartbeat_tells_the_free_slots() {
    let mut connected = ConnectedGuilds::new();
    let me = node("me", 10);
    assert_eq!(heartbeat_info(&me, &connected).available_slots, 10);
    connected.insert(1);
    connected.insert(2);
    let info = heartbeat_info(&me, &connected);
    assert_eq!(info.available_slots, 8);
    assert_eq!(info.total_slots, 10);
    assert_eq!(info.id, "me");
    for g in 0..20 {
        connected.insert(g);
    }
    assert_eq!(heartbeat_info(&me, &connected).available_slots, 0);
}

#[test]
fn full_nodes_are_left_out() {
    let active = get_active_nodes(vec![
        Some(node("a", 0)),
        Some(node("b", 3)),
        None,
        Some(node("c", 0)),
        Some(node("d", 1)),
    ]);
    let ids: Vec<String> = active.into_iter().map(|n| n.id).collect();
    assert_eq!(ids, vec!["b", "d"]);
}

#[test]
fn the_last_node_with_the_most_slots_is_picked() {
    let nodes = || vec![node("a", 3), node("b", 5), node("c", 5), node("d", 0), node("e", 1)];
    assert_eq!(pick_least_loaded(nodes()).map(|n| n.id), Some("c".to_string()));
    assert_eq!(
        pick_least_loaded(get_active_nodes(nodes().into_iter().map(Some).collect())).map(|n| n.id),
        Some("c".to_string())
    );
    assert!(pick_least_loaded(vec![node("a", 0)]).is_none());
    assert!(pick_least_loaded(Vec::new()).is_none());
}
