use constellation_client::config::MulticastClientConfig;
use constellation_client::config::UnicastClientConfig;

#[test]
fn multicast_config_gives_back_its_parts() {
    let config = MulticastClientConfig::new(
        String::from("node-a"),
        vec![1u32, 2, 3],
        7u64,
    );
    assert_eq!(config.self_party(), "node-a");
    assert_eq!(config.multicast(), &vec![1u32, 2, 3]);
    let (party, bus, session) = config.take();
    assert_eq!(party, "node-a");
    assert_eq!(bus, vec![1u32, 2, 3]);
    assert_eq!(session, 7u64);
}

#[test]
fn unicast_config_gives_back_its_parts() {
    let config = UnicastClientConfig::new(String::from("udp://10.0.0.1:4000"), 9i32);
    assert_eq!(config.unicast(), "udp://10.0.0.1:4000");
    let (bus, session) = config.take();
    assert_eq!(bus, "udp://10.0.0.1:4000");
    assert_eq!(session, 9);
}

#[test]
fn configs_rebuilt_from_their_parts_are_equal() {
    let config = MulticastClientConfig::new(String::from("p"), 3u8, 'z');
    let copy = config.clone();
    let (party, bus, session) = copy.take();
    assert!(MulticastClientConfig::new(party, bus, session) == config);
    let unicast = UnicastClientConfig::new(4u16, "s");
    let (bus, session) = unicast.clone().take();
    assert!(UnicastClientConfig::new(bus, session) == unicast);
    assert!(UnicastClientConfig::new(5u16, "s") != unicast);
}
