use mac_connect_client::link::{
    broadcast_targets, Endpoint, IpAddress, LinkState, PingAction, LINK_TIMEOUT_MS, PING_INTERVAL_MS,
};
use mac_connect_client::protocol::PacketSerializer;

fn mac() -> Endpoint {
    Endpoint { ip: IpAddress::V4(192, 168, 1, 50), port: 12345 }
}

fn pong(ts: u64) -> Vec<u8> {
    let mut p = PacketSerializer::ping(ts);
    p[2] = 0x07;
    p
}

#[test]
fn timing_constants() {
    assert_eq!(PING_INTERVAL_MS, 1000);
    assert_eq!(LINK_TIMEOUT_MS, 3000);
}

#[test]
fn new_link_is_discovering() {
    let s = LinkState::new(12345);
    assert!(s.is_discovering());
    assert!(!s.is_connected());
    assert_eq!(s.get_rtt_ms(), 0);
    assert_eq!(s.target(), None);
    assert_eq!(s.discovery_port, 12345);
}

#[test]
fn first_tick_broadcasts_then_waits_a_second() {
    let mut s = LinkState::new(12345);
    match s.tick(5_000, 1_700_000_000_000) {
        PingAction::Broadcast(p, port) => {
            assert_eq!(p, PacketSerializer::ping(1_700_000_000_000));
            assert_eq!(port, 12345);
        }
        _ => panic!("expected a broadcast"),
    }
    assert!(matches!(s.tick(5_999, 0), PingAction::Nothing));
    assert!(matches!(s.tick(6_000, 0), PingAction::Broadcast(_, 12345)));
}

#[test]
fn discovery_adopts_whoever_answers() {
    let mut s = LinkState::new(12345);
    s.tick(0, 1_000);
    s.on_datagram(&pong(1_000), mac(), 20, 1_020);
    assert_eq!(s.target(), Some(mac()));
    assert!(s.target_is_auto);
    assert!(s.is_connected());
    assert_eq!(s.get_rtt_ms(), 20);
    assert!(!s.is_discovering());
    match s.tick(1_000, 2_000) {
        PingAction::Ping(p, to) => {
            assert_eq!(p, PacketSerializer::ping(2_000));
            assert_eq!(to, mac());
        }
        _ => panic!("expected a ping to the target"),
    }
}

#[test]
fn rtt_never_goes_negative() {
    let mut s = LinkState::new(1);
    s.on_datagram(&pong(5_000), mac(), 0, 4_000);
    assert_eq!(s.get_rtt_ms(), 0);
    assert!(s.is_connected());
}

#[test]
fn non_pong_datagrams_change_nothing() {
    let mut s = LinkState::new(1);
    s.on_datagram(&PacketSerializer::ping(7), mac(), 0, 10);
    s.on_datagram(&[1, 2, 3], mac(), 0, 10);
    assert_eq!(s.target(), None);
    assert!(!s.is_connected());
}

#[test]
fn quiet_auto_link_is_dropped() {
    let mut s = LinkState::new(12345);
    s.on_datagram(&pong(0), mac(), 100, 0);
    s.tick(3_099, 0);
    assert!(s.is_connected());
    s.tick(3_100, 0);
    assert!(!s.is_connected());
    assert_eq!(s.target(), None);
    assert!(s.is_discovering());
}

#[test]
fn quiet_user_link_keeps_its_target() {
    let mut s = LinkState::new(12345);
    s.set_target(mac());
    s.on_datagram(&pong(0), Endpoint { ip: IpAddress::V4(10, 0, 0, 9), port: 1 }, 0, 0);
    assert_eq!(s.target(), Some(mac()));
    assert!(s.is_connected());
    s.tick(LINK_TIMEOUT_MS, 0);
    assert!(!s.is_connected());
    assert_eq!(s.target(), Some(mac()));
}

#[test]
fn set_target_takes_the_port_for_discovery() {
    let mut s = LinkState::new(1);
    s.on_datagram(&pong(0), mac(), 0, 0);
    let other = Endpoint { ip: IpAddress::V4(10, 0, 0, 2), port: 4000 };
    s.set_target(other);
    assert_eq!(s.target(), Some(other));
    assert!(!s.target_is_auto);
    assert!(!s.is_connected());
    assert_eq!(s.discovery_port, 4000);
}

#[test]
fn unlink_stops_discovery() {
    let mut s = LinkState::new(12345);
    s.on_datagram(&pong(0), mac(), 0, 0);
    s.disconnect();
    assert_eq!(s.target(), None);
    assert!(!s.is_connected());
    assert!(!s.is_discovering());
    s.on_datagram(&pong(0), mac(), 10, 10);
    assert_eq!(s.target(), None);
    assert!(!s.is_connected());
    assert!(matches!(s.tick(10_000, 0), PingAction::Nothing));
}

#[test]
fn auto_discovery_can_be_turned_back_on() {
    let mut s = LinkState::new(12345);
    s.disconnect();
    s.set_auto_discover(true, 5000);
    assert!(s.is_discovering());
    assert!(matches!(s.tick(0, 0), PingAction::Broadcast(_, 5000)));
}

#[test]
fn broadcast_targets_include_the_subnet() {
    let t = broadcast_targets(12345, Some((192, 168, 1, 77)));
    assert_eq!(
        t,
        vec![
            Endpoint { ip: IpAddress::V4(255, 255, 255, 255), port: 12345 },
            Endpoint { ip: IpAddress::V4(192, 168, 1, 255), port: 12345 },
        ]
    );
}

#[test]
fn broadcast_targets_without_a_lan_address() {
    let t = broadcast_targets(9, None);
    assert_eq!(t, vec![Endpoint { ip: IpAddress::V4(255, 255, 255, 255), port: 9 }]);
    let t = broadcast_targets(9, Some((255, 255, 255, 1)));
    assert_eq!(t.len(), 1);
}
