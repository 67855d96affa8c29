use airpods_core::discovery::{
    contains_service, find_connected_airpods, target_service_id, DiscoveryError, PeerRecord,
};
use airpods_core::{Address, ServiceId};

fn addr(last: u8) -> Address {
    Address { octets: [0x10, 0x20, 0x30, 0x40, 0x50, last] }
}

fn target() -> ServiceId {
    ServiceId { value: 0x74ec21720bad4d018f77997b2be0722a }
}

#[test]
fn finds_first_connected_peer_advertising_target() {
    let peers = vec![
        PeerRecord {
            addr: addr(1),
            connected: true,
            services: Some(vec![ServiceId { value: 5 }]),
        },
        PeerRecord {
            addr: addr(2),
            connected: true,
            services: Some(vec![ServiceId { value: 9 }, target()]),
        },
        PeerRecord {
            addr: addr(3),
            connected: true,
            services: Some(vec![target()]),
        },
    ];
    let found = find_connected_airpods(&peers, target()).unwrap();
    assert_eq!(found.octets, addr(2).octets);
}

#[test]
fn never_returns_a_disconnected_peer() {
    let peers = vec![
        PeerRecord {
            addr: addr(1),
            connected: false,
            services: Some(vec![target()]),
        },
        PeerRecord {
            addr: addr(2),
            connected: true,
            services: Some(vec![target()]),
        },
    ];
    let found = find_connected_airpods(&peers, target()).unwrap();
    assert_eq!(found.octets, addr(2).octets);
}

#[test]
fn all_matching_peers_disconnected_is_not_found() {
    let peers = vec![PeerRecord {
        addr: addr(1),
        connected: false,
        services: Some(vec![target()]),
    }];
    assert!(matches!(
        find_connected_airpods(&peers, target()),
        Err(DiscoveryError::NotFound)
    ));
}

#[test]
fn failed_identifier_query_does_not_stop_discovery() {
    let peers = vec![
        PeerRecord {
            addr: addr(1),
            connected: true,
            services: None,
        },
        PeerRecord {
            addr: addr(2),
            connected: true,
            services: Some(vec![target()]),
        },
    ];
    let found = find_connected_airpods(&peers, target()).unwrap();
    assert_eq!(found.octets, addr(2).octets);
}

#[test]
fn two_non_matching_connected_peers_is_not_found() {
    let peers = vec![
        PeerRecord {
            addr: addr(1),
            connected: true,
            services: Some(vec![ServiceId { value: 1 }]),
        },
        PeerRecord {
            addr: addr(2),
            connected: true,
            services: Some(vec![ServiceId { value: 2 }]),
        },
    ];
    assert!(matches!(
        find_connected_airpods(&peers, target()),
        Err(DiscoveryError::NotFound)
    ));
}

#[test]
fn no_peers_is_not_found() {
    let peers: Vec<PeerRecord> = Vec::new();
    assert!(matches!(
        find_connected_airpods(&peers, target()),
        Err(DiscoveryError::NotFound)
    ));
}

#[test]
fn contains_service_on_empty_set_is_false() {
    let services: Vec<ServiceId> = Vec::new();
    assert!(!contains_service(&services, target()));
}

#[test]
fn contains_service_finds_the_target() {
    let services = vec![ServiceId { value: 3 }, target()];
    assert!(contains_service(&services, target()));
}

#[test]
fn target_service_id_has_the_advertised_value() {
    let id = target_service_id().unwrap();
    assert_eq!(id, target());
}
