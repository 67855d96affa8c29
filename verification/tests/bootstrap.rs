use airpods_core::bootstrap::{
    proximity_key_kinds, run_bootstrap, settle_after, AirPodsDevice, Bootstrap, ProtocolRequest,
    ProximityKeyType, SETTLE_INTERVAL_MILLIS,
};
use airpods_core::Address;

fn identity() -> Address {
    Address { octets: [0xaa, 0xbb, 0xcc, 0xdd, 0xee, 0xff] }
}

#[test]
fn machine_issues_the_canonical_request_sequence() {
    let mut b = Bootstrap::new();
    let mut issued = Vec::new();
    while let Some(req) = b.next_request() {
        issued.push(req);
        b.record_outcome(true);
    }
    assert_eq!(
        issued,
        vec![
            ProtocolRequest::Handshake,
            ProtocolRequest::SetFeatureFlags,
            ProtocolRequest::NotificationRequest,
            ProtocolRequest::ProximityKeysRequest,
        ]
    );
    assert!(b.is_complete());
    assert_eq!(b.failed_request(), None);
}

#[test]
fn no_request_is_issued_after_a_failure() {
    let mut b = Bootstrap::new();
    let first = b.next_request().unwrap();
    assert_eq!(first, ProtocolRequest::Handshake);
    b.record_outcome(false);
    assert_eq!(b.next_request(), None);
    assert!(!b.is_complete());
    assert_eq!(b.failed_request(), Some(ProtocolRequest::Handshake));
}

#[test]
fn all_successes_produce_a_device_for_the_identity() {
    let outcomes = vec![true, true, true, true];
    let device = run_bootstrap(identity(), &outcomes).unwrap();
    assert_eq!(device.mac_address.octets, identity().octets);
}

#[test]
fn each_failing_step_aborts_and_names_its_request() {
    let expected = [
        ProtocolRequest::Handshake,
        ProtocolRequest::SetFeatureFlags,
        ProtocolRequest::NotificationRequest,
        ProtocolRequest::ProximityKeysRequest,
    ];
    for failing in 0..4 {
        let mut outcomes = vec![true, true, true, true];
        outcomes[failing] = false;
        match run_bootstrap(identity(), &outcomes) {
            Ok(_) => panic!("a failing step must abort construction"),
            Err(e) => assert_eq!(e.failed_request, expected[failing]),
        }
    }
}

#[test]
fn failed_bootstrap_yields_no_device() {
    let mut b = Bootstrap::new();
    b.record_outcome(true);
    b.record_outcome(false);
    let r = AirPodsDevice::new(identity(), b);
    match r {
        Ok(_) => panic!("no device may be constructed over a failed bootstrap"),
        Err(e) => assert_eq!(e.failed_request, ProtocolRequest::SetFeatureFlags),
    }
}

#[test]
fn settling_follows_handshake_and_feature_flags_only() {
    assert!(settle_after(ProtocolRequest::Handshake));
    assert!(settle_after(ProtocolRequest::SetFeatureFlags));
    assert!(!settle_after(ProtocolRequest::NotificationRequest));
    assert!(!settle_after(ProtocolRequest::ProximityKeysRequest));
    assert_eq!(SETTLE_INTERVAL_MILLIS, 100);
}

#[test]
fn proximity_request_names_irk_and_encryption_key() {
    assert_eq!(
        proximity_key_kinds(),
        vec![ProximityKeyType::Irk, ProximityKeyType::EncKey]
    );
}
