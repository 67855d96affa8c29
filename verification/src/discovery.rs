//! Discovery: among the peers the adapter currently associates with a
//! connection, find the first one that advertises the target service
//! identifier.
//!
//! The adapter queries themselves (enumeration, connection status, the
//! advertised identifier set) are transport I/O; the caller collects their
//! results into [`PeerRecord`] values and this module makes the decision. A
//! per-peer query failure is recorded as an absent identifier set and never
//! escalates: it only makes that peer a non-match.

use vstd::prelude::*;

use crate::Address;
use crate::ServiceId;

verus! {

/// What `uuid::Uuid::parse_str` makes of a piece of text: the 128-bit value
/// of the identifier it denotes, or nothing when the text is not an accepted
/// textual identifier form. The result depends on the characters alone.
pub uninterp spec fn uuid_of(s: Seq<char>) -> Option<u128>;

/// Relies on `uuid::Uuid::parse_str` to read a service identifier from its
/// textual form, and on `uuid::Uuid::as_u128` for its value.
#[verifier::external_body]
fn parse_uuid(s: &str) -> (r: Option<u128>)
    ensures
        r == uuid_of(s@),
{
    match uuid::Uuid::parse_str(s) {
        Ok(u) => Some(u.as_u128()),
        Err(_) => None,
    }
}

/// The service identifier the target accessory advertises, read from its
/// canonical hyphenated text form.
pub fn target_service_id() -> (r: Option<ServiceId>)
    ensures
        match r {
            Some(id) => uuid_of("74ec2172-0bad-4d01-8f77-997b2be0722a"@) == Some(id.value),
            None => uuid_of("74ec2172-0bad-4d01-8f77-997b2be0722a"@) is None,
        },
{
    match parse_uuid("74ec2172-0bad-4d01-8f77-997b2be0722a") {
        Some(value) => Some(ServiceId { value }),
        None => None,
    }
}

/// What the adapter reported of one peer: its address, whether it is
/// presently connected, and its advertised identifier set (`None` when that
/// query failed).
pub struct PeerRecord {
    pub addr: Address,
    pub connected: bool,
    pub services: Option<Vec<ServiceId>>,
}

/// Discovery's one terminal failure: no connected peer advertises the
/// target identifier.
#[derive(Clone, Copy, Debug, PartialEq, Eq, Structural)]
pub enum DiscoveryError {
    NotFound,
}

/// A peer matches when it is connected, its identifier set could be
/// retrieved, and that set contains the target identifier.
pub open spec fn record_matches(r: PeerRecord, target: ServiceId) -> bool {
    &&& r.connected
    &&& r.services is Some
    &&& r.services.unwrap()@.contains(target)
}

/// The address of the first matching peer, in adapter enumeration order.
pub open spec fn first_match(peers: Seq<PeerRecord>, target: ServiceId) -> Option<Address>
    decreases peers.len(),
{
    if peers.len() == 0 {
        None
    } else if record_matches(peers[0], target) {
        Some(peers[0].addr)
    } else {
        first_match(peers.drop_first(), target)
    }
}

/// Whether `services` contains `target`.
pub fn contains_service(services: &Vec<ServiceId>, target: ServiceId) -> (r: bool)
    ensures
        r == services@.contains(target),
{
    let mut i: usize = 0;
    while i < services.len()
        invariant
            i <= services.len(),
            forall|j: int| 0 <= j < i ==> services@[j] != target,
        decreases services.len() - i,
    {
        if services[i] == target {
            return true;
        }
        i = i + 1;
    }
    false
}

/// Whether this peer record satisfies the discovery predicate.
pub fn peer_matches(record: &PeerRecord, target: ServiceId) -> (r: bool)
    ensures
        r == record_matches(*record, target),
{
    if !record.connected {
        return false;
    }
    match &record.services {
        Some(services) => contains_service(services, target),
        None => false,
    }
}

/// Return the address of the first peer, in enumeration order, that is
/// connected and advertises `target`; fail with "not found" exactly when no
/// peer matches.
pub fn find_connected_airpods(peers: &Vec<PeerRecord>, target: ServiceId) -> (r: Result<
    Address,
    DiscoveryError,
>)
    ensures
        match r {
            Ok(a) => first_match(peers@, target) == Some(a),
            Err(e) => first_match(peers@, target) is None && e == DiscoveryError::NotFound,
        },
{
    let n = peers.len();
    let mut i: usize = 0;
    proof {
        assert(peers@.skip(0) =~= peers@);
    }
    while i < n
        invariant
            i <= n,
            n == peers.len(),
            first_match(peers@, target) == first_match(peers@.skip(i as int), target),
        decreases n - i,
    {
        let matched = peer_matches(&peers[i], target);
        proof {
            assert(peers@.skip(i as int)[0] == peers@[i as int]);
            assert(peers@.skip(i as int).drop_first() =~= peers@.skip(i as int + 1));
        }
        if matched {
            return Ok(peers[i].addr);
        }
        i = i + 1;
    }
    proof {
        assert(peers@.skip(n as int) =~= Seq::<PeerRecord>::empty());
    }
    Err(DiscoveryError::NotFound)
}

/// Discovery correctness law: a matching address comes back exactly when
/// some connected peer advertises the target, and what comes back is always
/// the address of a connected, matching peer — never of a disconnected one.
pub proof fn lemma_discovery_correct(peers: Seq<PeerRecord>, target: ServiceId)
    ensures
        (first_match(peers, target) is Some) <==> (exists|i: int|
            0 <= i < peers.len() && record_matches(peers[i], target)),
        first_match(peers, target) is Some ==> (exists|i: int|
            0 <= i < peers.len() && record_matches(peers[i], target) && peers[i].connected
                && peers[i].addr == first_match(peers, target).unwrap()),
    decreases peers.len(),
{
    if peers.len() == 0 {
    } else if record_matches(peers[0], target) {
        assert(record_matches(peers[0], target) && peers[0].connected);
    } else {
        lemma_discovery_correct(peers.drop_first(), target);
        assert forall|i: int|
            0 <= i < peers.drop_first().len() && record_matches(
                peers.drop_first()[i],
                target,
            ) implies record_matches(peers[i + 1], target) by {
            assert(peers.drop_first()[i] == peers[i + 1]);
        }
        if exists|i: int| 0 <= i < peers.len() && record_matches(peers[i], target) {
            let i = choose|i: int| 0 <= i < peers.len() && record_matches(peers[i], target);
            assert(i >= 1);
            assert(peers.drop_first()[i - 1] == peers[i]);
        }
    }
}

/// Discovery resilience law: a peer whose identifier-set query failed never
/// matches, and its presence anywhere in the enumeration changes nothing —
/// discovery still evaluates the remaining peers and can still succeed
/// through another one.
pub proof fn lemma_failed_query_skipped(
    prefix: Seq<PeerRecord>,
    failed: PeerRecord,
    suffix: Seq<PeerRecord>,
    target: ServiceId,
)
    requires
        failed.services is None,
    ensures
        first_match(prefix + seq![failed] + suffix, target) == first_match(
            prefix + suffix,
            target,
        ),
    decreases prefix.len(),
{
    if prefix.len() == 0 {
        assert(prefix + seq![failed] + suffix =~= seq![failed] + suffix);
        assert(prefix + suffix =~= suffix);
        let with_failed = seq![failed] + suffix;
        assert(with_failed[0] == failed);
        assert(!record_matches(failed, target));
        assert(with_failed.drop_first() =~= suffix);
    } else {
        let lhs = prefix + seq![failed] + suffix;
        let rhs = prefix + suffix;
        assert(lhs[0] == prefix[0]);
        assert(rhs[0] == prefix[0]);
        if !record_matches(prefix[0], target) {
            assert(lhs.drop_first() =~= prefix.drop_first() + seq![failed] + suffix);
            assert(rhs.drop_first() =~= prefix.drop_first() + suffix);
            lemma_failed_query_skipped(prefix.drop_first(), failed, suffix, target);
        }
    }
}

} // verus!
