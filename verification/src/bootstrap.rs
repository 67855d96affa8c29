//! The session bootstrap sequence: the strictly ordered protocol requests
//! that bring a discovered accessory into a state where it streams status
//! events, and the all-or-nothing construction of the device object.
//!
//! The protocol exchanges themselves are asynchronous work of the session
//! collaborator; the caller drives them and reports each outcome to the
//! [`Bootstrap`] machine, which decides what is issued next and whether the
//! device may be constructed.

use vstd::prelude::*;

use crate::Address;

verus! {

/// Milliseconds of quiescence the accessory firmware needs after some
/// requests before the next one may go out (a pacing requirement of the
/// embedded peer, not a software race).
pub const SETTLE_INTERVAL_MILLIS: u64 = 100;

/// The kinds of proximity key material that can be requested during setup.
#[derive(Clone, Copy, Debug, PartialEq, Eq, Structural)]
pub enum ProximityKeyType {
    Irk,
    EncKey,
}

/// The protocol requests of the bootstrap sequence, one per step.
#[derive(Clone, Copy, Debug, PartialEq, Eq, Structural)]
pub enum ProtocolRequest {
    Handshake,
    SetFeatureFlags,
    NotificationRequest,
    ProximityKeysRequest,
}

/// A bootstrap-step failure, fatal to device construction.
#[derive(Clone, Copy, Debug, PartialEq, Eq, Structural)]
pub struct BootstrapError {
    pub failed_request: ProtocolRequest,
}

/// The canonical order of the bootstrap's protocol requests.
pub open spec fn request_order() -> Seq<ProtocolRequest> {
    seq![
        ProtocolRequest::Handshake,
        ProtocolRequest::SetFeatureFlags,
        ProtocolRequest::NotificationRequest,
        ProtocolRequest::ProximityKeysRequest,
    ]
}

/// Whether the firmware needs the settling interval after this request
/// before the next one is sent.
pub fn settle_after(req: ProtocolRequest) -> (r: bool)
    ensures
        r == (req is Handshake || req is SetFeatureFlags),
{
    match req {
        ProtocolRequest::Handshake => true,
        ProtocolRequest::SetFeatureFlags => true,
        ProtocolRequest::NotificationRequest => false,
        ProtocolRequest::ProximityKeysRequest => false,
    }
}

/// The key kinds named in the proximity-key request: at least the
/// identity-resolving key and the encryption key.
pub fn proximity_key_kinds() -> (r: Vec<ProximityKeyType>)
    ensures
        r@ == seq![ProximityKeyType::Irk, ProximityKeyType::EncKey],
{
    let mut kinds: Vec<ProximityKeyType> = Vec::new();
    kinds.push(ProximityKeyType::Irk);
    kinds.push(ProximityKeyType::EncKey);
    proof {
        assert(kinds@ =~= seq![ProximityKeyType::Irk, ProximityKeyType::EncKey]);
    }
    kinds
}

/// The bootstrap state machine. The caller asks which request to issue next,
/// performs the exchange, and records the outcome; a single failure is
/// absorbing and aborts the whole construction.
pub struct Bootstrap {
    issued: Vec<ProtocolRequest>,
    succeeded: usize,
    failure: Option<ProtocolRequest>,
}

impl Bootstrap {
    /// The requests issued so far, in issue order (a failed request is the
    /// last one issued).
    pub closed spec fn issued_requests(self) -> Seq<ProtocolRequest> {
        self.issued@
    }

    /// How many requests have completed successfully.
    pub closed spec fn succeeded_count(self) -> nat {
        self.succeeded as nat
    }

    /// Whether some request has failed.
    pub closed spec fn has_failed(self) -> bool {
        self.failure is Some
    }

    /// All requests succeeded: the accessory is configured and the device
    /// may be constructed.
    pub open spec fn complete(self) -> bool {
        self.succeeded_count() == request_order().len() && !self.has_failed()
    }

    pub closed spec fn wf(self) -> bool {
        &&& self.succeeded <= request_order().len()
        &&& self.issued.len() <= request_order().len()
        &&& self.issued@ == request_order().take(self.issued.len() as int)
        &&& self.issued.len() == self.succeeded + (if self.failure is Some {
            1int
        } else {
            0int
        })
        &&& self.failure is Some ==> self.succeeded < request_order().len()
            && self.failure == Some(request_order()[self.succeeded as int])
    }

    /// A fresh bootstrap: nothing issued yet.
    pub fn new() -> (r: Self)
        ensures
            r.wf(),
            r.issued_requests() == Seq::<ProtocolRequest>::empty(),
            r.succeeded_count() == 0,
            !r.has_failed(),
    {
        let b = Bootstrap { issued: Vec::new(), succeeded: 0, failure: None };
        proof {
            assert(b.issued@ =~= request_order().take(0));
        }
        b
    }

    /// The next request to issue, or `None` once the sequence is over
    /// (completed, or aborted by a failure). No request is handed out before
    /// its predecessor's outcome has been recorded.
    pub fn next_request(&self) -> (r: Option<ProtocolRequest>)
        requires
            self.wf(),
        ensures
            match r {
                Some(req) => !self.has_failed() && self.succeeded_count() < request_order().len()
                    && req == request_order()[self.succeeded_count() as int],
                None => self.has_failed() || self.succeeded_count() == request_order().len(),
            },
    {
        if self.failure.is_some() || self.succeeded >= 4 {
            None
        } else if self.succeeded == 0 {
            Some(ProtocolRequest::Handshake)
        } else if self.succeeded == 1 {
            Some(ProtocolRequest::SetFeatureFlags)
        } else if self.succeeded == 2 {
            Some(ProtocolRequest::NotificationRequest)
        } else {
            Some(ProtocolRequest::ProximityKeysRequest)
        }
    }

    /// Record the outcome of the request most recently handed out by
    /// [`Self::next_request`]. A failure is absorbing: no further request is
    /// ever issued.
    pub fn record_outcome(&mut self, ok: bool)
        requires
            old(self).wf(),
            !old(self).has_failed(),
            old(self).succeeded_count() < request_order().len(),
        ensures
            final(self).wf(),
            final(self).issued_requests() == old(self).issued_requests().push(
                request_order()[old(self).succeeded_count() as int],
            ),
            ok ==> !final(self).has_failed() && final(self).succeeded_count() == old(
                self,
            ).succeeded_count() + 1,
            !ok ==> final(self).has_failed() && final(self).succeeded_count() == old(
                self,
            ).succeeded_count(),
    {
        let req = match self.next_request() {
            Some(req) => req,
            None => ProtocolRequest::Handshake,  // unreachable under the precondition
        };
        self.issued.push(req);
        if ok {
            self.succeeded = self.succeeded + 1;
        } else {
            self.failure = Some(req);
        }
        proof {
            assert(self.issued@ =~= request_order().take(self.issued.len() as int));
        }
    }

    /// Whether every request of the sequence has succeeded.
    pub fn is_complete(&self) -> (r: bool)
        requires
            self.wf(),
        ensures
            r == self.complete(),
    {
        self.succeeded == 4 && self.failure.is_none()
    }

    /// The request that failed, if one did.
    pub fn failed_request(&self) -> (r: Option<ProtocolRequest>)
        requires
            self.wf(),
        ensures
            self.has_failed() ==> r == Some(request_order()[self.succeeded_count() as int]),
            !self.has_failed() ==> r is None,
    {
        self.failure
    }
}

/// Bootstrap ordering law: a completed bootstrap issued exactly the
/// canonical request sequence — handshake, feature flags, notification
/// subscription, proximity keys — in that order, and nothing else.
pub proof fn lemma_bootstrap_ordering(b: Bootstrap)
    requires
        b.wf(),
        b.complete(),
    ensures
        b.issued_requests() == request_order(),
{
    assert(b.issued_requests() =~= request_order());
}

/// Bootstrap atomicity law: once any request has failed, the bootstrap can
/// never be complete, so no device is ever constructed over it.
pub proof fn lemma_bootstrap_atomicity(b: Bootstrap)
    requires
        b.wf(),
        b.has_failed(),
    ensures
        !b.complete(),
{
}

/// The device object for one connected accessory: it exists only over a
/// bootstrap in which every protocol request succeeded.
pub struct AirPodsDevice {
    pub mac_address: Address,
    bootstrap: Bootstrap,
}

impl AirPodsDevice {
    /// The bootstrap record the device was constructed over.
    pub closed spec fn bootstrap_record(self) -> Bootstrap {
        self.bootstrap
    }

    /// The identity the device was constructed for.
    pub closed spec fn identity(self) -> Address {
        self.mac_address
    }

    pub open spec fn wf(self) -> bool {
        self.bootstrap_record().wf() && self.bootstrap_record().complete()
    }

    /// All-or-nothing construction: a device for `mac_address` over a
    /// terminal bootstrap. A completed bootstrap yields the device; a failed
    /// one yields the error naming the request that failed, and no device.
    pub fn new(mac_address: Address, bootstrap: Bootstrap) -> (r: Result<
        AirPodsDevice,
        BootstrapError,
    >)
        requires
            bootstrap.wf(),
            bootstrap.complete() || bootstrap.has_failed(),
        ensures
            bootstrap.complete() ==> (r matches Ok(d) && d.identity() == mac_address && d.wf()
                && d.bootstrap_record() == bootstrap),
            bootstrap.has_failed() ==> (r matches Err(e) && e.failed_request == request_order()[
                bootstrap.succeeded_count() as int]),
    {
        if bootstrap.is_complete() {
            Ok(AirPodsDevice { mac_address, bootstrap })
        } else {
            let req = match bootstrap.failed_request() {
                Some(req) => req,
                None => ProtocolRequest::Handshake,  // unreachable: the bootstrap is terminal
            };
            Err(BootstrapError { failed_request: req })
        }
    }
}

/// Drive a whole bootstrap for `mac_address`, taking the outcome of each
/// protocol exchange from `outcomes` (one entry per request, in issue
/// order). Returns the device exactly when the first four outcomes are all
/// successes; otherwise the error names the first request whose outcome was
/// a failure, and no later request is consumed.
pub fn run_bootstrap(mac_address: Address, outcomes: &Vec<bool>) -> (r: Result<
    AirPodsDevice,
    BootstrapError,
>)
    requires
        outcomes.len() >= request_order().len(),
    ensures
        (r is Ok) == (forall|i: int| 0 <= i < request_order().len() ==> outcomes@[i]),
        r matches Ok(d) ==> (d.identity() == mac_address && d.wf()
            && d.bootstrap_record().issued_requests() == request_order()),
        r matches Err(e) ==> (exists|i: int|
            0 <= i < request_order().len() && !outcomes@[i] && (forall|j: int|
                0 <= j < i ==> outcomes@[j]) && e.failed_request == request_order()[i]),
{
    let mut b = Bootstrap::new();
    let mut i: usize = 0;
    while i < 4
        invariant
            b.wf(),
            !b.has_failed(),
            b.succeeded_count() == i,
            i <= 4,
            outcomes.len() >= 4,
            forall|j: int| 0 <= j < i ==> outcomes@[j],
        decreases 4 - i,
    {
        let ok = outcomes[i];
        b.record_outcome(ok);
        if !ok {
            return AirPodsDevice::new(mac_address, b);
        }
        i = i + 1;
    }
    proof {
        lemma_bootstrap_ordering(b);
    }
    AirPodsDevice::new(mac_address, b)
}

} // verus!
