//! The event relay: the decisions of the background task that consumes
//! status events from the session, in arrival order, and forwards exactly
//! the in-ear transitions to the media controller.
//!
//! The channel wait, the controller lock and the controller call are the
//! caller's asynchronous work; this module decides, per event and per
//! sequence, which controller calls are made and in what order.

use vstd::prelude::*;

use crate::EarStatus;

verus! {

/// A status event pushed by the session. One recognized variant carries an
/// in-ear transition; every other kind is opaque to this core and is only
/// logged, never acted upon.
#[derive(Clone, Copy, Debug, PartialEq, Eq, Structural)]
pub enum AACPEvent {
    EarDetection(EarStatus, EarStatus),
    Unrecognized,
}

/// One in-ear transition as handed to the media controller: the previous
/// and the new wearing state.
#[derive(Clone, Copy, Debug, PartialEq, Eq, Structural)]
pub struct EarTransition {
    pub previous: EarStatus,
    pub current: EarStatus,
}

/// The controller call an event gives rise to, if any.
pub open spec fn transition_of(e: AACPEvent) -> Option<EarTransition> {
    match e {
        AACPEvent::EarDetection(previous, current) => Some(
            EarTransition { previous, current },
        ),
        AACPEvent::Unrecognized => None,
    }
}

/// The controller calls a whole event sequence gives rise to, in arrival
/// order.
pub open spec fn transitions_of(events: Seq<AACPEvent>) -> Seq<EarTransition>
    decreases events.len(),
{
    if events.len() == 0 {
        Seq::empty()
    } else {
        match transition_of(events[0]) {
            Some(t) => seq![t] + transitions_of(events.drop_first()),
            None => transitions_of(events.drop_first()),
        }
    }
}

/// How many events of the sequence are in-ear transitions.
pub open spec fn count_transitions(events: Seq<AACPEvent>) -> nat
    decreases events.len(),
{
    if events.len() == 0 {
        0
    } else {
        (if transition_of(events[0]) is Some {
            1nat
        } else {
            0nat
        }) + count_transitions(events.drop_first())
    }
}

/// Decide one event: the transition to hand to the controller, or `None`
/// for an event kind that is only logged and discarded.
pub fn dispatch(e: &AACPEvent) -> (r: Option<EarTransition>)
    ensures
        r == transition_of(*e),
{
    match e {
        AACPEvent::EarDetection(previous, current) => Some(
            EarTransition { previous: *previous, current: *current },
        ),
        AACPEvent::Unrecognized => None,
    }
}

/// Event ordering law: relaying events one batch after another makes
/// exactly the controller calls of the whole sequence — handling each event
/// to completion before taking the next preserves the session's emission
/// order.
pub proof fn lemma_transitions_concat(a: Seq<AACPEvent>, b: Seq<AACPEvent>)
    ensures
        transitions_of(a + b) == transitions_of(a) + transitions_of(b),
    decreases a.len(),
{
    if a.len() == 0 {
        assert(a + b =~= b);
        assert(transitions_of(a) + transitions_of(b) =~= transitions_of(b));
    } else {
        assert((a + b)[0] == a[0]);
        assert((a + b).drop_first() =~= a.drop_first() + b);
        lemma_transitions_concat(a.drop_first(), b);
        match transition_of(a[0]) {
            Some(t) => {
                assert(seq![t] + (transitions_of(a.drop_first()) + transitions_of(b)) =~= (
                seq![t] + transitions_of(a.drop_first())) + transitions_of(b));
            },
            None => {},
        }
    }
}

/// Selective dispatch law: the number of controller calls a sequence gives
/// rise to equals the number of in-ear-transition events in it; every other
/// event kind is discarded.
pub proof fn lemma_selective_dispatch(events: Seq<AACPEvent>)
    ensures
        transitions_of(events).len() == count_transitions(events),
    decreases events.len(),
{
    if events.len() > 0 {
        lemma_selective_dispatch(events.drop_first());
    }
}

/// Relay a whole event sequence: the controller calls made, in arrival
/// order.
pub fn relay_calls(events: &Vec<AACPEvent>) -> (r: Vec<EarTransition>)
    ensures
        r@ == transitions_of(events@),
{
    let mut calls: Vec<EarTransition> = Vec::new();
    let mut i: usize = 0;
    proof {
        assert(events@.take(0) =~= Seq::<AACPEvent>::empty());
    }
    while i < events.len()
        invariant
            i <= events.len(),
            calls@ == transitions_of(events@.take(i as int)),
        decreases events.len() - i,
    {
        match dispatch(&events[i]) {
            Some(t) => calls.push(t),
            None => (),
        }
        proof {
            let e = events@[i as int];
            assert(seq![e].drop_first() =~= Seq::<AACPEvent>::empty());
            assert(transitions_of(Seq::<AACPEvent>::empty()) =~= Seq::<EarTransition>::empty());
            assert(events@.take(i as int + 1) =~= events@.take(i as int) + seq![e]);
            lemma_transitions_concat(events@.take(i as int), seq![e]);
            match transition_of(e) {
                Some(t) => {
                    assert(seq![t] + Seq::<EarTransition>::empty() =~= seq![t]);
                    assert(transitions_of(seq![e]) =~= seq![t]);
                    assert(calls@ =~= transitions_of(events@.take(i as int)) + seq![t]);
                },
                None => {
                    assert(transitions_of(seq![e]) =~= Seq::<EarTransition>::empty());
                    assert(calls@ =~= transitions_of(events@.take(i as int)) + Seq::<
                        EarTransition,
                    >::empty());
                },
            }
        }
        i = i + 1;
    }
    proof {
        assert(events@.take(events@.len() as int) =~= events@);
    }
    calls
}

} // verus!
