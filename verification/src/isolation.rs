//! Requests served at the same time do not see each other's tokens.
//!
//! Every request owns its reply channels and its [`Aggregator`], and an aggregator
//! takes events from nowhere but its own reply channel. This module states what
//! follows for the states that the aggregations reach when the worker serves several
//! requests in turns: however their events are interleaved in time, each request ends
//! where its own events alone lead.
//!
//! [`Aggregator`]: crate::aggregate::Aggregator

use vstd::prelude::*;
use crate::aggregate::Progress;
use crate::token::Token;

verus! {

/// An event as it happens in time: the request whose reply channel it arrives on, and
/// what the reader of that channel sees.
pub struct Arrival {
    pub request: nat,
    pub event: Option<Token>,
}

/// The states of all requests after `arrivals`, each arrival advancing the
/// aggregation of its own request and no other. An arrival for a request that is not
/// being served is lost.
pub open spec fn run_all(states: Map<nat, Progress>, arrivals: Seq<Arrival>) -> Map<nat, Progress>
    decreases arrivals.len(),
{
    if arrivals.len() == 0 {
        states
    } else {
        let before = run_all(states, arrivals.drop_last());
        let arrival = arrivals.last();
        if before.dom().contains(arrival.request) {
            before.insert(arrival.request, before[arrival.request].advance(arrival.event))
        } else {
            before
        }
    }
}

/// The events of one request among `arrivals`, in the order in which they arrive.
pub open spec fn events_of(arrivals: Seq<Arrival>, request: nat) -> Seq<Option<Token>>
    decreases arrivals.len(),
{
    if arrivals.len() == 0 {
        Seq::empty()
    } else {
        let earlier = events_of(arrivals.drop_last(), request);
        if arrivals.last().request == request {
            earlier.push(arrivals.last().event)
        } else {
            earlier
        }
    }
}

/// Isolation: whatever the interleaving, the state that a request reaches is the one
/// that its own events lead to from its own starting state. Nothing that arrives for
/// another request changes its text, its counters or its finish reason.
pub proof fn lemma_isolation(states: Map<nat, Progress>, arrivals: Seq<Arrival>, request: nat)
    requires
        states.dom().contains(request),
    ensures
        run_all(states, arrivals).dom() == states.dom(),
        run_all(states, arrivals)[request] == states[request].run(events_of(arrivals, request)),
    decreases arrivals.len(),
{
    if arrivals.len() > 0 {
        lemma_isolation(states, arrivals.drop_last(), request);
        let earlier = events_of(arrivals.drop_last(), request);
        if arrivals.last().request == request {
            assert(earlier.push(arrivals.last().event).drop_last() =~= earlier);
        }
        assert(run_all(states, arrivals).dom() =~= states.dom());
    }
}

/// Two interleavings that agree on the events of a request leave that request in the
/// same state, whatever else they hold.
pub proof fn lemma_others_do_not_matter(
    states: Map<nat, Progress>,
    one: Seq<Arrival>,
    other: Seq<Arrival>,
    request: nat,
)
    requires
        states.dom().contains(request),
        events_of(one, request) == events_of(other, request),
    ensures
        run_all(states, one)[request] == run_all(states, other)[request],
{
    lemma_isolation(states, one, request);
    lemma_isolation(states, other, request);
}

} // verus!
