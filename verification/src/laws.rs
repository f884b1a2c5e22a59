//! What holds of a serving loop over any series of events: that no revocation is missed, that
//! nothing else ends it as one, and in which order it does things.

use crate::crl::{CertId, CertKey, CrlSet};
use crate::revocation::Reporter;
use crate::server::{Action, CloseEvent, ConnectionRevocation, Flow, ProxyError, ServeEvent};
use rustls::CommonState;
use vstd::prelude::*;

verus! {

/// All that a serving loop has done over a series of events, and where it stands. Once it has left
/// the loop, it takes no more events.
pub open spec fn served_by<'a, Q>(
    chain: Option<Seq<CertKey>>,
    events: Seq<ServeEvent<'a, Q>>,
) -> (Seq<Action<Q>>, Flow)
    decreases events.len(),
{
    if events.len() == 0 {
        (Seq::empty(), Flow::Continue)
    } else {
        let (done, flow) = served_by(chain, events.drop_last());
        if flow is Continue {
            let (actions, next) = crate::server::serve_rule(chain, events.last());
            (done + actions, next)
        } else {
            (done, flow)
        }
    }
}

/// The events that a serving loop takes: up to and with the one that it leaves the loop on.
pub open spec fn taken<'a, Q>(
    chain: Option<Seq<CertKey>>,
    events: Seq<ServeEvent<'a, Q>>,
) -> Seq<ServeEvent<'a, Q>>
    decreases events.len(),
{
    if events.len() == 0 {
        Seq::empty()
    } else if served_by(chain, events.drop_last()).1 is Continue {
        events
    } else {
        taken(chain, events.drop_last())
    }
}

/// The requests among some events, in their order.
pub open spec fn requests<'a, Q>(events: Seq<ServeEvent<'a, Q>>) -> Seq<Q>
    decreases events.len(),
{
    if events.len() == 0 {
        Seq::empty()
    } else {
        match events.last() {
            ServeEvent::Accepted(Some(Ok(request))) => requests(events.drop_last()).push(request),
            _ => requests(events.drop_last()),
        }
    }
}

/// The action that serves a request, for each of some requests.
pub open spec fn serving<Q>(all: Seq<Q>) -> Seq<Action<Q>> {
    all.map_values(|request: Q| Action::Serve(request))
}

/// What a serving task returns for its events and, where it waits for the close, for how that wait
/// ends; `None` while the loop goes on.
pub open spec fn returned<'a, Q>(
    chain: Option<Seq<CertKey>>,
    events: Seq<ServeEvent<'a, Q>>,
    close: CloseEvent,
) -> Option<Result<(), ProxyError>> {
    match served_by(chain, events).1 {
        Flow::Continue => None,
        Flow::Close => Some(crate::server::close_rule(close)),
        Flow::Return(result) => Some(result),
    }
}

/// Shuts the connection down, one way or the other.
pub open spec fn is_shutdown<Q>(action: Action<Q>) -> bool {
    action is AbruptShutdown || action is GracefulShutdown
}

/// Every request that is accepted before the loop ends is served, once and in order, and no other.
/// While the loop goes on, that is all it does; the event that it leaves the loop on adds what the
/// rule says of that event, and nothing follows.
pub proof fn law_requests_are_served_in_order<'a, Q>(
    chain: Option<Seq<CertKey>>,
    events: Seq<ServeEvent<'a, Q>>,
)
    ensures
        served_by(chain, events).1 is Continue ==> {
            &&& taken(chain, events) == events
            &&& served_by(chain, events).0 == serving(requests(events))
        },
        !(served_by(chain, events).1 is Continue) ==> {
            let seen = taken(chain, events);
            &&& seen.len() > 0
            &&& seen == events.take(seen.len() as int)
            &&& served_by(chain, seen.drop_last()).1 is Continue
            &&& served_by(chain, events).0 == serving(requests(seen)) + crate::server::serve_rule(
                chain,
                seen.last(),
            ).0
            &&& served_by(chain, events).1 == crate::server::serve_rule(chain, seen.last()).1
        },
        taken(chain, events).len() <= events.len(),
    decreases events.len(),
{
    if events.len() == 0 {
        assert(serving(requests(events)) =~= Seq::<Action<Q>>::empty());
        assert(taken(chain, events) =~= events);
    } else {
        let before = events.drop_last();
        law_requests_are_served_in_order(chain, before);
        if served_by(chain, before).1 is Continue {
            let last = events.last();
            assert(events.take(events.len() as int) =~= events);
            match last {
                ServeEvent::Accepted(Some(Ok(request))) => {
                    assert(serving(requests(before).push(request)) =~= serving(
                        requests(before),
                    ).push(Action::Serve(request)));
                    assert(served_by(chain, events).0 =~= serving(requests(events)));
                },
                _ => {
                    if served_by(chain, events).1 is Continue {
                        assert(served_by(chain, events).0 =~= serving(requests(events)));
                    }
                },
            }
        } else {
            let seen = taken(chain, before);
            assert(before.take(seen.len() as int) =~= events.take(seen.len() as int));
        }
    }
}

/// No revocation is missed: if the CRLs at the start, or those of any later load, revoke a
/// certificate of the connection's chain, the connection does not go on, whatever else happens.
pub proof fn law_no_revocation_is_missed<'a, Q>(
    chain: Option<Seq<CertKey>>,
    events: Seq<ServeEvent<'a, Q>>,
    i: int,
)
    requires
        0 <= i < events.len(),
        crate::server::revokes_chain(chain, events[i]),
    ensures
        !(served_by(chain, events).1 is Continue),
    decreases events.len(),
{
    let before = events.drop_last();
    if i < events.len() - 1 {
        assert(before[i] == events[i]);
        law_no_revocation_is_missed(chain, before, i);
    }
}

/// A connection whose chain is revoked when serving begins serves nothing: it is counted, signalled
/// and ended at once, whatever events follow.
pub proof fn law_revoked_at_start_is_ended_at_once<'a, Q>(
    chain: Seq<CertKey>,
    events: Seq<ServeEvent<'a, Q>>,
    crl: &'a CrlSet,
)
    requires
        events.len() > 0,
        events[0] == ServeEvent::<'a, Q>::Start(crl),
        crate::crl::chain_revoked(crl@, chain),
    ensures
        served_by(Some(chain), events) == (
            seq![
                Action::<Q>::CountRejection(Reporter::Destination),
                Action::RaiseSignal,
                Action::AbruptShutdown(0),
                Action::StopPing,
            ],
            Flow::Close,
        ),
    decreases events.len(),
{
    let before = events.drop_last();
    if before.len() > 0 {
        assert(before[0] == events[0]);
        law_revoked_at_start_is_ended_at_once(chain, before, crl);
    } else {
        assert(events.last() == events[0]);
        assert(served_by(Some(chain), before) == (Seq::<Action<Q>>::empty(), Flow::Continue));
        assert(served_by(Some(chain), events).0 =~= crate::server::serve_rule(
            Some(chain),
            events.last(),
        ).0);
    }
}

/// What the loop has left on stays: no later event adds to it.
proof fn lemma_left_is_left<'a, Q>(
    chain: Option<Seq<CertKey>>,
    events: Seq<ServeEvent<'a, Q>>,
    n: int,
)
    requires
        0 <= n <= events.len(),
        !(served_by(chain, events.take(n)).1 is Continue),
    ensures
        served_by(chain, events) == served_by(chain, events.take(n)),
    decreases events.len(),
{
    if n < events.len() {
        let before = events.drop_last();
        assert(before.take(n) =~= events.take(n));
        lemma_left_is_left(chain, before, n);
    } else {
        assert(events.take(n) =~= events);
    }
}

/// All CRLs, those at the start and those of every load, are held against the whole chain. If a
/// certificate at any place of the chain is among those revoked, the loop does not go on; and where
/// it had gone on so far, it is left on this event, after a count, a signal, an abrupt shutdown and
/// a stop of the ping, in this order and with nothing after them. If none of the chain is, the event
/// changes nothing.
pub proof fn law_all_crls_are_held_against_the_whole_chain<'a, Q>(
    chain: Seq<CertKey>,
    events: Seq<ServeEvent<'a, Q>>,
    i: int,
    crl: &'a CrlSet,
)
    requires
        0 <= i < events.len(),
        events[i] == ServeEvent::<'a, Q>::CrlChanged(crl) || events[i] == ServeEvent::<
            'a,
            Q,
        >::Start(crl),
    ensures
        (exists|k: int| 0 <= k < chain.len() && crl@.contains(#[trigger] chain[k])) ==> {
            let so_far = served_by(Some(chain), events.take(i));
            &&& !(served_by(Some(chain), events).1 is Continue)
            &&& so_far.1 is Continue ==> served_by(Some(chain), events) == (
                so_far.0 + seq![
                    Action::<Q>::CountRejection(Reporter::Destination),
                    Action::RaiseSignal,
                    Action::AbruptShutdown(0),
                    Action::StopPing,
                ],
                Flow::Close,
            )
        },
        (forall|k: int| 0 <= k < chain.len() ==> !crl@.contains(#[trigger] chain[k])) ==> served_by(
            Some(chain),
            events.take(i + 1),
        ) == served_by(Some(chain), events.take(i)),
{
    let before = events.take(i);
    let with = events.take(i + 1);
    assert(with.drop_last() =~= before);
    assert(with.last() == events[i]);
    if exists|k: int| 0 <= k < chain.len() && crl@.contains(#[trigger] chain[k]) {
        let k = choose|k: int| 0 <= k < chain.len() && crl@.contains(#[trigger] chain[k]);
        assert(crate::crl::chain_revoked(crl@, chain));
        lemma_left_is_left(Some(chain), events, i + 1);
    } else {
        assert(!crate::crl::chain_revoked(crl@, chain));
        assert(served_by(Some(chain), with).0 =~= served_by(Some(chain), before).0);
    }
}

/// The same in terms of the predicate on sets of revoked certificates: a load that revokes the
/// chain ends the loop in a count, a signal, an abrupt shutdown and a stop of the ping, and one that
/// does not changes nothing.
pub proof fn law_every_load_is_checked<'a, Q>(
    chain: Seq<CertKey>,
    events: Seq<ServeEvent<'a, Q>>,
    i: int,
    crl: &'a CrlSet,
)
    requires
        0 <= i < events.len(),
        events[i] == ServeEvent::<'a, Q>::CrlChanged(crl),
    ensures
        crate::crl::chain_revoked(crl@, chain) ==> {
            let so_far = served_by(Some(chain), events.take(i));
            &&& !(served_by(Some(chain), events).1 is Continue)
            &&& so_far.1 is Continue ==> served_by(Some(chain), events) == (
                so_far.0 + seq![
                    Action::<Q>::CountRejection(Reporter::Destination),
                    Action::RaiseSignal,
                    Action::AbruptShutdown(0),
                    Action::StopPing,
                ],
                Flow::Close,
            )
        },
        !crate::crl::chain_revoked(crl@, chain) ==> served_by(Some(chain), events.take(i + 1))
            == served_by(Some(chain), events.take(i)),
{
    law_all_crls_are_held_against_the_whole_chain(chain, events, i, crl);
    if crate::crl::chain_revoked(crl@, chain) {
        let k = choose|k: int| 0 <= k < chain.len() && #[trigger] crl@.contains(chain[k]);
        assert(crl@.contains(chain[k]));
    } else {
        assert forall|k: int| 0 <= k < chain.len() implies !crl@.contains(#[trigger] chain[k]) by {
            if crl@.contains(chain[k]) {
                assert(crate::crl::chain_revoked(crl@, chain));
            }
        }
    }
}

/// The same CRLs are acted on alike at the start and on a load.
pub proof fn law_start_and_load_are_alike<'a, Q>(chain: Option<Seq<CertKey>>, crl: &'a CrlSet)
    ensures
        crate::server::serve_rule(chain, ServeEvent::<'a, Q>::Start(crl))
            == crate::server::serve_rule(chain, ServeEvent::<'a, Q>::CrlChanged(crl)),
        crate::server::revokes_chain(chain, ServeEvent::<'a, Q>::Start(crl))
            == crate::server::revokes_chain(chain, ServeEvent::<'a, Q>::CrlChanged(crl)),
{
}

/// A certificate that the peer has shown, at any place of its chain, and that a CRL at the start or
/// of any load lists, at any place of it, ends the connection.
pub proof fn law_shown_and_listed_ends_the_connection<
    'a,
    Q,
    F: FnOnce(Vec<Vec<u8>>) -> Vec<CertId>,
>(
    conn_state: CommonState,
    chain_cert_ids: F,
    state: &ConnectionRevocation,
    key: spec_fn(Seq<u8>) -> CertKey,
    shown: Seq<Seq<u8>>,
    events: Seq<ServeEvent<'a, Q>>,
    crl: &'a CrlSet,
    at: int,
    n: int,
    i: int,
    j: int,
)
    requires
        crate::revocation::ids_of_peer(conn_state, chain_cert_ids, state.ids()),
        forall|chain: Vec<Vec<u8>>, made: Vec<CertId>| #[trigger]
            call_ensures(chain_cert_ids, (chain,), made) ==> made@.len() == chain@.len() && (forall|
                m: int,
            |
                0 <= m < chain@.len() ==> ((#[trigger] made@[m]).issuer@, made@[m].serial@) == key(
                    chain@[m]@,
                )),
        crate::outside::peer_chain(conn_state) == Some(shown),
        0 <= at < events.len(),
        events[at] == ServeEvent::<'a, Q>::CrlChanged(crl) || events[at] == ServeEvent::<
            'a,
            Q,
        >::Start(crl),
        0 <= n < shown.len(),
        0 <= i < crl.crls@.len(),
        0 <= j < crl.crls@[i].revoked@.len(),
        key(shown[n]) == (crl.crls@[i].issuer@, crl.crls@[i].revoked@[j]@),
    ensures
        !(served_by(crate::server::watched_chain(Some(state)), events).1 is Continue),
{
    crate::revocation::law_every_shown_certificate_is_kept(
        conn_state,
        chain_cert_ids,
        state.ids(),
        key,
    );
    crate::server::law_whole_chain_is_watched(state);
    let chain = crate::server::watched_chain(Some(state))->0;
    assert((state.ids()@[n].issuer@, state.ids()@[n].serial@) == key(shown[n]));
    assert(chain[n] == key(shown[n]));
    assert(crl.crls@[i].revoked@[j]@ == chain[n].1);
    crate::crl::law_set_holds_exactly_the_listed_serials(*crl, chain[n]);
    law_all_crls_are_held_against_the_whole_chain(chain, events, at, crl);
}

/// While the loop goes on, a lost ping ends it with an abrupt shutdown, a drain with a graceful one,
/// and the end of the requests with a return; a failure to accept returns its error and does
/// nothing. A request is served and the loop goes on. The connection's chain has no part in it.
pub proof fn law_what_other_events_do<'a, Q>(
    chain: Option<Seq<CertKey>>,
    events: Seq<ServeEvent<'a, Q>>,
    request: Q,
    error: h2::Error,
)
    requires
        served_by(chain, events).1 is Continue,
    ensures
        ({
            let done = served_by(chain, events).0;
            &&& served_by(chain, events.push(ServeEvent::PingDropped)) == (
                done.push(Action::AbruptShutdown(0)).push(Action::StopPing),
                Flow::Close,
            )
            &&& served_by(chain, events.push(ServeEvent::Drain)) == (
                done.push(Action::GracefulShutdown).push(Action::StopPing),
                Flow::Close,
            )
            &&& served_by(chain, events.push(ServeEvent::Accepted(None))) == (
                done.push(Action::StopPing),
                Flow::Return(Ok(())),
            )
            &&& served_by(chain, events.push(ServeEvent::Accepted(Some(Err(error))))) == (
                done,
                Flow::Return(Err(ProxyError::H2(error))),
            )
            &&& served_by(chain, events.push(ServeEvent::Accepted(Some(Ok(request))))) == (
                done.push(Action::Serve(request)),
                Flow::Continue,
            )
        }),
{
    let done = served_by(chain, events).0;
    assert(events.push(ServeEvent::PingDropped).drop_last() =~= events);
    assert(events.push(ServeEvent::Drain).drop_last() =~= events);
    assert(events.push(ServeEvent::Accepted(None)).drop_last() =~= events);
    assert(events.push(ServeEvent::Accepted(Some(Err(error)))).drop_last() =~= events);
    assert(events.push(ServeEvent::Accepted(Some(Ok(request)))).drop_last() =~= events);
    assert(served_by(chain, events.push(ServeEvent::PingDropped)).0 =~= done.push(
        Action::AbruptShutdown(0),
    ).push(Action::StopPing));
    assert(served_by(chain, events.push(ServeEvent::Drain)).0 =~= done.push(
        Action::GracefulShutdown,
    ).push(Action::StopPing));
    assert(served_by(chain, events.push(ServeEvent::Accepted(None))).0 =~= done.push(
        Action::StopPing,
    ));
    assert(served_by(chain, events.push(ServeEvent::Accepted(Some(Err(error))))).0 =~= done);
    assert(served_by(chain, events.push(ServeEvent::Accepted(Some(Ok(request))))).0 =~= done.push(
        Action::Serve(request),
    ));
}

/// CRLs that do not revoke the chain, at the start or of a load, and any CRLs where the connection
/// has no revocation state, leave the connection as it is.
pub proof fn law_other_crls_change_nothing<'a, Q>(
    chain: Option<Seq<CertKey>>,
    events: Seq<ServeEvent<'a, Q>>,
    event: ServeEvent<'a, Q>,
)
    requires
        event is Start || event is CrlChanged,
        !crate::server::revokes_chain(chain, event),
    ensures
        served_by(chain, events.push(event)) == served_by(chain, events),
{
    let more = events.push(event);
    assert(more.drop_last() =~= events);
    assert(served_by(chain, more).0 =~= served_by(chain, events).0);
}

/// Where no CRLs, at the start or of any load, revoke the chain, the connection is served exactly
/// as one without revocation state is over the same events.
pub proof fn law_harmless_crls_serve_as_without<'a, Q>(
    chain: Option<Seq<CertKey>>,
    events: Seq<ServeEvent<'a, Q>>,
)
    requires
        forall|i: int|
            0 <= i < events.len() ==> !crate::server::revokes_chain(chain, #[trigger] events[i]),
    ensures
        served_by(chain, events) == served_by(None, events),
    decreases events.len(),
{
    if events.len() > 0 {
        let before = events.drop_last();
        assert forall|i: int| 0 <= i < before.len() implies !crate::server::revokes_chain(
            chain,
            #[trigger] before[i],
        ) by {
            assert(before[i] == events[i]);
        }
        law_harmless_crls_serve_as_without(chain, before);
        assert(!crate::server::revokes_chain(chain, events[events.len() - 1]));
    }
}

/// The rejection is counted, and the revocation signalled, just when the loop is left on CRLs that
/// revoke the chain. Each is done once, for an inbound connection: first the count, then the
/// signal, then at once the shutdown, an abrupt one.
pub proof fn law_revocation_is_counted_then_signalled_then_torn_down<'a, Q>(
    chain: Option<Seq<CertKey>>,
    events: Seq<ServeEvent<'a, Q>>,
)
    ensures
        (exists|k: int|
            0 <= k < served_by(chain, events).0.len() && #[trigger] served_by(chain, events).0[k]
                is CountRejection) <==> (exists|i: int|
            0 <= i < taken(chain, events).len() && crate::server::revokes_chain(
                chain,
                #[trigger] taken(chain, events)[i],
            )),
        forall|k: int|
            0 <= k < served_by(chain, events).0.len() && (#[trigger] served_by(chain, events).0[k]
                is CountRejection || served_by(chain, events).0[k] is RaiseSignal) ==> {
                let (done, flow) = served_by(chain, events);
                let first = done.len() - 4;
                &&& 0 <= first
                &&& done[first] == Action::<Q>::CountRejection(Reporter::Destination)
                &&& done[first + 1] == Action::<Q>::RaiseSignal
                &&& done[first + 2] == Action::<Q>::AbruptShutdown(0)
                &&& done[first + 3] == Action::<Q>::StopPing
                &&& forall|j: int| 0 <= j < first ==> #[trigger] done[j] is Serve
                &&& flow is Close
            },
{
    law_requests_are_served_in_order(chain, events);
    let (done, flow) = served_by(chain, events);
    let seen = taken(chain, events);
    if flow is Continue {
        assert forall|i: int| 0 <= i < seen.len() implies !crate::server::revokes_chain(
            chain,
            #[trigger] seen[i],
        ) by {
            if crate::server::revokes_chain(chain, seen[i]) {
                law_no_revocation_is_missed(chain, events, i);
            }
        }
    } else {
        let served = serving(requests(seen));
        assert forall|i: int| 0 <= i < seen.len() - 1 implies !crate::server::revokes_chain(
            chain,
            #[trigger] seen[i],
        ) by {
            if crate::server::revokes_chain(chain, seen[i]) {
                assert(seen.drop_last()[i] == seen[i]);
                law_no_revocation_is_missed(chain, seen.drop_last(), i);
            }
        }
        assert forall|k: int| 0 <= k < served.len() implies #[trigger] done[k] is Serve by {
            assert(done[k] == served[k]);
        }
        if crate::server::revokes_chain(chain, seen.last()) {
            assert(done[served.len() as int] is CountRejection);
            assert(crate::server::revokes_chain(chain, seen[seen.len() - 1]));
        }
    }
}

/// A connection is shut down at most once, and gracefully only when the proxy drains.
pub proof fn law_one_shutdown<'a, Q>(
    chain: Option<Seq<CertKey>>,
    events: Seq<ServeEvent<'a, Q>>,
)
    ensures
        forall|j: int, k: int|
            0 <= j < k < served_by(chain, events).0.len() && is_shutdown(
                #[trigger] served_by(chain, events).0[j],
            ) ==> !is_shutdown(#[trigger] served_by(chain, events).0[k]),
        (exists|k: int|
            0 <= k < served_by(chain, events).0.len() && is_shutdown(
                #[trigger] served_by(chain, events).0[k],
            )) <==> served_by(chain, events).1 is Close,
        forall|k: int|
            0 <= k < served_by(chain, events).0.len() && #[trigger] served_by(chain, events).0[k]
                is GracefulShutdown ==> taken(chain, events).last() is Drain,
{
    law_requests_are_served_in_order(chain, events);
    let (done, flow) = served_by(chain, events);
    let seen = taken(chain, events);
    if !(flow is Continue) {
        let served = serving(requests(seen));
        assert forall|k: int| 0 <= k < served.len() implies #[trigger] done[k] is Serve by {
            assert(done[k] == served[k]);
        }
        if flow is Close {
            let first: int = served.len() as int;
            if crate::server::revokes_chain(chain, seen.last()) {
                assert(is_shutdown(done[first + 2]));
            } else {
                assert(is_shutdown(done[first]));
            }
        }
    }
}

/// The ping task is told to stop, as the last action, whenever the loop is left, save where
/// accepting a request failed: then nothing is done but to return the error.
pub proof fn law_ping_is_stopped<'a, Q>(
    chain: Option<Seq<CertKey>>,
    events: Seq<ServeEvent<'a, Q>>,
)
    ensures
        served_by(chain, events).1 matches Flow::Return(Err(_)) ==> served_by(chain, events).0
            == serving(requests(taken(chain, events))),
        served_by(chain, events).1 is Close || served_by(chain, events).1 == Flow::Return(Ok(()))
            ==> served_by(chain, events).0.len() > 0 && served_by(chain, events).0.last()
            is StopPing,
{
    law_requests_are_served_in_order(chain, events);
    let (done, flow) = served_by(chain, events);
    let seen = taken(chain, events);
    if flow matches Flow::Return(Err(_)) {
        assert(done =~= serving(requests(seen)));
    }
}

/// The task fails with a drain timeout just when the connection was shut down and had not closed
/// when draining had to end, and with an HTTP/2 error just when accepting a request failed with it.
pub proof fn law_errors<'a, Q>(
    chain: Option<Seq<CertKey>>,
    events: Seq<ServeEvent<'a, Q>>,
    close: CloseEvent,
    error: h2::Error,
)
    ensures
        returned(chain, events, close) == Some(Err::<(), ProxyError>(ProxyError::DrainTimeOut))
            <==> (served_by(chain, events).1 is Close && close is ForceShutdown),
        returned(chain, events, close) == Some(Err::<(), ProxyError>(ProxyError::H2(error))) <==> (
        !(served_by(chain, events).1 is Continue) && taken(chain, events).last() == ServeEvent::<
            'a,
            Q,
        >::Accepted(Some(Err(error)))),
{
    law_requests_are_served_in_order(chain, events);
}

} // verus!
