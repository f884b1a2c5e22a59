//! What holds of calls, whichever results they give: how the result of a call goes by its arguments,
//! and how the results of several calls go together.

use crate::crl::{CertId, CertKey, Crl, CrlSet};
use crate::revocation::{chain_ids, label_of, wait_for_revocation, Reporter, Wait, Wake};
use crate::server::{
    close_event, error_sent, handshake_builder, handshake_done, serve_event, stream_opened,
    wait_for_crl_change, Action, CloseEvent, Config, Flow, H2Request, H2Stream, ProxyError,
    ServeEvent, ServeStep,
};
use bytes::Bytes;
use h2::server::Builder;
use h2::{RecvStream, SendStream};
use http::request::Parts;
use http::{HeaderMap, HeaderValue, Response};
use rustls::CommonState;
use tokio::sync::watch;
use vstd::prelude::*;

verus! {

/// A CRL lists a certificate of its issuer just when it holds the serial, wherever it holds it, and
/// no certificate of another issuer.
pub proof fn law_lists_finds_every_serial(crl: &Crl, id: &CertId, listed: bool)
    requires
        call_ensures(Crl::lists, (crl, id), listed),
    ensures
        forall|j: int|
            0 <= j < crl.revoked@.len() && (#[trigger] crl.revoked@[j])@ == id.serial@ && crl.issuer@
                == id.issuer@ ==> listed,
        listed ==> crl.issuer@ == id.issuer@ && exists|j: int|
            0 <= j < crl.revoked@.len() && (#[trigger] crl.revoked@[j])@ == id.serial@,
{
}

/// A CRL with one serial more lists what it listed before, that serial, and nothing beside.
pub proof fn law_lists_grows_with_the_crl(
    shorter: &Crl,
    longer: &Crl,
    serial: Vec<u8>,
    id: &CertId,
    before: bool,
    after: bool,
)
    requires
        longer.issuer@ == shorter.issuer@,
        longer.revoked@ == shorter.revoked@.push(serial),
        call_ensures(Crl::lists, (shorter, id), before),
        call_ensures(Crl::lists, (longer, id), after),
    ensures
        after <==> before || (id.issuer@ == shorter.issuer@ && id.serial@ == serial@),
{
    law_lists_finds_every_serial(shorter, id, before);
    law_lists_finds_every_serial(longer, id, after);
    let last = shorter.revoked@.len() as int;
    assert(longer.revoked@[last] == serial);
    assert forall|j: int| 0 <= j < last implies #[trigger] longer.revoked@[j]
        == shorter.revoked@[j] by {}
    if before {
        let j = choose|j: int|
            0 <= j < shorter.revoked@.len() && (#[trigger] shorter.revoked@[j])@ == id.serial@;
        assert(longer.revoked@[j]@ == id.serial@);
    }
    if after {
        let j = choose|j: int|
            0 <= j < longer.revoked@.len() && (#[trigger] longer.revoked@[j])@ == id.serial@;
        if j < last {
            assert(shorter.revoked@[j]@ == id.serial@);
        }
    }
}

/// Some CRLs revoke a certificate just when one of them lists it, whichever it is.
pub proof fn law_revokes_asks_every_crl(
    set: &CrlSet,
    id: &CertId,
    revoked: bool,
    i: int,
    listed: bool,
)
    requires
        call_ensures(CrlSet::revokes, (set, id), revoked),
        0 <= i < set.crls@.len(),
        call_ensures(Crl::lists, (&set.crls@[i], id), listed),
    ensures
        listed ==> revoked,
        revoked ==> exists|n: int|
            0 <= n < set.crls@.len() && (#[trigger] set.crls@[n]).issuer@ == id.issuer@ && (exists|
                j: int,
            |
                0 <= j < set.crls@[n].revoked@.len() && (#[trigger] set.crls@[n].revoked@[j])@
                    == id.serial@),
{
    law_lists_finds_every_serial(&set.crls@[i], id, listed);
    if listed {
        let j = choose|j: int|
            0 <= j < set.crls@[i].revoked@.len() && (#[trigger] set.crls@[i].revoked@[j])@
                == id.serial@;
        assert(set.crls@[i].revoked@[j]@ == id.serial@);
    }
}

/// A chain is revoked as soon as one of its certificates is, at whatever place; and where it is
/// not, none of them is.
pub proof fn law_any_revoked_asks_every_certificate(
    set: &CrlSet,
    ids: &Vec<CertId>,
    any: bool,
    k: int,
    revoked: bool,
)
    requires
        call_ensures(CrlSet::any_revoked, (set, ids), any),
        0 <= k < ids@.len(),
        call_ensures(CrlSet::revokes, (set, &ids@[k]), revoked),
    ensures
        revoked ==> any,
        ids@.len() == 1 ==> any == revoked,
{
    if revoked {
        let (i, j) = choose|i: int, j: int|
            0 <= i < set.crls@.len() && 0 <= j < set.crls@[i].revoked@.len()
                && set.crls@[i].issuer@ == ids@[k].issuer@ && (
            #[trigger] set.crls@[i].revoked@[j])@ == ids@[k].serial@;
        assert(set.crls@[i].revoked@[j]@ == ids@[k].serial@);
    }
    if any && ids@.len() == 1 {
        let (n, i, j) = choose|n: int, i: int, j: int|
            0 <= n < ids@.len() && 0 <= i < set.crls@.len() && 0 <= j
                < set.crls@[i].revoked@.len() && set.crls@[i].issuer@ == (
            #[trigger] ids@[n]).issuer@ && (#[trigger] set.crls@[i].revoked@[j])@
                == ids@[n].serial@;
        assert(n == k);
        assert(set.crls@[i].revoked@[j]@ == ids@[k].serial@);
    }
}

/// The parts of a chain decide over the whole: it is revoked just when one of them is.
pub proof fn law_any_revoked_goes_by_the_parts(
    set: &CrlSet,
    first: &Vec<CertId>,
    second: &Vec<CertId>,
    both: &Vec<CertId>,
    any_first: bool,
    any_second: bool,
    any: bool,
)
    requires
        both@ == first@ + second@,
        call_ensures(CrlSet::any_revoked, (set, first), any_first),
        call_ensures(CrlSet::any_revoked, (set, second), any_second),
        call_ensures(CrlSet::any_revoked, (set, both), any),
    ensures
        any <==> any_first || any_second,
        both@.len() == 0 ==> !any,
{
    let len = first@.len();
    if any_first {
        let (k, i, j) = choose|k: int, i: int, j: int|
            0 <= k < first@.len() && 0 <= i < set.crls@.len() && 0 <= j
                < set.crls@[i].revoked@.len() && set.crls@[i].issuer@ == (
            #[trigger] first@[k]).issuer@ && (#[trigger] set.crls@[i].revoked@[j])@
                == first@[k].serial@;
        assert(both@[k] == first@[k]);
        assert(set.crls@[i].revoked@[j]@ == both@[k].serial@);
    }
    if any_second {
        let (k, i, j) = choose|k: int, i: int, j: int|
            0 <= k < second@.len() && 0 <= i < set.crls@.len() && 0 <= j
                < set.crls@[i].revoked@.len() && set.crls@[i].issuer@ == (
            #[trigger] second@[k]).issuer@ && (#[trigger] set.crls@[i].revoked@[j])@
                == second@[k].serial@;
        assert(both@[len + k] == second@[k]);
        assert(set.crls@[i].revoked@[j]@ == both@[len + k].serial@);
    }
    if any {
        let (k, i, j) = choose|k: int, i: int, j: int|
            0 <= k < both@.len() && 0 <= i < set.crls@.len() && 0 <= j
                < set.crls@[i].revoked@.len() && set.crls@[i].issuer@ == (
            #[trigger] both@[k]).issuer@ && (#[trigger] set.crls@[i].revoked@[j])@
                == both@[k].serial@;
        if k < len {
            assert(both@[k] == first@[k]);
            assert(set.crls@[i].revoked@[j]@ == first@[k].serial@);
        } else {
            assert(both@[k] == second@[k - len]);
            assert(set.crls@[i].revoked@[j]@ == second@[k - len].serial@);
        }
    }
}

/// The ids of a chain are the whole list that was returned for it, and none where there is no chain.
pub proof fn law_chain_ids_hands_the_list_on<F: FnOnce(Vec<Vec<u8>>) -> Vec<CertId>>(
    chain: Vec<Vec<u8>>,
    chain_cert_ids: F,
    with: Vec<CertId>,
    without: Vec<CertId>,
)
    requires
        call_ensures(chain_ids::<F>, (Some(chain), chain_cert_ids), with),
        call_ensures(chain_ids::<F>, (None, chain_cert_ids), without),
    ensures
        call_ensures(chain_cert_ids, (chain,), with),
        without@.len() == 0,
{
}

/// A peer is named by its identity, each character of it, and `<unknown>` where it has none.
pub proof fn law_label_is_the_identity(id: String, named: String, unnamed: String)
    requires
        call_ensures(label_of, (&Some(id),), named),
        call_ensures(label_of, (&None,), unnamed),
    ensures
        named@ == id@,
        unnamed@ == "<unknown>"@,
{
}

/// A wait ends just when a check of all the certificates that are kept finds one revoked, at its
/// start as on a load. It never does without a state, or with whatever loads the CRLs gone.
pub proof fn law_wait_goes_by_the_check(
    state: &crate::revocation::ConnectionRevocation,
    crl: &CrlSet,
    any: bool,
    at_start: Wait,
    on_load: Wait,
    at_end: Wait,
    wake: Wake,
    without: Wait,
)
    requires
        call_ensures(CrlSet::any_revoked, (crl, &state.ids()), any),
        call_ensures(wait_for_revocation, (Some((state, crl)), Wake::Start), at_start),
        call_ensures(wait_for_revocation, (Some((state, crl)), Wake::Changed), on_load),
        call_ensures(wait_for_revocation, (Some((state, crl)), Wake::SenderGone), at_end),
        call_ensures(wait_for_revocation, (None, wake), without),
    ensures
        at_start is Resolved <==> any,
        at_start is AwaitChange <==> !any,
        on_load == at_start,
        at_end is Dormant,
        without is Dormant,
{
}

/// A wait for the next load begins by waiting, ends on a load, and never ends without a state or
/// with whatever loads the CRLs gone.
pub proof fn law_wait_for_crl_change_ends_on_a_load(
    state: &crate::server::ConnectionRevocation,
    at_start: Wait,
    on_load: Wait,
    at_end: Wait,
    wake: Wake,
    without: Wait,
)
    requires
        call_ensures(wait_for_crl_change, (Some(state), Wake::Start), at_start),
        call_ensures(wait_for_crl_change, (Some(state), Wake::Changed), on_load),
        call_ensures(wait_for_crl_change, (Some(state), Wake::SenderGone), at_end),
        call_ensures(wait_for_crl_change, (None, wake), without),
    ensures
        at_start is AwaitChange,
        on_load is Resolved,
        at_end is Dormant,
        without is Dormant,
{
}

/// Serving acts on CRLs, at the start and on every load alike, just when a check of all the
/// certificates that are kept finds one revoked: it counts, signals, shuts down abruptly and stops
/// the ping, in this order, and leaves the loop. Otherwise, and without a state, it does nothing.
pub proof fn law_serving_goes_by_the_check<'a, Q>(
    state: &crate::server::ConnectionRevocation,
    crl: &'a CrlSet,
    any: bool,
    at_start: ServeStep<Q>,
    on_load: ServeStep<Q>,
    start_without: ServeStep<Q>,
    load_without: ServeStep<Q>,
)
    requires
        call_ensures(CrlSet::any_revoked, (crl, &state.ids()), any),
        call_ensures(serve_event::<Q>, (Some(state), ServeEvent::Start(crl)), at_start),
        call_ensures(serve_event::<Q>, (Some(state), ServeEvent::CrlChanged(crl)), on_load),
        call_ensures(serve_event::<Q>, (None, ServeEvent::Start(crl)), start_without),
        call_ensures(serve_event::<Q>, (None, ServeEvent::CrlChanged(crl)), load_without),
    ensures
        any ==> at_start.flow is Close && at_start.actions@ == seq![
            Action::<Q>::CountRejection(Reporter::Destination),
            Action::RaiseSignal,
            Action::AbruptShutdown(0),
            Action::StopPing,
        ],
        !any ==> at_start.flow is Continue && at_start.actions@.len() == 0,
        on_load.flow == at_start.flow,
        on_load.actions@ == at_start.actions@,
        start_without.flow is Continue && start_without.actions@.len() == 0,
        load_without.flow is Continue && load_without.actions@.len() == 0,
{
}

/// Whatever is kept of the peer's chain, a lost ping shuts down abruptly, a drain gracefully, the
/// end of the requests returns, a failure to accept returns its error, and a request is served.
pub proof fn law_serving_other_events<'a, Q>(
    revocation: Option<&crate::server::ConnectionRevocation>,
    request: Q,
    error: h2::Error,
    lost: ServeStep<Q>,
    drained: ServeStep<Q>,
    ended: ServeStep<Q>,
    failed: ServeStep<Q>,
    accepted: ServeStep<Q>,
)
    requires
        call_ensures(serve_event::<Q>, (revocation, ServeEvent::PingDropped), lost),
        call_ensures(serve_event::<Q>, (revocation, ServeEvent::Drain), drained),
        call_ensures(serve_event::<Q>, (revocation, ServeEvent::Accepted(None)), ended),
        call_ensures(serve_event::<Q>, (revocation, ServeEvent::Accepted(Some(Err(error)))), failed),
        call_ensures(
            serve_event::<Q>,
            (revocation, ServeEvent::Accepted(Some(Ok(request)))),
            accepted,
        ),
    ensures
        lost.flow is Close && lost.actions@ == seq![Action::<Q>::AbruptShutdown(0), Action::StopPing],
        drained.flow is Close && drained.actions@ == seq![
            Action::<Q>::GracefulShutdown,
            Action::StopPing,
        ],
        ended.flow == Flow::Return(Ok(())) && ended.actions@ == seq![Action::<Q>::StopPing],
        failed.flow == Flow::Return(Err(ProxyError::H2(error))) && failed.actions@.len() == 0,
        accepted.flow is Continue && accepted.actions@ == seq![Action::Serve(request)],
{
}

/// HTTP/2's errors come back as they are, from a handshake and from either way of answering; and
/// its successes as successes, with the connection or the two streams that there are.
pub proof fn law_http2_outcomes_are_passed_on<C, D>(
    conn: C,
    sender: SendStream<Bytes>,
    recv: RecvStream,
    error: h2::Error,
    connected: Result<C, ProxyError>,
    refused: Result<C, ProxyError>,
    ended: Result<(), ProxyError>,
    not_ended: Result<(), ProxyError>,
    opened: Result<H2Stream<D>, ProxyError>,
    not_opened: Result<H2Stream<D>, ProxyError>,
)
    requires
        call_ensures(handshake_done::<C>, (Ok(conn),), connected),
        call_ensures(handshake_done::<C>, (Err(error),), refused),
        call_ensures(error_sent, (Ok(sender),), ended),
        call_ensures(error_sent, (Err(error),), not_ended),
        call_ensures(stream_opened::<D>, (recv, Ok(sender)), opened),
        call_ensures(stream_opened::<D>, (recv, Err(error)), not_opened),
    ensures
        connected == Ok::<C, ProxyError>(conn),
        refused == Err::<C, ProxyError>(ProxyError::H2(error)),
        ended is Ok,
        not_ended == Err::<(), ProxyError>(ProxyError::H2(error)),
        opened is Ok,
        opened->Ok_0.read.recv_stream == recv,
        opened->Ok_0.read.dropped is None,
        opened->Ok_0.write.send_stream == sender,
        opened->Ok_0.write.dropped is None,
        not_opened == Err::<H2Stream<D>, ProxyError>(ProxyError::H2(error)),
{
}

/// A connection that has closed ends the task well, and one that had to be forced ends it with a
/// timeout.
pub proof fn law_close_event_tells_the_two_ends_apart(
    forced: Result<(), ProxyError>,
    closed: Result<(), ProxyError>,
)
    requires
        call_ensures(close_event, (CloseEvent::ForceShutdown,), forced),
        call_ensures(close_event, (CloseEvent::Closed,), closed),
    ensures
        forced == Err::<(), ProxyError>(ProxyError::DrainTimeOut),
        closed is Ok,
{
}

/// A handshake takes its windows and its frame size from the configuration, each from its own
/// field, and bounds the headers, the send buffer and the streams alike for all of them.
pub proof fn law_handshake_goes_by_the_configuration(
    cfg: &Config,
    other: &Config,
    builder: Builder,
    other_builder: Builder,
)
    requires
        call_ensures(handshake_builder, (cfg,), builder),
        call_ensures(handshake_builder, (other,), other_builder),
    ensures
        ({
            let settings = crate::outside::builder_settings(builder);
            let others = crate::outside::builder_settings(other_builder);
            &&& settings.initial_window_size == Some(cfg.window_size)
            &&& settings.initial_connection_window_size == Some(cfg.connection_window_size)
            &&& settings.max_frame_size == Some(cfg.frame_size)
            &&& settings.max_header_list_size == Some(65536u32)
            &&& settings.max_send_buffer_size == 262144
            &&& settings.max_concurrent_streams == Some(200u32)
            &&& settings == others <==> cfg.window_size == other.window_size
                && cfg.connection_window_size == other.connection_window_size && cfg.frame_size
                == other.frame_size
        }),
{
}

/// A request holds the head and the body that came, and the handle for its answer; its headers are
/// those of its head.
pub proof fn law_request_is_kept_whole<S>(
    request: http::Request<RecvStream>,
    send: S,
    accepted: H2Request<S>,
    head: &Parts,
    headers: &HeaderMap<HeaderValue>,
)
    requires
        call_ensures(H2Request::<S>::new, (request, send), accepted),
        call_ensures(H2Request::<S>::get_request, (&accepted,), head),
        call_ensures(H2Request::<S>::headers, (&accepted,), headers),
    ensures
        accepted.send == send,
        accepted.recv == crate::outside::request_split(request).1,
        *head == crate::outside::request_split(request).0,
        *headers == crate::outside::parts_headers(*head),
{
}

/// An error answer is sent through the request's own handle and ends the stream, an ordinary one
/// leaves it open. What comes back is HTTP/2's own outcome: its error, or success.
pub proof fn law_answers_are_sent_as_they_are<S, D, F>(
    request: H2Request<S>,
    resp: Response<()>,
    send_head: F,
    ended: Result<(), ProxyError>,
    opened: Result<H2Stream<D>, ProxyError>,
) where F: FnOnce(S, Response<()>, bool) -> Result<SendStream<Bytes>, h2::Error>
    requires
        call_ensures(H2Request::<S>::send_error::<F>, (request, resp, send_head), ended),
        call_ensures(H2Request::<S>::send_response::<D, F>, (request, resp, send_head), opened),
    ensures
        ended is Ok ==> exists|sender: SendStream<Bytes>| #[trigger]
            call_ensures(send_head, (request.send, resp, true), Ok(sender)),
        ended is Err ==> exists|error: h2::Error|
            ended == Err::<(), ProxyError>(ProxyError::H2(error)) && #[trigger] call_ensures(
                send_head,
                (request.send, resp, true),
                Err(error),
            ),
        opened matches Ok(stream) ==> {
            &&& call_ensures(
                send_head,
                (request.send, resp, false),
                Ok(stream.write.send_stream),
            )
            &&& stream.read.recv_stream == request.recv
            &&& stream.read.dropped is None
            &&& stream.write.dropped is None
        },
        opened is Err ==> exists|error: h2::Error|
            opened == Err::<H2Stream<D>, ProxyError>(ProxyError::H2(error))
                && #[trigger] call_ensures(send_head, (request.send, resp, false), Err(error)),
{
    let first = choose|answer: Result<SendStream<Bytes>, h2::Error>| #[trigger]
        call_ensures(send_head, (request.send, resp, true), answer) && (match answer {
            Ok(_) => ended == Ok::<(), ProxyError>(()),
            Err(error) => ended == Err::<(), ProxyError>(ProxyError::H2(error)),
        });
    match first {
        Ok(sender) => {
            assert(call_ensures(send_head, (request.send, resp, true), Ok(sender)));
        },
        Err(error) => {
            assert(call_ensures(send_head, (request.send, resp, true), Err(error)));
        },
    }
    let second = choose|answer: Result<SendStream<Bytes>, h2::Error>| #[trigger]
        call_ensures(send_head, (request.send, resp, false), answer) && (match answer {
            Ok(sender) => {
                &&& opened matches Ok(stream)
                &&& stream.read.recv_stream == request.recv
                &&& stream.read.dropped is None
                &&& stream.write.send_stream == sender
                &&& stream.write.dropped is None
            },
            Err(error) => opened == Err::<H2Stream<D>, ProxyError>(ProxyError::H2(error)),
        });
    match second {
        Ok(sender) => {
            assert(call_ensures(send_head, (request.send, resp, false), Ok(sender)));
        },
        Err(error) => {
            assert(call_ensures(send_head, (request.send, resp, false), Err(error)));
        },
    }
}

/// A new outbound or inbound state keeps an id for each certificate that the peer has shown, the
/// one that `key` reads out of it and at its place, where `chain_cert_ids` gives each certificate
/// that id; and none where the peer has shown no chain. The signal that it makes is lowered.
pub proof fn law_new_state_keeps_the_whole_chain<F, G>(
    conn_state: &CommonState,
    chain_cert_ids: F,
    identity_from_connection: G,
    crl_rx: watch::Receiver<u64>,
    state: Box<crate::revocation::ConnectionRevocation>,
    key: spec_fn(Seq<u8>) -> CertKey,
) where
    F: FnOnce(Vec<Vec<u8>>) -> Vec<CertId>,
    G: FnOnce(&CommonState) -> Option<String>,

    requires
        call_ensures(
            crate::revocation::ConnectionRevocation::new::<F, G>,
            (conn_state, chain_cert_ids, identity_from_connection, crl_rx),
            state,
        ),
        forall|chain: Vec<Vec<u8>>, made: Vec<CertId>| #[trigger]
            call_ensures(chain_cert_ids, (chain,), made) ==> made@.len() == chain@.len() && (forall|
                n: int,
            |
                0 <= n < chain@.len() ==> ((#[trigger] made@[n]).issuer@, made@[n].serial@) == key(
                    chain@[n]@,
                )),
    ensures
        crate::outside::peer_chain(*conn_state) is None ==> state.ids()@.len() == 0,
        crate::outside::peer_chain(*conn_state) matches Some(shown) ==> state.ids()@.len()
            == shown.len() && forall|n: int|
            0 <= n < shown.len() ==> (
                (#[trigger] state.ids()@[n]).issuer@,
                state.ids()@[n].serial@,
            ) == key(shown[n]),
        call_ensures(identity_from_connection, (conn_state,), state.identity()),
        state.loads() == crl_rx,
        !crate::outside::signal_value(state.signal()),
{
    crate::revocation::law_every_shown_certificate_is_kept(
        *conn_state,
        chain_cert_ids,
        state.ids(),
        key,
    );
}

/// The same of the state of an inbound connection, which keeps the identity, the subscription and
/// the signal that it is given.
pub proof fn law_new_inbound_state_keeps_the_whole_chain<F>(
    conn_state: &CommonState,
    chain_cert_ids: F,
    crl_rx: watch::Receiver<u64>,
    peer_identity: Option<String>,
    revoked_tx: watch::Sender<bool>,
    state: Box<crate::server::ConnectionRevocation>,
    key: spec_fn(Seq<u8>) -> CertKey,
) where F: FnOnce(Vec<Vec<u8>>) -> Vec<CertId>
    requires
        call_ensures(
            crate::server::ConnectionRevocation::new::<F>,
            (conn_state, chain_cert_ids, crl_rx, peer_identity, revoked_tx),
            state,
        ),
        forall|chain: Vec<Vec<u8>>, made: Vec<CertId>| #[trigger]
            call_ensures(chain_cert_ids, (chain,), made) ==> made@.len() == chain@.len() && (forall|
                n: int,
            |
                0 <= n < chain@.len() ==> ((#[trigger] made@[n]).issuer@, made@[n].serial@) == key(
                    chain@[n]@,
                )),
    ensures
        crate::outside::peer_chain(*conn_state) is None ==> state.ids()@.len() == 0,
        crate::outside::peer_chain(*conn_state) matches Some(shown) ==> state.ids()@.len()
            == shown.len() && forall|n: int|
            0 <= n < shown.len() ==> (
                (#[trigger] state.ids()@[n]).issuer@,
                state.ids()@[n].serial@,
            ) == key(shown[n]),
        state.identity() == peer_identity,
        state.loads() == crl_rx,
        state.signal() == revoked_tx,
{
    crate::revocation::law_every_shown_certificate_is_kept(
        *conn_state,
        chain_cert_ids,
        state.ids(),
        key,
    );
}

/// A receiver that is taken reads the signal as it is and has no change to report, and an inbound
/// connection's peer is named by the identity that the state holds.
pub proof fn law_state_is_read_as_it_is(
    state: &crate::revocation::ConnectionRevocation,
    rx: watch::Receiver<bool>,
    inbound: &crate::server::ConnectionRevocation,
    peer: String,
)
    requires
        call_ensures(crate::revocation::ConnectionRevocation::subscribe_revoked, (state,), rx),
        call_ensures(crate::server::ConnectionRevocation::peer, (inbound,), peer),
    ensures
        crate::outside::receiver_sees(rx, state.signal()) == Some(
            (crate::outside::signal_value(state.signal()), false),
        ),
        inbound.identity() matches Some(id) ==> peer@ == id@,
        inbound.identity() is None ==> peer@ == "<unknown>"@,
{
}

} // verus!
