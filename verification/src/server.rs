//! Serving one inbound HBONE connection: its handshake settings, its requests and their answers,
//! and what the serving task does on each event.

use crate::crl::{CertId, CertKey, CrlSet};
use crate::outside::{
    builder_new, parts_headers_ref, parts_method_ref, parts_uri_ref, request_into_parts,
    set_initial_connection_window_size, set_initial_window_size, set_max_concurrent_streams,
    set_max_frame_size, set_max_header_list_size, set_max_send_buffer_size, watch_replace,
};
use crate::revocation::{label_of, peer_ids, Reporter, StateCall, Wait, Wake};
use bytes::Bytes;
use h2::server::Builder;
use h2::{RecvStream, SendStream};
use http::request::Parts;
use http::{HeaderMap, HeaderValue, Method, Response, Uri};
use rustls::CommonState;
use tokio::sync::watch;
use vstd::prelude::*;

verus! {

/// Why serving a connection or answering a request failed.
pub enum ProxyError {
    /// The HTTP/2 layer failed.
    H2(h2::Error),
    /// The connection was still open when draining had to end.
    DrainTimeOut,
}

impl From<h2::Error> for ProxyError {
    fn from(error: h2::Error) -> (converted: Self)
        ensures
            converted == ProxyError::H2(error),
    {
        ProxyError::H2(error)
    }
}

impl vstd::std_specs::convert::FromSpecImpl<h2::Error> for ProxyError {
    open spec fn obeys_from_spec() -> bool {
        true
    }

    open spec fn from_spec(error: h2::Error) -> Self {
        ProxyError::H2(error)
    }
}

/// The parts of the proxy's configuration that an HBONE server connection uses.
pub struct Config {
    /// Flow-control window of a stream.
    pub window_size: u32,
    /// Flow-control window of the connection.
    pub connection_window_size: u32,
    /// Largest frame that is accepted.
    pub frame_size: u32,
}

/// 64KB: the headers that are received are a bounded set.
pub const MAX_HEADER_LIST_SIZE: u32 = 65536;

/// 256KB, per stream.
pub const MAX_SEND_BUFFER_SIZE: usize = 262144;

/// Streams that a peer may have open at once.
pub const MAX_CONCURRENT_STREAMS: u32 = 200;

/// The handshake of a server connection, with its settings. `frame_size` is one that HTTP/2 allows.
pub fn handshake_builder(cfg: &Config) -> (builder: Builder)
    requires
        16_384 <= cfg.frame_size <= 16_777_215,
    ensures
        crate::outside::builder_settings(builder) == (crate::outside::Settings {
            initial_window_size: Some(cfg.window_size),
            initial_connection_window_size: Some(cfg.connection_window_size),
            max_frame_size: Some(cfg.frame_size),
            max_header_list_size: Some(65536),
            max_send_buffer_size: 262144,
            max_concurrent_streams: Some(200),
        }),
{
    let mut builder = builder_new();
    set_initial_window_size(&mut builder, cfg.window_size);
    set_initial_connection_window_size(&mut builder, cfg.connection_window_size);
    set_max_frame_size(&mut builder, cfg.frame_size);
    set_max_header_list_size(&mut builder, MAX_HEADER_LIST_SIZE);
    set_max_send_buffer_size(&mut builder, MAX_SEND_BUFFER_SIZE);
    set_max_concurrent_streams(&mut builder, MAX_CONCURRENT_STREAMS);
    builder
}

/// The read side of a stream. `dropped` tracks its end where somebody counts streams.
pub struct H2StreamReadHalf<D> {
    pub recv_stream: RecvStream,
    pub dropped: Option<D>,
}

/// The write side of a stream. `dropped` tracks its end where somebody counts streams.
pub struct H2StreamWriteHalf<D> {
    pub send_stream: SendStream<Bytes>,
    pub dropped: Option<D>,
}

/// Both sides of a stream.
pub struct H2Stream<D> {
    pub read: H2StreamReadHalf<D>,
    pub write: H2StreamWriteHalf<D>,
}

/// What is read of a request's head.
pub trait RequestParts {
    spec fn uri_view(&self) -> Uri;

    spec fn method_view(&self) -> Method;

    spec fn headers_view(&self) -> HeaderMap<HeaderValue>;

    fn uri(&self) -> (uri: &Uri)
        ensures
            *uri == self.uri_view(),
    ;

    fn method(&self) -> (method: &Method)
        ensures
            *method == self.method_view(),
    ;

    fn headers(&self) -> (headers: &HeaderMap<HeaderValue>)
        ensures
            *headers == self.headers_view(),
    ;
}

impl RequestParts for Parts {
    open spec fn uri_view(&self) -> Uri {
        crate::outside::parts_uri(*self)
    }

    open spec fn method_view(&self) -> Method {
        crate::outside::parts_method(*self)
    }

    open spec fn headers_view(&self) -> HeaderMap<HeaderValue> {
        crate::outside::parts_headers(*self)
    }

    fn uri(&self) -> (uri: &Uri)
        ensures
            *uri == crate::outside::parts_uri(*self),
    {
        parts_uri_ref(self)
    }

    fn method(&self) -> (method: &Method)
        ensures
            *method == crate::outside::parts_method(*self),
    {
        parts_method_ref(self)
    }

    fn headers(&self) -> (headers: &HeaderMap<HeaderValue>)
        ensures
            *headers == crate::outside::parts_headers(*self),
    {
        parts_headers_ref(self)
    }
}

/// A request on an HBONE connection, to be answered once. `S` is the handle that its answer is sent
/// through.
pub struct H2Request<S> {
    pub request: Parts,
    pub recv: RecvStream,
    pub send: S,
}

/// What `send_error` returns for what HTTP/2 has answered.
pub open spec fn error_result(answer: Result<SendStream<Bytes>, h2::Error>) -> Result<
    (),
    ProxyError,
> {
    match answer {
        Ok(_) => Ok(()),
        Err(error) => Err(ProxyError::H2(error)),
    }
}

/// What `send_response` returns for what HTTP/2 has answered: the stream of the request's body and
/// the stream opened for the response's, neither of them tracked.
pub open spec fn stream_result<D>(
    recv: RecvStream,
    answer: Result<SendStream<Bytes>, h2::Error>,
) -> Result<H2Stream<D>, ProxyError> {
    match answer {
        Ok(send_stream) => Ok(
            H2Stream {
                read: H2StreamReadHalf { recv_stream: recv, dropped: None },
                write: H2StreamWriteHalf { send_stream, dropped: None },
            },
        ),
        Err(error) => Err(ProxyError::H2(error)),
    }
}

/// Both ways of answering fail just when HTTP/2 fails, with its error. An answer that leaves its
/// stream open gives back the two streams that there are, the request's to read and the response's
/// to write, and neither is tracked.
pub proof fn law_answers_are_passed_on<D>(
    recv: RecvStream,
    answer: Result<SendStream<Bytes>, h2::Error>,
)
    ensures
        error_result(answer) is Ok <==> answer is Ok,
        stream_result::<D>(recv, answer) is Ok <==> answer is Ok,
        answer is Err ==> {
            &&& error_result(answer)->Err_0 == ProxyError::H2(answer->Err_0)
            &&& stream_result::<D>(recv, answer)->Err_0 == ProxyError::H2(answer->Err_0)
        },
        answer is Ok ==> {
            let stream = stream_result::<D>(recv, answer)->Ok_0;
            &&& stream.read.recv_stream == recv
            &&& stream.write.send_stream == answer->Ok_0
            &&& stream.read.dropped is None
            &&& stream.write.dropped is None
        },
{
}

/// What is read of a request's head are its own URI, method and headers.
pub proof fn law_head_is_read_as_it_is(parts: Parts)
    ensures
        parts.uri_view() == crate::outside::parts_uri(parts),
        parts.method_view() == crate::outside::parts_method(parts),
        parts.headers_view() == crate::outside::parts_headers(parts),
{
}

/// The outcome of sending a response that ends its stream.
pub fn error_sent(answer: Result<SendStream<Bytes>, h2::Error>) -> (result: Result<(), ProxyError>)
    ensures
        result == error_result(answer),
        answer is Ok ==> result == Ok::<(), ProxyError>(()),
        answer matches Err(error) ==> result == Err::<(), ProxyError>(ProxyError::H2(error)),
{
    match answer {
        Ok(_) => Ok(()),
        Err(error) => Err(ProxyError::from(error)),
    }
}

/// The outcome of sending a response that leaves its stream open.
pub fn stream_opened<D>(
    recv: RecvStream,
    answer: Result<SendStream<Bytes>, h2::Error>,
) -> (result: Result<H2Stream<D>, ProxyError>)
    ensures
        result == stream_result::<D>(recv, answer),
        match answer {
            Ok(sender) => {
                &&& result matches Ok(stream)
                &&& stream.read.recv_stream == recv
                &&& stream.read.dropped is None
                &&& stream.write.send_stream == sender
                &&& stream.write.dropped is None
            },
            Err(error) => result == Err::<H2Stream<D>, ProxyError>(ProxyError::H2(error)),
        },
{
    match answer {
        Ok(send_stream) => {
            let read = H2StreamReadHalf { recv_stream: recv, dropped: None };
            let write = H2StreamWriteHalf { send_stream, dropped: None };
            Ok(H2Stream { read, write })
        },
        Err(error) => Err(ProxyError::from(error)),
    }
}

impl<S> H2Request<S> {
    /// An accepted request, with the handle for its answer.
    pub fn new(request: http::Request<RecvStream>, send: S) -> (accepted: Self)
        ensures
            (accepted.request, accepted.recv) == crate::outside::request_split(request),
            accepted.send == send,
    {
        let (request, recv) = request_into_parts(request);
        H2Request { request, recv, send }
    }

    /// Answers with a response that ends the stream. `send_head` hands a response, and whether it
    /// ends the stream, to HTTP/2.
    pub fn send_error<F>(self, resp: Response<()>, send_head: F) -> (result: Result<
        (),
        ProxyError,
    >) where F: FnOnce(S, Response<()>, bool) -> Result<SendStream<Bytes>, h2::Error>
        requires
            call_requires(send_head, (self.send, resp, true)),
        ensures
            exists|answer: Result<SendStream<Bytes>, h2::Error>| #[trigger]
                call_ensures(send_head, (self.send, resp, true), answer) && result
                    == error_result(answer),
            exists|answer: Result<SendStream<Bytes>, h2::Error>| #[trigger]
                call_ensures(send_head, (self.send, resp, true), answer) && (match answer {
                    Ok(_) => result == Ok::<(), ProxyError>(()),
                    Err(error) => result == Err::<(), ProxyError>(ProxyError::H2(error)),
                }),
    {
        error_sent(send_head(self.send, resp, true))
    }

    /// Answers with a response that leaves the stream open, and returns the stream. `send_head`
    /// hands a response, and whether it ends the stream, to HTTP/2.
    pub fn send_response<D, F>(self, resp: Response<()>, send_head: F) -> (result: Result<
        H2Stream<D>,
        ProxyError,
    >) where F: FnOnce(S, Response<()>, bool) -> Result<SendStream<Bytes>, h2::Error>
        requires
            call_requires(send_head, (self.send, resp, false)),
        ensures
            exists|answer: Result<SendStream<Bytes>, h2::Error>| #[trigger]
                call_ensures(send_head, (self.send, resp, false), answer) && result
                    == stream_result::<D>(self.recv, answer),
            exists|answer: Result<SendStream<Bytes>, h2::Error>| #[trigger]
                call_ensures(send_head, (self.send, resp, false), answer) && (match answer {
                    Ok(sender) => {
                        &&& result matches Ok(stream)
                        &&& stream.read.recv_stream == self.recv
                        &&& stream.read.dropped is None
                        &&& stream.write.send_stream == sender
                        &&& stream.write.dropped is None
                    },
                    Err(error) => result == Err::<H2Stream<D>, ProxyError>(ProxyError::H2(error)),
                }),
    {
        let H2Request { recv, send, request: _ } = self;
        stream_opened(recv, send_head(send, resp, false))
    }

    pub fn get_request(&self) -> (request: &Parts)
        ensures
            *request == self.request,
    {
        &self.request
    }

    pub fn headers(&self) -> (headers: &HeaderMap<HeaderValue>)
        ensures
            *headers == self.request.headers_view(),
            *headers == crate::outside::parts_headers(self.request),
    {
        self.request.headers()
    }
}

/// Revocation state of one inbound connection, whose signal is shared with the streams that the
/// connection's owner serves.
pub struct ConnectionRevocation {
    /// `(issuer, serial)` of each certificate in the peer's chain: all that is kept of it.
    ids: Vec<CertId>,
    /// Notified of every successful load of the CRLs.
    crl_rx: watch::Receiver<u64>,
    /// The peer's identity as logs show it, if it has one.
    peer_identity: Option<String>,
    /// Flipped to `true` when a certificate of the chain is revoked.
    revoked_tx: watch::Sender<bool>,
}

impl ConnectionRevocation {
    /// What is kept of the peer's chain.
    pub closed spec fn ids(&self) -> Vec<CertId> {
        self.ids
    }

    /// The subscription to CRL loads.
    pub closed spec fn loads(&self) -> watch::Receiver<u64> {
        self.crl_rx
    }

    /// The peer's identity.
    pub closed spec fn identity(&self) -> Option<String> {
        self.peer_identity
    }

    /// The sender of this connection's revocation signal.
    pub closed spec fn signal(&self) -> watch::Sender<bool> {
        self.revoked_tx
    }

    /// The keys of the peer's chain.
    pub open spec fn chain(&self) -> Seq<CertKey> {
        crate::crl::chain_keys(self.ids()@)
    }

    /// The revocation signal is raised.
    pub open spec fn raised(&self) -> bool {
        crate::outside::signal_value(self.signal())
    }

    /// Captures the peer's chain from an accepted TLS connection. `chain_cert_ids` reads
    /// `(issuer, serial)` out of each DER certificate, and `crl_rx` is a subscription to CRL loads.
    /// `revoked_tx` is the signal's sender, whose receivers the connection's streams hold.
    pub fn new<F>(
        conn_state: &CommonState,
        chain_cert_ids: F,
        crl_rx: watch::Receiver<u64>,
        peer_identity: Option<String>,
        revoked_tx: watch::Sender<bool>,
    ) -> (state: Box<Self>) where F: FnOnce(Vec<Vec<u8>>) -> Vec<CertId>
        requires
            forall|chain: Vec<Vec<u8>>| #[trigger] call_requires(chain_cert_ids, (chain,)),
        ensures
            crate::revocation::ids_of_peer(*conn_state, chain_cert_ids, state.ids()),
            crate::outside::peer_chain(*conn_state) is None ==> state.ids()@.len() == 0,
            crate::outside::peer_chain(*conn_state) matches Some(shown) ==> exists|
                chain: Vec<Vec<u8>>,
            |
                chain@.len() == shown.len() && (forall|n: int|
                    0 <= n < shown.len() ==> (#[trigger] chain@[n])@ == shown[n])
                    && #[trigger] call_ensures(chain_cert_ids, (chain,), state.ids()),
            state.loads() == crl_rx,
            state.identity() == peer_identity,
            state.signal() == revoked_tx,
    {
        let ids = peer_ids(conn_state, chain_cert_ids);
        let state = Box::new(Self { ids, crl_rx, peer_identity, revoked_tx });
        assert(state.ids() == ids);
        state
    }

    /// The subscription to CRL loads, to wait on. All else of the state stays as it is.
    pub fn crl_updates(&mut self) -> (rx: &mut watch::Receiver<u64>)
        ensures
            *rx == old(self).loads(),
            final(self).loads() == *final(rx),
            final(self).ids() == old(self).ids(),
            final(self).identity() == old(self).identity(),
            final(self).signal() == old(self).signal(),
            final(self).raised() == crate::revocation::signal_rule(
                old(self).raised(),
                StateCall::Loads,
            ),
    {
        &mut self.crl_rx
    }

    /// The peer's name for logs.
    pub fn peer(&self) -> (peer: String)
        ensures
            peer@ == crate::revocation::peer_label(self.identity()),
            self.identity() matches Some(id) ==> peer@ == id@,
            self.identity() is None ==> peer@ == "<unknown>"@,
    {
        label_of(&self.peer_identity)
    }

    /// Raises the revocation signal, so that whatever serves the connection's streams can attribute
    /// their end to it.
    pub fn raise_signal(&mut self)
        ensures
            final(self).raised() == crate::revocation::signal_rule(
                old(self).raised(),
                StateCall::Record,
            ),
            crate::outside::signal_value(final(self).signal()),
            crate::revocation::all_told(old(self).signal(), final(self).signal()),
            forall|rx: watch::Receiver<bool>|
                crate::outside::receiver_sees(rx, old(self).signal()) is Some ==> #[trigger]
                    crate::outside::receiver_sees(rx, final(self).signal()) == Some((true, true)),
            final(self).ids() == old(self).ids(),
            final(self).loads() == old(self).loads(),
            final(self).identity() == old(self).identity(),
    {
        watch_replace(&mut self.revoked_tx, true);
    }
}

/// One step of the wait for the next load of the CRLs; those loaded before are looked at when
/// serving begins. With no CRL configured (`None`), or once whatever loads the CRLs is gone, it
/// never resolves.
pub fn wait_for_crl_change(state: Option<&ConnectionRevocation>, wake: Wake) -> (next: Wait)
    ensures
        next == (match (state, wake) {
            (None, _) => Wait::Dormant,
            (Some(_), Wake::Start) => Wait::AwaitChange,
            (Some(_), Wake::Changed) => Wait::Resolved,
            (Some(_), Wake::SenderGone) => Wait::Dormant,
        }),
{
    match state {
        None => Wait::Dormant,
        Some(_) => match wake {
            Wake::Start => Wait::AwaitChange,
            Wake::Changed => Wait::Resolved,
            Wake::SenderGone => Wait::Dormant,
        },
    }
}

/// What the serving loop of a connection takes up. `Q` is a request.
pub enum ServeEvent<'a, Q> {
    /// Serving begins, and these CRLs are loaded. They may have been loaded after the peer's chain
    /// was verified and before the connection's subscription to loads.
    Start(&'a CrlSet),
    /// The connection's next request: none is left, accepting it failed, or here it is.
    Accepted(Option<Result<Q, h2::Error>>),
    /// The ping task has given the peer up, or has itself ended.
    PingDropped,
    /// The proxy drains its connections.
    Drain,
    /// The CRLs were loaded anew, and are now these.
    CrlChanged(&'a CrlSet),
}

/// What the serving task is to do. The actions of a step are done in their order.
pub enum Action<Q> {
    /// Serve a request, in a task of its own.
    Serve(Q),
    /// Count the connection as rejected for a revoked certificate, under this reporter.
    CountRejection(Reporter),
    /// Raise the connection's revocation signal.
    RaiseSignal,
    /// Send GOAWAY with this reason and close without waiting for open streams.
    AbruptShutdown(u32),
    /// Announce the end, and close when the open streams have ended.
    GracefulShutdown,
    /// Tell the ping task that the connection is over.
    StopPing,
}

/// Where the serving loop goes after a step.
pub enum Flow {
    /// To the next event.
    Continue,
    /// Out of the loop, to wait for the connection's close.
    Close,
    /// Out of the task.
    Return(Result<(), ProxyError>),
}

/// One step of the serving loop.
pub struct ServeStep<Q> {
    pub actions: Vec<Action<Q>>,
    pub flow: Flow,
}

/// HTTP/2's reason code for a shutdown that is no protocol error.
pub const NO_ERROR: u32 = 0;

/// The event shows CRLs, at the start or of a load, that revoke a certificate of the connection's
/// chain.
pub open spec fn revokes_chain<Q>(chain: Option<Seq<CertKey>>, event: ServeEvent<Q>) -> bool {
    match (chain, event) {
        (Some(keys), ServeEvent::Start(crl)) => crate::crl::chain_revoked(crl@, keys),
        (Some(keys), ServeEvent::CrlChanged(crl)) => crate::crl::chain_revoked(crl@, keys),
        _ => false,
    }
}

/// The rule of the serving loop: what is done on an event, and where the loop goes.
pub open spec fn serve_rule<Q>(chain: Option<Seq<CertKey>>, event: ServeEvent<Q>) -> (
    Seq<Action<Q>>,
    Flow,
) {
    match event {
        ServeEvent::Accepted(None) => (seq![Action::StopPing], Flow::Return(Ok(()))),
        ServeEvent::Accepted(Some(Err(error))) => (
            Seq::empty(),
            Flow::Return(Err(ProxyError::H2(error))),
        ),
        ServeEvent::Accepted(Some(Ok(request))) => (seq![Action::Serve(request)], Flow::Continue),
        ServeEvent::PingDropped => (
            seq![Action::AbruptShutdown(NO_ERROR), Action::StopPing],
            Flow::Close,
        ),
        ServeEvent::Drain => (seq![Action::GracefulShutdown, Action::StopPing], Flow::Close),
        ServeEvent::Start(_) | ServeEvent::CrlChanged(_) => if revokes_chain(chain, event) {
            (
                seq![
                    Action::CountRejection(Reporter::Destination),
                    Action::RaiseSignal,
                    Action::AbruptShutdown(NO_ERROR),
                    Action::StopPing,
                ],
                Flow::Close,
            )
        } else {
            (Seq::empty(), Flow::Continue)
        },
    }
}

/// The chain that a connection's revocation state watches, if it has such a state.
pub open spec fn watched_chain(revocation: Option<&ConnectionRevocation>) -> Option<Seq<CertKey>> {
    match revocation {
        Some(state) => Some(state.chain()),
        None => None,
    }
}

/// The chain that is watched holds each certificate that the state keeps, at its place, and no
/// other; without a state, none is watched.
pub proof fn law_whole_chain_is_watched(state: &ConnectionRevocation)
    ensures
        watched_chain(None) is None,
        watched_chain(Some(state)) is Some,
        watched_chain(Some(state))->0.len() == state.ids()@.len(),
        forall|k: int|
            0 <= k < state.ids()@.len() ==> #[trigger] watched_chain(Some(state))->0[k] == (
                state.ids()@[k].issuer@,
                state.ids()@[k].serial@,
            ),
{
    crate::crl::law_chain_keeps_every_certificate(state.ids()@);
}

/// One step of the serving loop. A revocation is a security event: the connection is ended abruptly
/// and not drained, and the revocation is counted and signalled first, so that the streams' ends
/// are put down to it. CRLs that do not affect the chain change nothing.
pub fn serve_event<Q>(
    revocation: Option<&ConnectionRevocation>,
    event: ServeEvent<Q>,
) -> (step: ServeStep<Q>)
    ensures
        (step.actions@, step.flow) == serve_rule(watched_chain(revocation), event),
        event matches ServeEvent::Accepted(None) ==> step.actions@ =~= seq![Action::<Q>::StopPing]
            && step.flow == Flow::Return(Ok(())),
        event matches ServeEvent::Accepted(Some(Err(error))) ==> step.actions@.len() == 0
            && step.flow == Flow::Return(Err(ProxyError::H2(error))),
        event matches ServeEvent::Accepted(Some(Ok(request))) ==> step.actions@ =~= seq![
            Action::Serve(request),
        ] && step.flow is Continue,
        event is PingDropped ==> step.actions@ =~= seq![
            Action::<Q>::AbruptShutdown(0),
            Action::StopPing,
        ] && step.flow is Close,
        event is Drain ==> step.actions@ =~= seq![
            Action::<Q>::GracefulShutdown,
            Action::StopPing,
        ] && step.flow is Close,
        event matches ServeEvent::Start(crl) ==> {
            &&& step.flow is Close || step.flow is Continue
            &&& step.flow is Close <==> (revocation matches Some(state) && exists|
                k: int,
                i: int,
                j: int,
            |
                0 <= k < state.ids()@.len() && 0 <= i < crl.crls@.len() && 0 <= j
                    < crl.crls@[i].revoked@.len() && crl.crls@[i].issuer@ == (
                #[trigger] state.ids()@[k]).issuer@ && (#[trigger] crl.crls@[i].revoked@[j])@
                    == state.ids()@[k].serial@)
        },
        event matches ServeEvent::CrlChanged(crl) ==> {
            &&& step.flow is Close || step.flow is Continue
            &&& step.flow is Close <==> (revocation matches Some(state) && exists|
                k: int,
                i: int,
                j: int,
            |
                0 <= k < state.ids()@.len() && 0 <= i < crl.crls@.len() && 0 <= j
                    < crl.crls@[i].revoked@.len() && crl.crls@[i].issuer@ == (
                #[trigger] state.ids()@[k]).issuer@ && (#[trigger] crl.crls@[i].revoked@[j])@
                    == state.ids()@[k].serial@)
        },
        event is Start || event is CrlChanged ==> {
            &&& step.flow is Close ==> step.actions@ =~= seq![
                Action::<Q>::CountRejection(Reporter::Destination),
                Action::RaiseSignal,
                Action::AbruptShutdown(0),
                Action::StopPing,
            ]
            &&& step.flow is Continue ==> step.actions@.len() == 0
        },
{
    let mut actions: Vec<Action<Q>> = Vec::new();
    let flow = match event {
        ServeEvent::Accepted(None) => {
            actions.push(Action::StopPing);
            Flow::Return(Ok(()))
        },
        ServeEvent::Accepted(Some(Err(error))) => Flow::Return(Err(ProxyError::from(error))),
        ServeEvent::Accepted(Some(Ok(request))) => {
            actions.push(Action::Serve(request));
            Flow::Continue
        },
        ServeEvent::PingDropped => {
            actions.push(Action::AbruptShutdown(NO_ERROR));
            actions.push(Action::StopPing);
            Flow::Close
        },
        ServeEvent::Drain => {
            actions.push(Action::GracefulShutdown);
            actions.push(Action::StopPing);
            Flow::Close
        },
        ServeEvent::Start(crl) | ServeEvent::CrlChanged(crl) => {
            let revoked = match revocation {
                Some(state) => crl.any_revoked(&state.ids),
                None => false,
            };
            if revoked {
                actions.push(Action::CountRejection(Reporter::Destination));
                actions.push(Action::RaiseSignal);
                actions.push(Action::AbruptShutdown(NO_ERROR));
                actions.push(Action::StopPing);
                Flow::Close
            } else {
                Flow::Continue
            }
        },
    };
    assert(actions@ =~= serve_rule(watched_chain(revocation), event).0);
    ServeStep { actions, flow }
}

/// What a handshake brings: the connection, or the error that serving ends with.
pub fn handshake_done<C>(answer: Result<C, h2::Error>) -> (result: Result<C, ProxyError>)
    ensures
        result == (match answer {
            Ok(conn) => Ok::<C, ProxyError>(conn),
            Err(error) => Err::<C, ProxyError>(ProxyError::H2(error)),
        }),
{
    match answer {
        Ok(conn) => Ok(conn),
        Err(error) => Err(ProxyError::from(error)),
    }
}

/// How the wait for a connection's close ends.
#[derive(Clone, Copy, Debug, PartialEq, Eq, Structural)]
pub enum CloseEvent {
    /// Draining has to end now.
    ForceShutdown,
    /// The connection is closed, cleanly or not.
    Closed,
}

/// The rule of the wait for a connection's close.
pub open spec fn close_rule(event: CloseEvent) -> Result<(), ProxyError> {
    match event {
        CloseEvent::ForceShutdown => Err(ProxyError::DrainTimeOut),
        CloseEvent::Closed => Ok(()),
    }
}

/// What the serving task returns after its loop has gone to wait for the connection's close.
pub fn close_event(event: CloseEvent) -> (result: Result<(), ProxyError>)
    ensures
        result == close_rule(event),
        event is ForceShutdown ==> result == Err::<(), ProxyError>(ProxyError::DrainTimeOut),
        event is Closed ==> result == Ok::<(), ProxyError>(()),
{
    match event {
        CloseEvent::ForceShutdown => Err(ProxyError::DrainTimeOut),
        CloseEvent::Closed => Ok(()),
    }
}

} // verus!
