//! What this library has from other crates: the declared types, and one function for each outside
//! function that is called, with the contract that is believed of it.

use bytes::Bytes;
use h2::server::Builder;
use h2::RecvStream;
use http::request::Parts;
use rustls::CommonState;
use tokio::sync::watch;
use vstd::prelude::*;

verus! {

/// Declares `bytes::Bytes`, the data that streams carry.
#[verifier::external_type_specification]
#[verifier::external_body]
pub struct ExBytes(Bytes);

/// Declares `rustls::CommonState`, the state of a TLS connection.
#[verifier::external_type_specification]
#[verifier::external_body]
pub struct ExCommonState(CommonState);

/// Declares `tokio::sync::watch::Sender`, the sending end of a watch channel.
#[verifier::external_type_specification]
#[verifier::external_body]
#[verifier::reject_recursive_types(T)]
pub struct ExSender<T>(watch::Sender<T>);

/// Declares `tokio::sync::watch::Receiver`, a receiving end of a watch channel.
#[verifier::external_type_specification]
#[verifier::external_body]
#[verifier::reject_recursive_types(T)]
pub struct ExReceiver<T>(watch::Receiver<T>);

/// Declares `h2::Error`.
#[verifier::external_type_specification]
#[verifier::external_body]
pub struct ExH2Error(h2::Error);

/// Declares `h2::server::Builder`, the settings of a server handshake.
#[verifier::external_type_specification]
#[verifier::external_body]
pub struct ExBuilder(Builder);

/// Declares `h2::RecvStream`, the body of a request as it arrives.
#[verifier::external_type_specification]
#[verifier::external_body]
pub struct ExRecvStream(RecvStream);

/// Declares `h2::SendStream`, the body of a response as it is sent.
#[verifier::external_type_specification]
#[verifier::external_body]
#[verifier::reject_recursive_types(B)]
pub struct ExSendStream<B>(h2::SendStream<B>);

/// Declares `http::Request`.
#[verifier::external_type_specification]
#[verifier::external_body]
#[verifier::reject_recursive_types(T)]
pub struct ExRequest<T>(http::Request<T>);

/// Declares `http::Response`.
#[verifier::external_type_specification]
#[verifier::external_body]
#[verifier::reject_recursive_types(T)]
pub struct ExResponse<T>(http::Response<T>);

/// Declares `http::request::Parts`, the head of a request.
#[verifier::external_type_specification]
#[verifier::external_body]
pub struct ExParts(Parts);

/// Declares `http::Uri`.
#[verifier::external_type_specification]
#[verifier::external_body]
pub struct ExUri(http::Uri);

/// Declares `http::Method`.
#[verifier::external_type_specification]
#[verifier::external_body]
pub struct ExMethod(http::Method);

/// Declares `http::HeaderValue`.
#[verifier::external_type_specification]
#[verifier::external_body]
pub struct ExHeaderValue(http::HeaderValue);

/// Declares `http::HeaderMap`.
#[verifier::external_type_specification]
#[verifier::external_body]
#[verifier::reject_recursive_types(T)]
pub struct ExHeaderMap<T>(http::HeaderMap<T>);

/// The bytes of each certificate of a chain.
pub open spec fn chain_bytes(chain: Vec<Vec<u8>>) -> Seq<Seq<u8>> {
    chain@.map_values(|cert: Vec<u8>| cert@)
}

/// The bytes of a chain are those of each of its certificates, at its place.
pub proof fn law_bytes_are_those_of_each_certificate(chain: Vec<Vec<u8>>)
    ensures
        chain_bytes(chain).len() == chain@.len(),
        forall|n: int| 0 <= n < chain@.len() ==> #[trigger] chain_bytes(chain)[n] == chain@[n]@,
{
}

/// The certificates that the peer of a TLS connection has shown, each as DER bytes, leaf first;
/// none where the handshake has brought none.
pub uninterp spec fn peer_chain(conn_state: CommonState) -> Option<Seq<Seq<u8>>>;

/// Calls `rustls::CommonState::peer_certificates`. The result is what the connection state holds:
/// reading it twice gives the same chain.
#[verifier::external_body]
pub(crate) fn peer_certificates(conn_state: &CommonState) -> (chain: Option<Vec<Vec<u8>>>)
    ensures
        chain is Some == peer_chain(*conn_state) is Some,
        chain matches Some(certs) ==> chain_bytes(certs) == peer_chain(*conn_state)->0,
{
    conn_state.peer_certificates().map(|certs| certs.iter().map(|cert| cert.to_vec()).collect())
}

/// The value that the channel of a sender holds. Each sender spoken of is taken as its channel's
/// only one: what a clone of it sends is not followed.
pub uninterp spec fn signal_value(tx: watch::Sender<bool>) -> bool;

/// What `rx` sees of the channel that `tx` sends into: the value that it reads, and whether it
/// reports a change since it last looked. `None` where `rx` is a receiver of another channel, or is
/// newer than the state of the channel that `tx` stands for.
pub uninterp spec fn receiver_sees(rx: watch::Receiver<bool>, tx: watch::Sender<bool>) -> Option<
    (bool, bool),
>;

/// Calls `tokio::sync::watch::channel`: the two ends of one channel, which holds `init`. Its
/// receiver reads that value and reports no change.
#[verifier::external_body]
pub(crate) fn watch_channel(init: bool) -> (ends: (watch::Sender<bool>, watch::Receiver<bool>))
    ensures
        signal_value(ends.0) == init,
        receiver_sees(ends.1, ends.0) == Some((init, false)),
{
    watch::channel(init)
}

/// Calls `tokio::sync::watch::Sender::subscribe`: a new receiver of the sender's channel. It reads
/// what the channel holds, and what was sent before counts as seen by it.
#[verifier::external_body]
pub(crate) fn watch_subscribe(tx: &watch::Sender<bool>) -> (rx: watch::Receiver<bool>)
    ensures
        receiver_sees(rx, *tx) == Some((signal_value(*tx), false)),
{
    tx.subscribe()
}

/// Calls `tokio::sync::watch::Sender::send_replace`: the channel holds `value` from then on, with
/// or without receivers, and each receiver that it had before the call reads it and reports a
/// change. The value that
/// the call hands back, the one held before, is dropped here.
#[verifier::external_body]
pub(crate) fn watch_replace(tx: &mut watch::Sender<bool>, value: bool)
    ensures
        signal_value(*final(tx)) == value,
        forall|rx: watch::Receiver<bool>|
            receiver_sees(rx, *old(tx)) is Some ==> #[trigger] receiver_sees(rx, *final(tx))
                == Some((value, true)),
{
    tx.send_replace(value);
}

/// The settings of a server handshake; where one is optional, `None` leaves h2's default.
pub struct Settings {
    pub initial_window_size: Option<u32>,
    pub initial_connection_window_size: Option<u32>,
    pub max_frame_size: Option<u32>,
    pub max_header_list_size: Option<u32>,
    pub max_send_buffer_size: usize,
    pub max_concurrent_streams: Option<u32>,
}

/// The settings that a handshake builder holds.
pub uninterp spec fn builder_settings(builder: Builder) -> Settings;

/// Calls `h2::server::Builder::new`: a builder with h2's defaults, of which the send buffer size is
/// a value of its own and the others are left open.
#[verifier::external_body]
pub(crate) fn builder_new() -> (builder: Builder)
    ensures
        builder_settings(builder) == (Settings {
            initial_window_size: None,
            initial_connection_window_size: None,
            max_frame_size: None,
            max_header_list_size: None,
            max_send_buffer_size: 409_600,
            max_concurrent_streams: None,
        }),
{
    Builder::new()
}

/// Calls `h2::server::Builder::initial_window_size`, which stores this one setting.
#[verifier::external_body]
pub(crate) fn set_initial_window_size(builder: &mut Builder, size: u32)
    ensures
        builder_settings(*final(builder)) == (Settings {
            initial_window_size: Some(size),
            ..builder_settings(*old(builder))
        }),
{
    builder.initial_window_size(size);
}

/// Calls `h2::server::Builder::initial_connection_window_size`, which stores this one setting.
#[verifier::external_body]
pub(crate) fn set_initial_connection_window_size(builder: &mut Builder, size: u32)
    ensures
        builder_settings(*final(builder)) == (Settings {
            initial_connection_window_size: Some(size),
            ..builder_settings(*old(builder))
        }),
{
    builder.initial_connection_window_size(size);
}

/// Calls `h2::server::Builder::max_frame_size`, which stores this one setting. It panics on a size
/// outside what HTTP/2 allows.
#[verifier::external_body]
pub(crate) fn set_max_frame_size(builder: &mut Builder, max: u32)
    requires
        16_384 <= max <= 16_777_215,
    ensures
        builder_settings(*final(builder)) == (Settings {
            max_frame_size: Some(max),
            ..builder_settings(*old(builder))
        }),
{
    builder.max_frame_size(max);
}

/// Calls `h2::server::Builder::max_header_list_size`, which stores this one setting.
#[verifier::external_body]
pub(crate) fn set_max_header_list_size(builder: &mut Builder, max: u32)
    ensures
        builder_settings(*final(builder)) == (Settings {
            max_header_list_size: Some(max),
            ..builder_settings(*old(builder))
        }),
{
    builder.max_header_list_size(max);
}

/// Calls `h2::server::Builder::max_send_buffer_size`, which stores this one setting. It panics on a
/// size that no `u32` holds.
#[verifier::external_body]
pub(crate) fn set_max_send_buffer_size(builder: &mut Builder, max: usize)
    requires
        max <= u32::MAX,
    ensures
        builder_settings(*final(builder)) == (Settings {
            max_send_buffer_size: max,
            ..builder_settings(*old(builder))
        }),
{
    builder.max_send_buffer_size(max);
}

/// Calls `h2::server::Builder::max_concurrent_streams`, which stores this one setting.
#[verifier::external_body]
pub(crate) fn set_max_concurrent_streams(builder: &mut Builder, max: u32)
    ensures
        builder_settings(*final(builder)) == (Settings {
            max_concurrent_streams: Some(max),
            ..builder_settings(*old(builder))
        }),
{
    builder.max_concurrent_streams(max);
}

/// The head of a request, and the stream that its body arrives on.
pub uninterp spec fn request_split(request: http::Request<RecvStream>) -> (Parts, RecvStream);

/// Calls `http::Request::into_parts`: takes a request apart into its head and its body.
#[verifier::external_body]
pub(crate) fn request_into_parts(request: http::Request<RecvStream>) -> (split: (Parts, RecvStream))
    ensures
        split == request_split(request),
{
    request.into_parts()
}

/// The URI in a request head.
pub uninterp spec fn parts_uri(parts: Parts) -> http::Uri;

/// Reads the field `uri` of `http::request::Parts`.
#[verifier::external_body]
pub(crate) fn parts_uri_ref(parts: &Parts) -> (uri: &http::Uri)
    ensures
        *uri == parts_uri(*parts),
{
    &parts.uri
}

/// The method in a request head.
pub uninterp spec fn parts_method(parts: Parts) -> http::Method;

/// Reads the field `method` of `http::request::Parts`.
#[verifier::external_body]
pub(crate) fn parts_method_ref(parts: &Parts) -> (method: &http::Method)
    ensures
        *method == parts_method(*parts),
{
    &parts.method
}

/// The headers in a request head.
pub uninterp spec fn parts_headers(parts: Parts) -> http::HeaderMap<http::HeaderValue>;

/// Reads the field `headers` of `http::request::Parts`.
#[verifier::external_body]
pub(crate) fn parts_headers_ref(parts: &Parts) -> (headers: &http::HeaderMap<http::HeaderValue>)
    ensures
        *headers == parts_headers(*parts),
{
    &parts.headers
}

} // verus!
