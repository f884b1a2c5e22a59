use ztunnel_h2::crl::{CertId, Crl, CrlSet};
use ztunnel_h2::server::{
    close_event, handshake_builder, handshake_done, serve_event, wait_for_crl_change, Action,
    CloseEvent, Config, ConnectionRevocation, Flow, ProxyError, ServeEvent, NO_ERROR,
};
use ztunnel_h2::revocation::{Reporter, Wait, Wake};
use rustls::pki_types::{CertificateDer, PrivateKeyDer, PrivatePkcs8KeyDer, ServerName};
use rustls::server::WebPkiClientVerifier;
use rustls::{ClientConfig, ClientConnection, RootCertStore, ServerConfig, ServerConnection};
use std::sync::Arc;
use tokio::sync::watch;

struct Ca {
    cert: rcgen::Certificate,
    key: rcgen::KeyPair,
}

fn ca() -> Ca {
    let key = rcgen::KeyPair::generate().unwrap();
    let mut params = rcgen::CertificateParams::new(Vec::<String>::new()).unwrap();
    params.is_ca = rcgen::IsCa::Ca(rcgen::BasicConstraints::Unconstrained);
    let cert = params.self_signed(&key).unwrap();
    Ca { cert, key }
}

fn leaf(ca: &Ca, name: &str) -> (CertificateDer<'static>, PrivateKeyDer<'static>) {
    let key = rcgen::KeyPair::generate().unwrap();
    let params = rcgen::CertificateParams::new(vec![name.to_string()]).unwrap();
    let cert = params.signed_by(&key, &ca.cert, &ca.key).unwrap();
    (cert.der().clone(), PrivatePkcs8KeyDer::from(key.serialize_der()).into())
}

struct Pair {
    client: ClientConnection,
    server: ServerConnection,
    client_chain: Vec<Vec<u8>>,
}

/// Both ends of a mutual TLS connection, before any byte is exchanged.
fn pair() -> Pair {
    let ca = ca();
    let provider = Arc::new(rustls::crypto::ring::default_provider());
    let mut roots = RootCertStore::empty();
    roots.add(ca.cert.der().clone()).unwrap();
    let roots = Arc::new(roots);
    let (client_cert, client_key) = leaf(&ca, "client.example");
    let (server_cert, server_key) = leaf(&ca, "server.example");
    let client_chain = vec![client_cert.to_vec(), ca.cert.der().to_vec()];
    let verifier =
        WebPkiClientVerifier::builder_with_provider(roots.clone(), provider.clone()).build().unwrap();
    let server_cfg = ServerConfig::builder_with_provider(provider.clone())
        .with_safe_default_protocol_versions()
        .unwrap()
        .with_client_cert_verifier(verifier)
        .with_single_cert(vec![server_cert], server_key)
        .unwrap();
    let client_cfg = ClientConfig::builder_with_provider(provider)
        .with_safe_default_protocol_versions()
        .unwrap()
        .with_root_certificates(roots)
        .with_client_auth_cert(vec![client_cert, ca.cert.der().clone()], client_key)
        .unwrap();
    let name = ServerName::try_from("server.example").unwrap();
    Pair {
        client: ClientConnection::new(Arc::new(client_cfg), name).unwrap(),
        server: ServerConnection::new(Arc::new(server_cfg)).unwrap(),
        client_chain,
    }
}

fn handshake(pair: &mut Pair) {
    while pair.client.is_handshaking() || pair.server.is_handshaking() {
        let mut wire = vec![];
        while pair.client.wants_write() {
            pair.client.write_tls(&mut wire).unwrap();
        }
        let mut rest = wire.as_slice();
        while !rest.is_empty() {
            pair.server.read_tls(&mut rest).unwrap();
            pair.server.process_new_packets().unwrap();
        }
        let mut wire = vec![];
        while pair.server.wants_write() {
            pair.server.write_tls(&mut wire).unwrap();
        }
        let mut rest = wire.as_slice();
        while !rest.is_empty() {
            pair.client.read_tls(&mut rest).unwrap();
            pair.client.process_new_packets().unwrap();
        }
    }
}

fn crl_of(issuer: &[u8], serial: &[u8]) -> CrlSet {
    CrlSet { crls: vec![Crl { issuer: issuer.to_vec(), revoked: vec![serial.to_vec()] }] }
}

/// State of an inbound connection whose client's chain is kept as one id.
fn state(peer: Option<&str>) -> (Box<ConnectionRevocation>, watch::Receiver<bool>) {
    let (_crl_tx, crl_rx) = watch::channel(0u64);
    let (revoked_tx, revoked_rx) = watch::channel(false);
    let mut pair = pair();
    handshake(&mut pair);
    let mut shown = vec![];
    let state = ConnectionRevocation::new(
        &pair.server,
        |chain| {
            shown = chain;
            vec![CertId { issuer: b"ca".to_vec(), serial: vec![4, 2] }]
        },
        crl_rx,
        peer.map(|p| p.to_string()),
        revoked_tx,
    );
    assert_eq!(shown, pair.client_chain);
    (state, revoked_rx)
}

fn kinds(actions: &Vec<Action<u32>>) -> Vec<String> {
    actions
        .iter()
        .map(|a| match a {
            Action::Serve(q) => format!("serve {q}"),
            Action::CountRejection(Reporter::Source) => "count source".to_string(),
            Action::CountRejection(Reporter::Destination) => "count destination".to_string(),
            Action::RaiseSignal => "signal".to_string(),
            Action::AbruptShutdown(reason) => format!("abrupt {reason}"),
            Action::GracefulShutdown => "graceful".to_string(),
            Action::StopPing => "stop ping".to_string(),
        })
        .collect()
}

#[test]
fn request_is_served_and_the_loop_goes_on() {
    let step = serve_event(None, ServeEvent::Accepted(Some(Ok(11u32))));
    assert_eq!(kinds(&step.actions), vec!["serve 11"]);
    assert!(matches!(step.flow, Flow::Continue));
}

#[test]
fn end_of_requests_stops_the_ping_and_returns() {
    let step = serve_event::<u32>(None, ServeEvent::Accepted(None));
    assert_eq!(kinds(&step.actions), vec!["stop ping"]);
    assert!(matches!(step.flow, Flow::Return(Ok(()))));
}

#[test]
fn failed_accept_returns_the_error_and_does_nothing_else() {
    let failed = h2::Error::from(h2::Reason::FLOW_CONTROL_ERROR);
    let step = serve_event::<u32>(None, ServeEvent::Accepted(Some(Err(failed))));
    assert!(step.actions.is_empty());
    match step.flow {
        Flow::Return(Err(ProxyError::H2(e))) => {
            assert_eq!(e.reason(), Some(h2::Reason::FLOW_CONTROL_ERROR))
        }
        _ => panic!("expected the error"),
    }
}

#[test]
fn ping_failure_ends_abruptly() {
    let step = serve_event::<u32>(None, ServeEvent::PingDropped);
    assert_eq!(kinds(&step.actions), vec!["abrupt 0", "stop ping"]);
    assert!(matches!(step.flow, Flow::Close));
    assert_eq!(h2::Reason::from(NO_ERROR), h2::Reason::NO_ERROR);
}

#[test]
fn drain_ends_gracefully() {
    let step = serve_event::<u32>(None, ServeEvent::Drain);
    assert_eq!(kinds(&step.actions), vec!["graceful", "stop ping"]);
    assert!(matches!(step.flow, Flow::Close));
}

const TORN_DOWN: [&str; 4] = ["count destination", "signal", "abrupt 0", "stop ping"];

#[test]
fn revoking_load_is_counted_signalled_then_ends_abruptly() {
    let (rev, _rx) = state(Some("spiffe://td/ns/n/sa/a"));
    let crl = crl_of(b"ca", &[4, 2]);
    let step = serve_event::<u32>(Some(&rev), ServeEvent::CrlChanged(&crl));
    assert_eq!(kinds(&step.actions), TORN_DOWN);
    assert!(matches!(step.flow, Flow::Close));
}

#[test]
fn chain_revoked_at_the_start_is_not_missed() {
    let (rev, _rx) = state(None);
    let crl = crl_of(b"ca", &[4, 2]);
    let step = serve_event::<u32>(Some(&rev), ServeEvent::Start(&crl));
    assert_eq!(kinds(&step.actions), TORN_DOWN);
    assert!(matches!(step.flow, Flow::Close));
}

#[test]
fn other_crls_change_nothing() {
    let (rev, _rx) = state(None);
    for crl in [crl_of(b"ca", &[4, 3]), crl_of(b"cb", &[4, 2]), CrlSet { crls: vec![] }] {
        for event in [ServeEvent::Start(&crl), ServeEvent::CrlChanged(&crl)] {
            let step = serve_event::<u32>(Some(&rev), event);
            assert!(step.actions.is_empty());
            assert!(matches!(step.flow, Flow::Continue));
        }
    }
    let crl = crl_of(b"ca", &[4, 2]);
    for event in [ServeEvent::Start(&crl), ServeEvent::CrlChanged(&crl)] {
        let step = serve_event::<u32>(None, event);
        assert!(step.actions.is_empty());
        assert!(matches!(step.flow, Flow::Continue));
    }
}

#[test]
fn harmless_crls_serve_as_without_revocation_state() {
    let (rev, _rx) = state(None);
    let harmless = crl_of(b"ca", &[1]);
    let run = |revocation: Option<&ConnectionRevocation>| {
        let events = vec![
            ServeEvent::Start(&harmless),
            ServeEvent::Accepted(Some(Ok(1u32))),
            ServeEvent::CrlChanged(&harmless),
            ServeEvent::Accepted(Some(Ok(2))),
            ServeEvent::Drain,
        ];
        let mut done = vec![];
        for event in events {
            done.extend(kinds(&serve_event(revocation, event).actions));
        }
        done
    };
    assert_eq!(run(Some(&rev)), run(None));
    assert_eq!(run(None), ["serve 1", "serve 2", "graceful", "stop ping"]);
}

#[test]
fn requests_are_served_in_order_until_the_revocation() {
    let (rev, _rx) = state(None);
    let harmless = crl_of(b"ca", &[1]);
    let revoking = crl_of(b"ca", &[4, 2]);
    let events = vec![
        ServeEvent::Start(&harmless),
        ServeEvent::Accepted(Some(Ok(1u32))),
        ServeEvent::CrlChanged(&harmless),
        ServeEvent::Accepted(Some(Ok(2))),
        ServeEvent::CrlChanged(&revoking),
        ServeEvent::Accepted(Some(Ok(3))),
        ServeEvent::Drain,
    ];
    let mut done = vec![];
    for event in events {
        let step = serve_event(Some(&rev), event);
        done.extend(kinds(&step.actions));
        if !matches!(step.flow, Flow::Continue) {
            break;
        }
    }
    assert_eq!(done[..2], ["serve 1", "serve 2"]);
    assert_eq!(done[2..], TORN_DOWN);
}

#[test]
fn inbound_signal_reaches_every_receiver_and_stays_raised() {
    let (mut rev, rx) = state(Some("spiffe://td/ns/n/sa/a"));
    let second = rx.clone();
    assert!(!*rx.borrow());
    rev.raise_signal();
    for receiver in [&rx, &second] {
        assert!(*receiver.borrow());
        assert!(receiver.has_changed().unwrap());
    }
    rev.raise_signal();
    assert!(*rx.borrow());
    assert_eq!(rev.peer(), "spiffe://td/ns/n/sa/a");
}

#[test]
fn inbound_signal_needs_no_receiver() {
    let (mut rev, rx) = state(None);
    drop(rx);
    rev.raise_signal();
    let crl = crl_of(b"ca", &[4, 2]);
    let step = serve_event::<u32>(Some(&rev), ServeEvent::CrlChanged(&crl));
    assert_eq!(kinds(&step.actions), TORN_DOWN);
}

#[test]
fn inbound_peer_without_identity_is_unknown() {
    let (rev, _rx) = state(None);
    assert_eq!(rev.peer(), "<unknown>");
}

#[test]
fn inbound_peer_without_chain_is_never_revoked() {
    let (_crl_tx, crl_rx) = watch::channel(7u64);
    let (revoked_tx, _revoked_rx) = watch::channel(false);
    let mut rev = ConnectionRevocation::new(
        &pair().server,
        |_| panic!("no chain was shown"),
        crl_rx,
        None,
        revoked_tx,
    );
    let crl = crl_of(b"ca", &[4, 2]);
    let step = serve_event::<u32>(Some(&rev), ServeEvent::Start(&crl));
    assert!(matches!(step.flow, Flow::Continue));
    assert_eq!(*rev.crl_updates().borrow(), 7);
}

#[test]
fn crl_change_wait() {
    let (rev, _rx) = state(None);
    assert_eq!(wait_for_crl_change(Some(&rev), Wake::Start), Wait::AwaitChange);
    assert_eq!(wait_for_crl_change(Some(&rev), Wake::Changed), Wait::Resolved);
    assert_eq!(wait_for_crl_change(Some(&rev), Wake::SenderGone), Wait::Dormant);
    for wake in [Wake::Start, Wake::Changed, Wake::SenderGone] {
        assert_eq!(wait_for_crl_change(None, wake), Wait::Dormant);
    }
}

#[test]
fn close_outcomes() {
    assert!(matches!(close_event(CloseEvent::ForceShutdown), Err(ProxyError::DrainTimeOut)));
    assert!(matches!(close_event(CloseEvent::Closed), Ok(())));
}

#[test]
fn handshake_outcomes() {
    assert!(matches!(handshake_done(Ok(5)), Ok(5)));
    let failed = h2::Error::from(h2::Reason::PROTOCOL_ERROR);
    match handshake_done::<u32>(Err(failed)) {
        Err(ProxyError::H2(e)) => assert_eq!(e.reason(), Some(h2::Reason::PROTOCOL_ERROR)),
        _ => panic!("expected the error"),
    }
}

#[test]
fn handshake_settings() {
    let cfg = Config { window_size: 4194304, connection_window_size: 16777216, frame_size: 1048576 };
    let shown = format!("{:?}", handshake_builder(&cfg));
    for part in [
        "initial_window_size: 4194304",
        "initial_target_connection_window_size: Some(16777216)",
        "max_frame_size: 1048576",
        "max_header_list_size: 65536",
        "max_send_buffer_size: 262144",
        "max_concurrent_streams: 200",
    ] {
        assert!(shown.contains(part), "{part} in {shown}");
    }
}

#[test]
fn smallest_and_largest_frame_size() {
    for frame_size in [16384u32, 16777215] {
        let cfg = Config { window_size: 1, connection_window_size: 2, frame_size };
        let shown = format!("{:?}", handshake_builder(&cfg));
        assert!(shown.contains(&format!("max_frame_size: {frame_size}")));
    }
}
