use rustls::pki_types::{CertificateDer, PrivateKeyDer, PrivatePkcs8KeyDer, ServerName};
use rustls::server::WebPkiClientVerifier;
use rustls::{ClientConfig, ClientConnection, RootCertStore, ServerConfig, ServerConnection};
use std::sync::Arc;
use tokio::sync::watch;
use ztunnel_h2::crl::{CertId, Crl, CrlSet};
use ztunnel_h2::revocation::{
    chain_ids, label_of, wait_for_revocation, ConnectionRevocation, Reporter, Wait, Wake,
};

struct Ca {
    cert: rcgen::Certificate,
    key: rcgen::KeyPair,
}

fn ca() -> Ca {
    let key = rcgen::KeyPair::generate().unwrap();
    let mut params = rcgen::CertificateParams::new(Vec::<String>::new()).unwrap();
    params.is_ca = rcgen::IsCa::Ca(rcgen::BasicConstraints::Unconstrained);
    let cert = params.self_signed(&key).unwrap();
    Ca { cert, key }
}

fn leaf(ca: &Ca, name: &str) -> (CertificateDer<'static>, PrivateKeyDer<'static>) {
    let key = rcgen::KeyPair::generate().unwrap();
    let params = rcgen::CertificateParams::new(vec![name.to_string()]).unwrap();
    let cert = params.signed_by(&key, &ca.cert, &ca.key).unwrap();
    (cert.der().clone(), PrivatePkcs8KeyDer::from(key.serialize_der()).into())
}

struct Pair {
    client: ClientConnection,
    server: ServerConnection,
    client_chain: Vec<Vec<u8>>,
    server_chain: Vec<Vec<u8>>,
}

/// Both ends of a mutual TLS connection, before any byte is exchanged.
fn pair() -> Pair {
    let ca = ca();
    let provider = Arc::new(rustls::crypto::ring::default_provider());
    let mut roots = RootCertStore::empty();
    roots.add(ca.cert.der().clone()).unwrap();
    let roots = Arc::new(roots);
    let (client_cert, client_key) = leaf(&ca, "client.example");
    let (server_cert, server_key) = leaf(&ca, "server.example");
    let client_chain = vec![client_cert.to_vec(), ca.cert.der().to_vec()];
    let server_chain = vec![server_cert.to_vec()];
    let verifier =
        WebPkiClientVerifier::builder_with_provider(roots.clone(), provider.clone()).build().unwrap();
    let server_cfg = ServerConfig::builder_with_provider(provider.clone())
        .with_safe_default_protocol_versions()
        .unwrap()
        .with_client_cert_verifier(verifier)
        .with_single_cert(vec![server_cert], server_key)
        .unwrap();
    let client_cfg = ClientConfig::builder_with_provider(provider)
        .with_safe_default_protocol_versions()
        .unwrap()
        .with_root_certificates(roots)
        .with_client_auth_cert(vec![client_cert, ca.cert.der().clone()], client_key)
        .unwrap();
    let name = ServerName::try_from("server.example").unwrap();
    Pair {
        client: ClientConnection::new(Arc::new(client_cfg), name).unwrap(),
        server: ServerConnection::new(Arc::new(server_cfg)).unwrap(),
        client_chain,
        server_chain,
    }
}

fn handshake(pair: &mut Pair) {
    while pair.client.is_handshaking() || pair.server.is_handshaking() {
        let mut wire = vec![];
        while pair.client.wants_write() {
            pair.client.write_tls(&mut wire).unwrap();
        }
        let mut rest = wire.as_slice();
        while !rest.is_empty() {
            pair.server.read_tls(&mut rest).unwrap();
            pair.server.process_new_packets().unwrap();
        }
        let mut wire = vec![];
        while pair.server.wants_write() {
            pair.server.write_tls(&mut wire).unwrap();
        }
        let mut rest = wire.as_slice();
        while !rest.is_empty() {
            pair.client.read_tls(&mut rest).unwrap();
            pair.client.process_new_packets().unwrap();
        }
    }
}

/// Ids that keep the certificate's whole DER as its serial.
fn whole(chain: Vec<Vec<u8>>) -> Vec<CertId> {
    chain.into_iter().map(|der| CertId { issuer: b"ca".to_vec(), serial: der }).collect()
}

/// State of a connection whose peer has shown a chain, kept as these serials.
fn state_with(serials: &[&[u8]], identity: Option<&str>) -> Box<ConnectionRevocation> {
    let (_tx, crl_rx) = watch::channel(0u64);
    let mut pair = pair();
    handshake(&mut pair);
    let ids = serials
        .iter()
        .map(|s| CertId { issuer: b"ca".to_vec(), serial: s.to_vec() })
        .collect();
    ConnectionRevocation::new(&pair.server, |_| ids, |_| identity.map(|i| i.to_string()), crl_rx)
}

fn revoking(serial: &[u8]) -> CrlSet {
    CrlSet { crls: vec![Crl { issuer: b"ca".to_vec(), revoked: vec![serial.to_vec()] }] }
}

/// The certificates that a state keeps are revoked one by one, and no other is.
fn keeps_exactly(state: &ConnectionRevocation, chain: &[Vec<u8>], other: &[u8]) {
    for der in chain {
        let crl = revoking(der);
        assert_eq!(wait_for_revocation(Some((state, &crl)), Wake::Start), Wait::Resolved);
    }
    let crl = revoking(other);
    assert_eq!(wait_for_revocation(Some((state, &crl)), Wake::Start), Wait::AwaitChange);
}

#[test]
fn inbound_captures_the_client_chain() {
    let mut pair = pair();
    handshake(&mut pair);
    let (_tx, crl_rx) = watch::channel(0u64);
    let mut shown = vec![];
    let mut state = ConnectionRevocation::new(
        &pair.server,
        |chain| {
            shown = chain.clone();
            whole(chain)
        },
        |conn| conn.peer_certificates().map(|c| format!("{} certificates", c.len())),
        crl_rx,
    );
    assert_eq!(shown, pair.client_chain);
    keeps_exactly(&state, &pair.client_chain, &pair.server_chain[0]);
    assert_eq!(state.record_revocation(|_, _| (), Reporter::Destination), "2 certificates");
}

#[test]
fn outbound_captures_the_server_chain() {
    let mut pair = pair();
    handshake(&mut pair);
    let (_tx, crl_rx) = watch::channel(0u64);
    let mut state = ConnectionRevocation::new(&pair.client, whole, |_| None, crl_rx);
    keeps_exactly(&state, &pair.server_chain, &pair.client_chain[0]);
    assert_eq!(state.record_revocation(|_, _| (), Reporter::Source), "<unknown>");
}

#[test]
fn no_chain_leaves_no_ids() {
    let pair = pair();
    let (_tx, crl_rx) = watch::channel(0u64);
    let state =
        ConnectionRevocation::new(&pair.server, |_| panic!("no chain was shown"), |_| None, crl_rx);
    keeps_exactly(&state, &[], &pair.client_chain[0]);
}

#[test]
fn subscription_to_loads_is_kept() {
    let pair = pair();
    let (tx, crl_rx) = watch::channel(3u64);
    let mut state = ConnectionRevocation::new(&pair.server, whole, |_| None, crl_rx);
    assert!(!state.crl_updates().has_changed().unwrap());
    tx.send(4).unwrap();
    assert!(state.crl_updates().has_changed().unwrap());
    assert_eq!(*state.crl_updates().borrow_and_update(), 4);
    assert!(!state.crl_updates().has_changed().unwrap());
}

#[test]
fn ids_of_an_optional_chain() {
    assert!(chain_ids(None, whole).is_empty());
    let ids = chain_ids(Some(vec![vec![1], vec![2, 3]]), whole);
    assert_eq!(ids.len(), 2);
    assert_eq!(ids[1].serial, vec![2, 3]);
}

#[test]
fn revocation_reaches_every_subscriber() {
    let mut state = state_with(&[], Some("spiffe://td/ns/n/sa/a"));
    let receivers: Vec<watch::Receiver<bool>> = (0..15).map(|_| state.subscribe_revoked()).collect();
    assert!(receivers.iter().all(|rx| !*rx.borrow() && !rx.has_changed().unwrap()));
    let mut counted = vec![];
    let peer = state.record_revocation(|r, _| counted.push(r), Reporter::Source);
    assert_eq!(peer, "spiffe://td/ns/n/sa/a");
    assert_eq!(counted, vec![Reporter::Source]);
    assert!(receivers.iter().all(|rx| *rx.borrow() && rx.has_changed().unwrap()));
}

#[test]
fn rejection_is_counted_before_the_signal() {
    let mut state = state_with(&[], None);
    let rx = state.subscribe_revoked();
    let peer = state.record_revocation(
        |_, before| {
            assert!(!*rx.borrow());
            assert!(!*before.subscribe_revoked().borrow());
        },
        Reporter::Destination,
    );
    assert_eq!(peer, "<unknown>");
    assert!(*rx.borrow());
}

#[test]
fn signal_stays_raised() {
    let mut state = state_with(&[], None);
    let rx = state.subscribe_revoked();
    state.record_revocation(|_, _| (), Reporter::Destination);
    state.record_revocation(|_, _| (), Reporter::Destination);
    let _ = state.crl_updates();
    assert!(*rx.borrow());
    assert!(*state.subscribe_revoked().borrow());
}

#[test]
fn late_subscriber_reads_the_raised_signal() {
    let mut state = state_with(&[], None);
    assert!(!*state.subscribe_revoked().borrow());
    // No receiver is alive here.
    state.record_revocation(|_, _| (), Reporter::Destination);
    let late = state.subscribe_revoked();
    assert!(*late.borrow());
    assert!(!late.has_changed().unwrap());
}

#[test]
fn labels() {
    assert_eq!(label_of(&None), "<unknown>");
    assert_eq!(label_of(&Some("x".to_string())), "x");
}

#[test]
fn wait_checks_when_it_begins_and_after_each_load() {
    let state = state_with(&[&[1], &[2]], None);
    let hit = revoking(&[2]);
    let miss = revoking(&[3]);
    for wake in [Wake::Start, Wake::Changed] {
        assert_eq!(wait_for_revocation(Some((&state, &hit)), wake), Wait::Resolved);
        assert_eq!(wait_for_revocation(Some((&state, &miss)), wake), Wait::AwaitChange);
    }
}

#[test]
fn wait_is_dormant_once_loads_have_ended() {
    let state = state_with(&[&[1]], None);
    let hit = revoking(&[1]);
    assert_eq!(wait_for_revocation(Some((&state, &hit)), Wake::SenderGone), Wait::Dormant);
}

#[test]
fn wait_without_crl_is_dormant() {
    for wake in [Wake::Start, Wake::Changed, Wake::SenderGone] {
        assert_eq!(wait_for_revocation(None, wake), Wait::Dormant);
    }
}

#[test]
fn wait_resolves_at_the_first_revoking_load() {
    let state = state_with(&[&[1]], None);
    let loads = [revoking(&[9]), revoking(&[8]), revoking(&[1]), revoking(&[9])];
    let mut wake = Wake::Start;
    let mut waited = 0;
    for crl in &loads {
        match wait_for_revocation(Some((&state, crl)), wake) {
            Wait::AwaitChange => waited += 1,
            Wait::Resolved => break,
            Wait::Dormant => panic!("loads go on"),
        }
        wake = Wake::Changed;
    }
    assert_eq!(waited, 2);
}
