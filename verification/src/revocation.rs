//! Revocation enforcement for one HBONE connection, in either direction: what is kept of the peer's
//! chain, how its revocation is recorded and signalled, and when the wait for it ends.

use crate::crl::{CertId, CertKey, CrlSet};
use crate::outside::{peer_certificates, watch_channel, watch_replace, watch_subscribe};
use rustls::CommonState;
use tokio::sync::watch;
use vstd::prelude::*;

verus! {

/// The side that reports a rejection: the source on an outbound connection, the destination on an
/// inbound one.
#[derive(Clone, Copy, Debug, PartialEq, Eq, Structural)]
pub enum Reporter {
    Source,
    Destination,
}

/// Per-connection revocation state, one for each TLS connection whatever the number of its streams.
pub struct ConnectionRevocation {
    /// `(issuer, serial)` of each certificate in the peer's chain: all that is kept of it.
    ids: Vec<CertId>,
    /// Notified of every successful load of the CRLs.
    crl_rx: watch::Receiver<u64>,
    /// The peer's identity as logs show it, if its certificate has one.
    peer_identity: Option<String>,
    /// Flipped to `true` when a certificate of the chain is revoked, so that whatever serves the
    /// connection's streams can attribute their end to it.
    revoked_tx: watch::Sender<bool>,
}

/// What logs call a peer.
pub open spec fn peer_label(identity: Option<String>) -> Seq<char> {
    match identity {
        Some(id) => id@,
        None => "<unknown>"@,
    }
}

/// `ids` is what is kept of the chain that the connection's peer has shown: nothing where it has
/// shown none, and otherwise what `chain_cert_ids` makes of it.
pub open spec fn ids_of_peer<F: FnOnce(Vec<Vec<u8>>) -> Vec<CertId>>(
    conn_state: CommonState,
    chain_cert_ids: F,
    ids: Vec<CertId>,
) -> bool {
    match crate::outside::peer_chain(conn_state) {
        None => ids@.len() == 0,
        Some(bytes) => exists|chain: Vec<Vec<u8>>|
            crate::outside::chain_bytes(chain) == bytes && #[trigger] call_ensures(
                chain_cert_ids,
                (chain,),
                ids,
            ),
    }
}

/// Every certificate that the peer has shown is kept, at its place, and nothing beside: where
/// `chain_cert_ids` gives one id for each certificate, the one that `key` reads out of it, the ids
/// that are kept are as many as the certificates shown, and each is the one of the certificate at
/// its place. Where the peer has shown no chain, nothing is kept.
pub proof fn law_every_shown_certificate_is_kept<F: FnOnce(Vec<Vec<u8>>) -> Vec<CertId>>(
    conn_state: CommonState,
    chain_cert_ids: F,
    ids: Vec<CertId>,
    key: spec_fn(Seq<u8>) -> CertKey,
)
    requires
        ids_of_peer(conn_state, chain_cert_ids, ids),
        forall|chain: Vec<Vec<u8>>, made: Vec<CertId>| #[trigger]
            call_ensures(chain_cert_ids, (chain,), made) ==> made@.len() == chain@.len() && (forall|
                n: int,
            |
                0 <= n < chain@.len() ==> ((#[trigger] made@[n]).issuer@, made@[n].serial@) == key(
                    chain@[n]@,
                )),
    ensures
        crate::outside::peer_chain(conn_state) is None ==> ids@.len() == 0,
        crate::outside::peer_chain(conn_state) matches Some(shown) ==> ids@.len() == shown.len()
            && forall|n: int|
            0 <= n < shown.len() ==> ((#[trigger] ids@[n]).issuer@, ids@[n].serial@) == key(
                shown[n],
            ),
{
    if let Some(shown) = crate::outside::peer_chain(conn_state) {
        let chain = choose|chain: Vec<Vec<u8>>|
            crate::outside::chain_bytes(chain) == shown && #[trigger] call_ensures(
                chain_cert_ids,
                (chain,),
                ids,
            );
        crate::outside::law_bytes_are_those_of_each_certificate(chain);
        assert forall|n: int| 0 <= n < shown.len() implies (
            (#[trigger] ids@[n]).issuer@,
            ids@[n].serial@,
        ) == key(shown[n]) by {
            assert(chain@[n]@ == shown[n]);
        }
    }
}

/// The ids that are kept are a list that `chain_cert_ids` has returned, whole, for the certificates
/// that the peer has shown, all of them and in their order.
pub proof fn law_kept_ids_are_what_was_returned<F: FnOnce(Vec<Vec<u8>>) -> Vec<CertId>>(
    conn_state: CommonState,
    chain_cert_ids: F,
    ids: Vec<CertId>,
    shown: Seq<Seq<u8>>,
)
    requires
        crate::outside::peer_chain(conn_state) == Some(shown),
    ensures
        ids_of_peer(conn_state, chain_cert_ids, ids) <==> exists|chain: Vec<Vec<u8>>|
            chain@.len() == shown.len() && (forall|n: int|
                0 <= n < shown.len() ==> (#[trigger] chain@[n])@ == shown[n])
                && #[trigger] call_ensures(chain_cert_ids, (chain,), ids),
{
    if ids_of_peer(conn_state, chain_cert_ids, ids) {
        let chain = choose|chain: Vec<Vec<u8>>|
            crate::outside::chain_bytes(chain) == shown && #[trigger] call_ensures(
                chain_cert_ids,
                (chain,),
                ids,
            );
        crate::outside::law_bytes_are_those_of_each_certificate(chain);
        assert(chain@.len() == shown.len() && (forall|n: int|
            0 <= n < shown.len() ==> (#[trigger] chain@[n])@ == shown[n]) && call_ensures(
            chain_cert_ids,
            (chain,),
            ids,
        ));
    }
    if exists|chain: Vec<Vec<u8>>|
        chain@.len() == shown.len() && (forall|n: int|
            0 <= n < shown.len() ==> (#[trigger] chain@[n])@ == shown[n])
            && #[trigger] call_ensures(chain_cert_ids, (chain,), ids) {
        let chain = choose|chain: Vec<Vec<u8>>|
            chain@.len() == shown.len() && (forall|n: int|
                0 <= n < shown.len() ==> (#[trigger] chain@[n])@ == shown[n])
                && #[trigger] call_ensures(chain_cert_ids, (chain,), ids);
        crate::outside::law_bytes_are_those_of_each_certificate(chain);
        assert(crate::outside::chain_bytes(chain) =~= shown);
    }
}

/// A peer with an identity is called by it, whatever it is and however long, and every other peer
/// is called `<unknown>`. So two peers with identities are called alike just when these are alike.
pub proof fn law_peer_is_called_by_its_identity(id: String, other: String)
    ensures
        peer_label(Some(id)) == id@,
        peer_label(None) == "<unknown>"@,
        peer_label(Some(id)) == peer_label(Some(other)) <==> id@ == other@,
{
}

/// The certificate ids of a chain, which may be absent.
pub fn chain_ids<F: FnOnce(Vec<Vec<u8>>) -> Vec<CertId>>(
    chain: Option<Vec<Vec<u8>>>,
    chain_cert_ids: F,
) -> (ids: Vec<CertId>)
    requires
        chain matches Some(certs) ==> call_requires(chain_cert_ids, (certs,)),
    ensures
        match chain {
            None => ids@.len() == 0,
            Some(certs) => call_ensures(chain_cert_ids, (certs,), ids),
        },
{
    match chain {
        Some(certs) => chain_cert_ids(certs),
        None => Vec::new(),
    }
}

/// The certificate ids of the chain that a connection's peer has shown.
pub(crate) fn peer_ids<F: FnOnce(Vec<Vec<u8>>) -> Vec<CertId>>(
    conn_state: &CommonState,
    chain_cert_ids: F,
) -> (ids: Vec<CertId>)
    requires
        forall|chain: Vec<Vec<u8>>| #[trigger] call_requires(chain_cert_ids, (chain,)),
    ensures
        ids_of_peer(*conn_state, chain_cert_ids, ids),
        crate::outside::peer_chain(*conn_state) is None ==> ids@.len() == 0,
        crate::outside::peer_chain(*conn_state) matches Some(shown) ==> exists|
            chain: Vec<Vec<u8>>,
        |
            chain@.len() == shown.len() && (forall|n: int|
                0 <= n < shown.len() ==> (#[trigger] chain@[n])@ == shown[n])
                && #[trigger] call_ensures(chain_cert_ids, (chain,), ids),
{
    chain_ids(peer_certificates(conn_state), chain_cert_ids)
}

/// The name of a peer for logs.
pub fn label_of(identity: &Option<String>) -> (label: String)
    ensures
        label@ == peer_label(*identity),
        (*identity) matches Some(id) ==> label@ == id@,
        (*identity) is None ==> label@ == "<unknown>"@,
{
    match identity {
        Some(id) => id.clone(),
        None => "<unknown>".to_string(),
    }
}

/// A call that is made on a connection's revocation state.
#[derive(Clone, Copy, Debug, PartialEq, Eq, Structural)]
pub enum StateCall {
    /// The revocation is recorded, or its signal raised.
    Record,
    /// A receiver of the signal is taken.
    Subscribe,
    /// The subscription to CRL loads is borrowed.
    Loads,
}

/// The signal after a call: recording a revocation raises it, nothing else touches it.
pub open spec fn signal_rule(before: bool, call: StateCall) -> bool {
    before || call is Record
}

/// The signal after a series of calls.
pub open spec fn signal_after(before: bool, calls: Seq<StateCall>) -> bool
    decreases calls.len(),
{
    if calls.len() == 0 {
        before
    } else {
        signal_rule(signal_after(before, calls.drop_last()), calls.last())
    }
}

/// The signal is raised just when it was raised to begin with or some call has recorded the
/// revocation. So no call lowers it: what is raised stays raised.
pub proof fn law_signal_is_raised_by_a_record_and_stays(before: bool, calls: Seq<StateCall>)
    ensures
        signal_after(before, calls) <==> before || exists|i: int|
            0 <= i < calls.len() && #[trigger] calls[i] is Record,
    decreases calls.len(),
{
    if calls.len() > 0 {
        let shorter = calls.drop_last();
        law_signal_is_raised_by_a_record_and_stays(before, shorter);
        if exists|i: int| 0 <= i < shorter.len() && #[trigger] shorter[i] is Record {
            let i = choose|i: int| 0 <= i < shorter.len() && #[trigger] shorter[i] is Record;
            assert(calls[i] is Record);
        }
        if exists|i: int| 0 <= i < calls.len() && #[trigger] calls[i] is Record {
            let i = choose|i: int| 0 <= i < calls.len() && #[trigger] calls[i] is Record;
            if i < shorter.len() {
                assert(shorter[i] is Record);
            }
        }
        assert(calls[calls.len() - 1] == calls.last());
    }
}

/// Every receiver that the channel has in the state `before` reads `true` in the state `after` and
/// reports a change.
pub open spec fn all_told(before: watch::Sender<bool>, after: watch::Sender<bool>) -> bool {
    forall|rx: watch::Receiver<bool>|
        crate::outside::receiver_sees(rx, before) is Some ==> #[trigger]
            crate::outside::receiver_sees(rx, after) == Some((true, true))
}

/// Once a revocation is recorded, each receiver that was there reads the raised signal and is
/// woken by it.
pub proof fn law_every_receiver_is_told(
    before: watch::Sender<bool>,
    after: watch::Sender<bool>,
    rx: watch::Receiver<bool>,
)
    requires
        all_told(before, after),
        crate::outside::receiver_sees(rx, before) is Some,
    ensures
        crate::outside::receiver_sees(rx, after) == Some((true, true)),
{
}

/// One call: a record raises the signal whatever it was, and any other call leaves it.
pub proof fn law_one_call_on_the_signal(before: bool)
    ensures
        signal_rule(before, StateCall::Record),
        signal_rule(before, StateCall::Subscribe) == before,
        signal_rule(before, StateCall::Loads) == before,
{
}

impl ConnectionRevocation {
    /// What is kept of the peer's chain.
    pub closed spec fn ids(&self) -> Vec<CertId> {
        self.ids
    }

    /// The subscription to CRL loads.
    pub closed spec fn loads(&self) -> watch::Receiver<u64> {
        self.crl_rx
    }

    /// The peer's identity.
    pub closed spec fn identity(&self) -> Option<String> {
        self.peer_identity
    }

    /// The sender of this connection's revocation signal.
    pub closed spec fn signal(&self) -> watch::Sender<bool> {
        self.revoked_tx
    }

    /// The keys of the peer's chain.
    pub open spec fn chain(&self) -> Seq<CertKey> {
        crate::crl::chain_keys(self.ids()@)
    }

    /// The revocation signal is raised.
    pub open spec fn raised(&self) -> bool {
        crate::outside::signal_value(self.signal())
    }

    /// Captures the peer's chain and identity from an established TLS connection. `chain_cert_ids`
    /// reads `(issuer, serial)` out of each DER certificate, `identity_from_connection` names the
    /// peer, and `crl_rx` is a subscription to CRL loads. The signal starts lowered.
    pub fn new<F, G>(
        conn_state: &CommonState,
        chain_cert_ids: F,
        identity_from_connection: G,
        crl_rx: watch::Receiver<u64>,
    ) -> (state: Box<Self>) where
        F: FnOnce(Vec<Vec<u8>>) -> Vec<CertId>,
        G: FnOnce(&CommonState) -> Option<String>,

        requires
            forall|chain: Vec<Vec<u8>>| #[trigger] call_requires(chain_cert_ids, (chain,)),
            call_requires(identity_from_connection, (conn_state,)),
        ensures
            ids_of_peer(*conn_state, chain_cert_ids, state.ids()),
            crate::outside::peer_chain(*conn_state) is None ==> state.ids()@.len() == 0,
            crate::outside::peer_chain(*conn_state) matches Some(shown) ==> exists|
                chain: Vec<Vec<u8>>,
            |
                chain@.len() == shown.len() && (forall|n: int|
                    0 <= n < shown.len() ==> (#[trigger] chain@[n])@ == shown[n])
                    && #[trigger] call_ensures(chain_cert_ids, (chain,), state.ids()),
            call_ensures(identity_from_connection, (conn_state,), state.identity()),
            state.loads() == crl_rx,
            !state.raised(),
            !crate::outside::signal_value(state.signal()),
    {
        let ids = peer_ids(conn_state, chain_cert_ids);
        let peer_identity = identity_from_connection(conn_state);
        let (revoked_tx, _) = watch_channel(false);
        let state = Box::new(Self { ids, crl_rx, peer_identity, revoked_tx });
        assert(state.ids() == ids);
        state
    }

    /// A receiver of this connection's revocation signal. It reads the signal as it is: raised just
    /// when the revocation was recorded before.
    pub fn subscribe_revoked(&self) -> (rx: watch::Receiver<bool>)
        ensures
            crate::outside::receiver_sees(rx, self.signal()) == Some(
                (signal_rule(self.raised(), StateCall::Subscribe), false),
            ),
            crate::outside::receiver_sees(rx, self.signal()) == Some(
                (crate::outside::signal_value(self.signal()), false),
            ),
    {
        watch_subscribe(&self.revoked_tx)
    }

    /// The subscription to CRL loads, to wait on. All else of the state stays as it is.
    pub fn crl_updates(&mut self) -> (rx: &mut watch::Receiver<u64>)
        ensures
            *rx == old(self).loads(),
            final(self).loads() == *final(rx),
            final(self).ids() == old(self).ids(),
            final(self).identity() == old(self).identity(),
            final(self).signal() == old(self).signal(),
            final(self).raised() == signal_rule(old(self).raised(), StateCall::Loads),
    {
        &mut self.crl_rx
    }

    /// Records the revocation as a security event: counts the rejection under the caller's
    /// direction, then raises the signal, and returns the peer's name for the log. The count is
    /// handed the state as it is before the signal is raised. The caller tears the connection down
    /// after this, so that the signal comes before the teardown's own errors.
    pub fn record_revocation<M: FnOnce(Reporter, &Self)>(
        &mut self,
        record_crl_rejection: M,
        reporter: Reporter,
    ) -> (peer: String)
        requires
            call_requires(record_crl_rejection, (reporter, &*old(self))),
        ensures
            call_ensures(record_crl_rejection, (reporter, &*old(self)), ()),
            final(self).raised() == signal_rule(old(self).raised(), StateCall::Record),
            crate::outside::signal_value(final(self).signal()),
            all_told(old(self).signal(), final(self).signal()),
            forall|rx: watch::Receiver<bool>|
                crate::outside::receiver_sees(rx, old(self).signal()) is Some ==> #[trigger]
                    crate::outside::receiver_sees(rx, final(self).signal()) == Some((true, true)),
            peer@ == peer_label(old(self).identity()),
            old(self).identity() matches Some(id) ==> peer@ == id@,
            old(self).identity() is None ==> peer@ == "<unknown>"@,
            final(self).ids() == old(self).ids(),
            final(self).loads() == old(self).loads(),
            final(self).identity() == old(self).identity(),
    {
        record_crl_rejection(reporter, &*self);
        watch_replace(&mut self.revoked_tx, true);
        label_of(&self.peer_identity)
    }
}

/// What a wait for revocation has woken up to.
#[derive(Clone, Copy, Debug, PartialEq, Eq, Structural)]
pub enum Wake {
    /// Nothing: the wait begins.
    Start,
    /// The CRLs were loaded anew.
    Changed,
    /// Whatever loads the CRLs is gone.
    SenderGone,
}

/// What a wait does next.
#[derive(Clone, Copy, Debug, PartialEq, Eq, Structural)]
pub enum Wait {
    /// The wait is over.
    Resolved,
    /// Wait for the next load of the CRLs.
    AwaitChange,
    /// Never resolve.
    Dormant,
}

/// The rule of `wait_for_revocation`, over the chain and the revoked certificates as they are at
/// the time of the wake-up.
pub open spec fn revocation_wait(
    state: Option<(Seq<CertKey>, Set<CertKey>)>,
    wake: Wake,
) -> Wait {
    match state {
        None => Wait::Dormant,
        Some((chain, revoked)) => if wake is SenderGone {
            Wait::Dormant
        } else if crate::crl::chain_revoked(revoked, chain) {
            Wait::Resolved
        } else {
            Wait::AwaitChange
        },
    }
}

/// One step of the wait for this connection's revocation, which resolves only when the CRLs revoke
/// a certificate of its chain: the chain is checked when the wait begins and after every load, and
/// a load that does not affect it is waited over. With no CRL configured (`None`), or once whatever
/// loads the CRLs is gone, it never resolves.
pub fn wait_for_revocation(
    state: Option<(&ConnectionRevocation, &CrlSet)>,
    wake: Wake,
) -> (next: Wait)
    ensures
        next == revocation_wait(
            match state {
                None => None,
                Some((revocation, crl)) => Some((revocation.chain(), crl@)),
            },
            wake,
        ),
        state is None || wake is SenderGone ==> next is Dormant,
        state is Some && !(wake is SenderGone) ==> next is Resolved || next is AwaitChange,
        next is Resolved <==> !(wake is SenderGone) && (state matches Some((revocation, crl))
            && exists|k: int, i: int, j: int|
            0 <= k < revocation.ids()@.len() && 0 <= i < crl.crls@.len() && 0 <= j
                < crl.crls@[i].revoked@.len() && crl.crls@[i].issuer@ == (
            #[trigger] revocation.ids()@[k]).issuer@ && (#[trigger] crl.crls@[i].revoked@[j])@
                == revocation.ids()@[k].serial@),
{
    match state {
        None => Wait::Dormant,
        Some((revocation, crl)) => match wake {
            Wake::SenderGone => Wait::Dormant,
            Wake::Start | Wake::Changed => if crl.any_revoked(&revocation.ids) {
                Wait::Resolved
            } else {
                Wait::AwaitChange
            },
        },
    }
}

/// The chain that a wait goes by holds each certificate that the state keeps, at its place, and no
/// other.
pub proof fn law_wait_looks_at_the_whole_chain(state: ConnectionRevocation)
    ensures
        state.chain().len() == state.ids()@.len(),
        forall|k: int|
            0 <= k < state.ids()@.len() ==> #[trigger] state.chain()[k] == state.ids()@[k]@
                && state.chain()[k] == (state.ids()@[k].issuer@, state.ids()@[k].serial@),
{
    crate::crl::law_chain_keeps_every_certificate(state.ids()@);
}

/// A wait that begins, or wakes to a load, resolves just when some certificate that the state
/// keeps, at any place, is revoked; otherwise it waits on. It never resolves where whatever loads
/// the CRLs is gone.
pub proof fn law_wait_resolves_on_any_kept_certificate(
    state: ConnectionRevocation,
    crl: CrlSet,
    wake: Wake,
)
    ensures
        !(wake is SenderGone) && (exists|k: int|
            0 <= k < state.ids()@.len() && crl@.contains(#[trigger] state.ids()@[k]@))
            ==> revocation_wait(Some((state.chain(), crl@)), wake) is Resolved,
        !(wake is SenderGone) && (forall|k: int|
            0 <= k < state.ids()@.len() ==> !crl@.contains(#[trigger] state.ids()@[k]@))
            ==> revocation_wait(Some((state.chain(), crl@)), wake) is AwaitChange,
        wake is SenderGone ==> revocation_wait(Some((state.chain(), crl@)), wake) is Dormant,
        revocation_wait(None, wake) is Dormant,
{
    law_wait_looks_at_the_whole_chain(state);
    let chain = state.chain();
    if exists|k: int| 0 <= k < state.ids()@.len() && crl@.contains(#[trigger] state.ids()@[k]@) {
        let k = choose|k: int|
            0 <= k < state.ids()@.len() && crl@.contains(#[trigger] state.ids()@[k]@);
        assert(crl@.contains(chain[k]));
    } else {
        assert forall|k: int| 0 <= k < chain.len() implies !#[trigger] crl@.contains(
            chain[k],
        ) by {
            assert(!crl@.contains(state.ids()@[k]@));
        }
    }
}

/// A peer that has shown a certificate which a CRL lists, at any place of its chain and of the CRL,
/// ends the wait at once: at its start as on any load.
pub proof fn law_shown_and_listed_ends_the_wait<F: FnOnce(Vec<Vec<u8>>) -> Vec<CertId>>(
    conn_state: CommonState,
    chain_cert_ids: F,
    state: ConnectionRevocation,
    key: spec_fn(Seq<u8>) -> CertKey,
    shown: Seq<Seq<u8>>,
    crl: CrlSet,
    wake: Wake,
    n: int,
    i: int,
    j: int,
)
    requires
        ids_of_peer(conn_state, chain_cert_ids, state.ids()),
        forall|chain: Vec<Vec<u8>>, made: Vec<CertId>| #[trigger]
            call_ensures(chain_cert_ids, (chain,), made) ==> made@.len() == chain@.len() && (forall|
                m: int,
            |
                0 <= m < chain@.len() ==> ((#[trigger] made@[m]).issuer@, made@[m].serial@) == key(
                    chain@[m]@,
                )),
        crate::outside::peer_chain(conn_state) == Some(shown),
        0 <= n < shown.len(),
        0 <= i < crl.crls@.len(),
        0 <= j < crl.crls@[i].revoked@.len(),
        key(shown[n]) == (crl.crls@[i].issuer@, crl.crls@[i].revoked@[j]@),
        !(wake is SenderGone),
    ensures
        revocation_wait(Some((state.chain(), crl@)), wake) is Resolved,
{
    law_every_shown_certificate_is_kept(conn_state, chain_cert_ids, state.ids(), key);
    assert((state.ids()@[n].issuer@, state.ids()@[n].serial@) == key(shown[n]));
    assert(crl.crls@[i].revoked@[j]@ == state.ids()@[n].serial@);
    crate::crl::law_chain_is_revoked_by_any_listed_certificate(crl, state.ids()@);
}

/// How a wait stands after a series of wake-ups, each with the certificates revoked at its time. A
/// wait that has resolved or gone dormant stays so.
pub open spec fn wait_after(
    chain: Option<Seq<CertKey>>,
    wakes: Seq<(Wake, Set<CertKey>)>,
) -> Wait
    decreases wakes.len(),
{
    if wakes.len() == 0 {
        Wait::AwaitChange
    } else {
        match wait_after(chain, wakes.drop_last()) {
            Wait::AwaitChange => revocation_wait(
                match chain {
                    None => None,
                    Some(keys) => Some((keys, wakes.last().1)),
                },
                wakes.last().0,
            ),
            settled => settled,
        }
    }
}

/// Where no CRL is configured, the wait resolves on no series of wake-ups.
pub proof fn law_wait_without_crl_never_resolves(wakes: Seq<(Wake, Set<CertKey>)>)
    ensures
        !(wait_after(None, wakes) is Resolved),
    decreases wakes.len(),
{
    if wakes.len() > 0 {
        law_wait_without_crl_never_resolves(wakes.drop_last());
    }
}

/// The chain is found revoked at wake-up `k`, with whatever loads the CRLs still there.
pub open spec fn found_revoked(
    chain: Seq<CertKey>,
    wakes: Seq<(Wake, Set<CertKey>)>,
    k: int,
) -> bool {
    &&& 0 <= k < wakes.len()
    &&& crate::crl::chain_revoked(wakes[k].1, chain)
    &&& forall|j: int| 0 <= j <= k ==> !(#[trigger] wakes[j].0 is SenderGone)
}

/// No revocation is missed and none is made up: the wait has resolved just when, at some wake-up
/// before the loads end, a certificate of the chain was revoked. It goes on waiting just when there
/// was none and the loads have not ended.
pub proof fn law_wait_resolves_exactly_on_revocation(
    chain: Seq<CertKey>,
    wakes: Seq<(Wake, Set<CertKey>)>,
)
    ensures
        wait_after(Some(chain), wakes) is Resolved <==> exists|k: int|
            found_revoked(chain, wakes, k),
        wait_after(Some(chain), wakes) is AwaitChange <==> (forall|k: int|
            0 <= k < wakes.len() ==> !(#[trigger] wakes[k].0 is SenderGone)
                && !crate::crl::chain_revoked(wakes[k].1, chain)),
    decreases wakes.len(),
{
    if wakes.len() > 0 {
        let before = wakes.drop_last();
        let last = wakes.len() - 1;
        law_wait_resolves_exactly_on_revocation(chain, before);
        assert(forall|k: int| 0 <= k < last ==> before[k] == wakes[k]);
        if wait_after(Some(chain), before) is Resolved {
            let k = choose|k: int| found_revoked(chain, before, k);
            assert(found_revoked(chain, wakes, k)) by {
                assert forall|j: int| 0 <= j <= k implies !(#[trigger] wakes[j].0
                    is SenderGone) by {
                    assert(!(before[j].0 is SenderGone));
                }
            }
        } else if wait_after(Some(chain), before) is Dormant {
            assert forall|k: int| !found_revoked(chain, wakes, k) by {
                if found_revoked(chain, wakes, k) {
                    if k < last {
                        assert(found_revoked(chain, before, k));
                    } else {
                        let bad = choose|j: int|
                            0 <= j < before.len() && (#[trigger] before[j].0 is SenderGone
                                || crate::crl::chain_revoked(before[j].1, chain));
                        assert(!(wakes[bad].0 is SenderGone));
                        assert(found_revoked(chain, before, bad)) by {
                            assert forall|j: int| 0 <= j <= bad implies !(#[trigger] before[j].0
                                is SenderGone) by {
                                assert(!(wakes[j].0 is SenderGone));
                            }
                        }
                    }
                }
            }
        } else {
            assert forall|k: int| 0 <= k < last implies !found_revoked(chain, wakes, k) by {
                assert(!(before[k].0 is SenderGone));
            }
            if wait_after(Some(chain), wakes) is Resolved {
                assert(found_revoked(chain, wakes, last)) by {
                    assert forall|j: int| 0 <= j <= last implies !(#[trigger] wakes[j].0
                        is SenderGone) by {
                        if j < last {
                            assert(!(before[j].0 is SenderGone));
                        }
                    }
                }
            }
        }
    }
}

/// Certificate by certificate: the wait has resolved just when, at some wake-up before the loads
/// end, a certificate at some place of the chain was among the revoked.
pub proof fn law_wait_misses_no_certificate(
    chain: Seq<CertKey>,
    wakes: Seq<(Wake, Set<CertKey>)>,
)
    ensures
        wait_after(Some(chain), wakes) is Resolved <==> exists|k: int, m: int|
            0 <= k < wakes.len() && 0 <= m < chain.len() && (#[trigger] wakes[k]).1.contains(
                #[trigger] chain[m],
            ) && (forall|j: int| 0 <= j <= k ==> !(#[trigger] wakes[j].0 is SenderGone)),
{
    law_wait_resolves_exactly_on_revocation(chain, wakes);
    if wait_after(Some(chain), wakes) is Resolved {
        let k = choose|k: int| found_revoked(chain, wakes, k);
        let m = choose|m: int| 0 <= m < chain.len() && #[trigger] wakes[k].1.contains(chain[m]);
        assert(wakes[k].1.contains(chain[m]));
    }
    if exists|k: int, m: int|
        0 <= k < wakes.len() && 0 <= m < chain.len() && (#[trigger] wakes[k]).1.contains(
            #[trigger] chain[m],
        ) && (forall|j: int| 0 <= j <= k ==> !(#[trigger] wakes[j].0 is SenderGone)) {
        let (k, m) = choose|k: int, m: int|
            0 <= k < wakes.len() && 0 <= m < chain.len() && (#[trigger] wakes[k]).1.contains(
                #[trigger] chain[m],
            ) && (forall|j: int| 0 <= j <= k ==> !(#[trigger] wakes[j].0 is SenderGone));
        assert(wakes[k].1.contains(chain[m]));
        assert(found_revoked(chain, wakes, k));
    }
}

} // verus!
