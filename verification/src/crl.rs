//! The loaded certificate revocation lists, and membership of a certificate chain in them.

use vstd::prelude::*;

verus! {

/// What identifies a certificate to its issuer's CRL: `(issuer, serial)`.
pub type CertKey = (Seq<u8>, Seq<u8>);

/// `(issuer, serial)` of one certificate.
pub struct CertId {
    pub issuer: Vec<u8>,
    pub serial: Vec<u8>,
}

impl View for CertId {
    type V = CertKey;

    open spec fn view(&self) -> CertKey {
        (self.issuer@, self.serial@)
    }
}

/// The keys of a chain's certificates, in the chain's order.
pub open spec fn chain_keys(ids: Seq<CertId>) -> Seq<CertKey> {
    ids.map_values(|id: CertId| id@)
}

/// One CRL: its issuer, and the serials that the issuer has revoked.
pub struct Crl {
    pub issuer: Vec<u8>,
    pub revoked: Vec<Vec<u8>>,
}

impl Crl {
    /// This CRL revokes the certificate `key`.
    pub open spec fn revokes(self, key: CertKey) -> bool {
        &&& key.0 == self.issuer@
        &&& exists|j: int| 0 <= j < self.revoked@.len() && #[trigger] self.revoked@[j]@ == key.1
    }

    /// Whether this CRL revokes the certificate `id`.
    pub fn lists(&self, id: &CertId) -> (listed: bool)
        ensures
            listed == self.revokes(id@),
            listed <==> self.issuer@ == id.issuer@ && exists|j: int|
                0 <= j < self.revoked@.len() && #[trigger] self.revoked@[j]@ == id.serial@,
    {
        if !same_bytes(&self.issuer, &id.issuer) {
            return false;
        }
        let mut j: usize = 0;
        while j < self.revoked.len()
            invariant
                j <= self.revoked@.len(),
                self.issuer@ == id.issuer@,
                forall|k: int| 0 <= k < j ==> #[trigger] self.revoked@[k]@ != id.serial@,
            decreases self.revoked@.len() - j,
        {
            if same_bytes(&self.revoked[j], &id.serial) {
                assert(self.revoked@[j as int]@ == id@.1);
                return true;
            }
            j = j + 1;
        }
        false
    }
}

/// All CRLs of one load. Its view is the set of certificates that they revoke: several CRLs of one
/// issuer add up.
pub struct CrlSet {
    pub crls: Vec<Crl>,
}

impl View for CrlSet {
    type V = Set<CertKey>;

    open spec fn view(&self) -> Set<CertKey> {
        revoked_keys(self.crls@)
    }
}

/// The certificates that the CRLs of a list revoke.
pub open spec fn revoked_keys(crls: Seq<Crl>) -> Set<CertKey> {
    Set::new(|key: CertKey| exists|i: int| 0 <= i < crls.len() && #[trigger] crls[i].revokes(key))
}

/// Some certificate of the chain is in the set of revoked ones.
pub open spec fn chain_revoked(revoked: Set<CertKey>, chain: Seq<CertKey>) -> bool {
    exists|k: int| 0 <= k < chain.len() && #[trigger] revoked.contains(chain[k])
}

impl CrlSet {
    /// Whether any certificate of a chain is revoked.
    pub fn any_revoked(&self, ids: &Vec<CertId>) -> (revoked: bool)
        ensures
            revoked == chain_revoked(self@, chain_keys(ids@)),
            revoked <==> exists|k: int, i: int, j: int|
                0 <= k < ids@.len() && 0 <= i < self.crls@.len() && 0 <= j
                    < self.crls@[i].revoked@.len() && self.crls@[i].issuer@ == (
                #[trigger] ids@[k]).issuer@ && (#[trigger] self.crls@[i].revoked@[j])@
                    == ids@[k].serial@,
    {
        proof {
            law_chain_is_revoked_by_any_listed_certificate(*self, ids@);
        }
        let ghost chain = chain_keys(ids@);
        let mut k: usize = 0;
        while k < ids.len()
            invariant
                k <= ids@.len(),
                chain == chain_keys(ids@),
                forall|n: int| 0 <= n < k ==> !#[trigger] self@.contains(chain[n]),
            decreases ids@.len() - k,
        {
            if self.revokes(&ids[k]) {
                assert(self@.contains(chain[k as int]));
                return true;
            }
            assert(!self@.contains(chain[k as int]));
            k = k + 1;
        }
        false
    }

    /// Whether one certificate is revoked.
    pub fn revokes(&self, id: &CertId) -> (revoked: bool)
        ensures
            revoked == self@.contains(id@),
            revoked <==> exists|i: int, j: int|
                0 <= i < self.crls@.len() && 0 <= j < self.crls@[i].revoked@.len()
                    && self.crls@[i].issuer@ == id.issuer@ && (
                #[trigger] self.crls@[i].revoked@[j])@ == id.serial@,
    {
        proof {
            law_set_holds_exactly_the_listed_serials(*self, id@);
        }
        let mut i: usize = 0;
        while i < self.crls.len()
            invariant
                i <= self.crls@.len(),
                forall|n: int| 0 <= n < i ==> !#[trigger] self.crls@[n].revokes(id@),
            decreases self.crls@.len() - i,
        {
            if self.crls[i].lists(id) {
                assert(self.crls@[i as int].revokes(id@));
                return true;
            }
            i = i + 1;
        }
        false
    }
}

fn same_bytes(a: &Vec<u8>, b: &Vec<u8>) -> (same: bool)
    ensures
        same == (a@ == b@),
{
    if a.len() != b.len() {
        return false;
    }
    let mut n: usize = 0;
    while n < a.len()
        invariant
            n <= a@.len(),
            a@.len() == b@.len(),
            forall|m: int| 0 <= m < n ==> a@[m] == b@[m],
        decreases a@.len() - n,
    {
        if a[n] != b[n] {
            assert(a@[n as int] != b@[n as int]);
            return false;
        }
        n = n + 1;
    }
    assert(a@ =~= b@);
    true
}

/// A certificate goes by its issuer and its serial, both whole: two have the same key just when
/// both agree byte for byte.
pub proof fn law_key_is_issuer_and_serial(a: CertId, b: CertId)
    ensures
        a@ == (a.issuer@, a.serial@),
        a@ == b@ <==> a.issuer@ == b.issuer@ && a.serial@ == b.serial@,
{
}

/// The keys of a chain are those of its certificates, each at its place and none left out.
pub proof fn law_chain_keeps_every_certificate(ids: Seq<CertId>)
    ensures
        chain_keys(ids).len() == ids.len(),
        forall|k: int|
            0 <= k < ids.len() ==> #[trigger] chain_keys(ids)[k] == (
                ids[k].issuer@,
                ids[k].serial@,
            ),
{
}

/// A CRL revokes each serial that it lists, at whatever place, and nothing else: no serial that it
/// does not list, and no certificate of another issuer.
pub proof fn law_crl_revokes_exactly_its_serials(crl: Crl, key: CertKey)
    ensures
        forall|j: int|
            0 <= j < crl.revoked@.len() ==> crl.revokes(
                (crl.issuer@, (#[trigger] crl.revoked@[j])@),
            ),
        crl.revokes(key) ==> key.0 == crl.issuer@ && exists|j: int|
            0 <= j < crl.revoked@.len() && (#[trigger] crl.revoked@[j])@ == key.1,
{
}

/// Adding a serial to a CRL revokes that serial and keeps every other one; a CRL without serials
/// revokes nothing.
pub proof fn law_added_serial_is_revoked(shorter: Crl, longer: Crl, serial: Vec<u8>, key: CertKey)
    requires
        longer.issuer@ == shorter.issuer@,
        longer.revoked@ == shorter.revoked@.push(serial),
    ensures
        longer.revokes(key) <==> shorter.revokes(key) || key == (shorter.issuer@, serial@),
        shorter.revoked@.len() == 0 ==> !shorter.revokes(key),
{
    let last = shorter.revoked@.len() as int;
    if shorter.revokes(key) {
        let j = choose|j: int|
            0 <= j < shorter.revoked@.len() && #[trigger] shorter.revoked@[j]@ == key.1;
        assert(longer.revoked@[j]@ == key.1);
    }
    if key == (shorter.issuer@, serial@) {
        assert(longer.revoked@[last]@ == key.1);
    }
    if longer.revokes(key) {
        let j = choose|j: int|
            0 <= j < longer.revoked@.len() && #[trigger] longer.revoked@[j]@ == key.1;
        if j < last {
            assert(shorter.revoked@[j]@ == key.1);
        } else {
            assert(key.1 == serial@);
            assert(key == (shorter.issuer@, serial@));
        }
    }
}

/// A set of CRLs revokes exactly the serials that some CRL of the set lists, each for that CRL's
/// issuer.
pub proof fn law_set_holds_exactly_the_listed_serials(set: CrlSet, key: CertKey)
    ensures
        set@.contains(key) <==> exists|i: int, j: int|
            0 <= i < set.crls@.len() && 0 <= j < set.crls@[i].revoked@.len()
                && set.crls@[i].issuer@ == key.0 && (#[trigger] set.crls@[i].revoked@[j])@ == key.1,
{
    if set@.contains(key) {
        let i = choose|i: int| 0 <= i < set.crls@.len() && #[trigger] set.crls@[i].revokes(key);
        let j = choose|j: int|
            0 <= j < set.crls@[i].revoked@.len() && #[trigger] set.crls@[i].revoked@[j]@ == key.1;
        assert(set.crls@[i].revoked@[j]@ == key.1);
    }
    if exists|i: int, j: int|
        0 <= i < set.crls@.len() && 0 <= j < set.crls@[i].revoked@.len() && set.crls@[i].issuer@
            == key.0 && (#[trigger] set.crls@[i].revoked@[j])@ == key.1 {
        let (i, j) = choose|i: int, j: int|
            0 <= i < set.crls@.len() && 0 <= j < set.crls@[i].revoked@.len()
                && set.crls@[i].issuer@ == key.0 && (#[trigger] set.crls@[i].revoked@[j])@ == key.1;
        assert(set.crls@[i].revokes(key));
    }
}

/// A chain is revoked just when some certificate of it, at any place, has its serial listed in some
/// CRL of its issuer, at any place.
pub proof fn law_chain_is_revoked_by_any_listed_certificate(set: CrlSet, ids: Seq<CertId>)
    ensures
        chain_revoked(set@, chain_keys(ids)) <==> exists|k: int, i: int, j: int|
            0 <= k < ids.len() && 0 <= i < set.crls@.len() && 0 <= j < set.crls@[i].revoked@.len()
                && set.crls@[i].issuer@ == (#[trigger] ids[k]).issuer@ && (
            #[trigger] set.crls@[i].revoked@[j])@ == ids[k].serial@,
{
    let chain = chain_keys(ids);
    if chain_revoked(set@, chain) {
        let k = choose|k: int| 0 <= k < chain.len() && #[trigger] set@.contains(chain[k]);
        law_set_holds_exactly_the_listed_serials(set, chain[k]);
        let (i, j) = choose|i: int, j: int|
            0 <= i < set.crls@.len() && 0 <= j < set.crls@[i].revoked@.len()
                && set.crls@[i].issuer@ == chain[k].0 && (#[trigger] set.crls@[i].revoked@[j])@
                == chain[k].1;
        assert(set.crls@[i].issuer@ == ids[k].issuer@ && set.crls@[i].revoked@[j]@
            == ids[k].serial@);
    }
    if exists|k: int, i: int, j: int|
        0 <= k < ids.len() && 0 <= i < set.crls@.len() && 0 <= j < set.crls@[i].revoked@.len()
            && set.crls@[i].issuer@ == (#[trigger] ids[k]).issuer@ && (
        #[trigger] set.crls@[i].revoked@[j])@ == ids[k].serial@ {
        let (k, i, j) = choose|k: int, i: int, j: int|
            0 <= k < ids.len() && 0 <= i < set.crls@.len() && 0 <= j < set.crls@[i].revoked@.len()
                && set.crls@[i].issuer@ == (#[trigger] ids[k]).issuer@ && (
            #[trigger] set.crls@[i].revoked@[j])@ == ids[k].serial@;
        law_set_holds_exactly_the_listed_serials(set, chain[k]);
        assert(set.crls@[i].revoked@[j]@ == chain[k].1);
        assert(set@.contains(chain[k]));
    }
}

/// CRLs add up: what a list of CRLs revokes is what its parts revoke, also where the parts hold
/// CRLs of the same issuer. So no CRL hides what another one revokes.
pub proof fn law_crls_add_up(first: Seq<Crl>, second: Seq<Crl>)
    ensures
        revoked_keys(first + second) == revoked_keys(first).union(revoked_keys(second)),
{
    let both = first + second;
    assert forall|key: CertKey| #[trigger]
        revoked_keys(both).contains(key) == revoked_keys(first).union(
            revoked_keys(second),
        ).contains(key) by {
        if revoked_keys(first).contains(key) {
            let i = choose|i: int| 0 <= i < first.len() && #[trigger] first[i].revokes(key);
            assert(both[i].revokes(key));
        }
        if revoked_keys(second).contains(key) {
            let i = choose|i: int| 0 <= i < second.len() && #[trigger] second[i].revokes(key);
            assert(both[first.len() + i].revokes(key));
        }
        if revoked_keys(both).contains(key) {
            let i = choose|i: int| 0 <= i < both.len() && #[trigger] both[i].revokes(key);
            if i < first.len() {
                assert(first[i].revokes(key));
            } else {
                assert(second[i - first.len()].revokes(key));
            }
        }
    }
    assert(revoked_keys(both) =~= revoked_keys(first).union(revoked_keys(second)));
}

/// A larger set of revoked certificates never lets a chain pass that a smaller one stops.
pub proof fn law_more_revocations_never_clear_a_chain(
    smaller: Set<CertKey>,
    larger: Set<CertKey>,
    chain: Seq<CertKey>,
)
    requires
        smaller.subset_of(larger),
        chain_revoked(smaller, chain),
    ensures
        chain_revoked(larger, chain),
{
    let k = choose|k: int| 0 <= k < chain.len() && #[trigger] smaller.contains(chain[k]);
    assert(larger.contains(chain[k]));
}

/// One revoked certificate at any place, leaf or issuing CA, revokes the chain: a chain joined of
/// two is revoked just when one of the two is, a chain of one certificate just when that one is,
/// and an empty chain never.
pub proof fn law_any_certificate_revokes_the_chain(
    revoked: Set<CertKey>,
    first: Seq<CertKey>,
    second: Seq<CertKey>,
)
    ensures
        chain_revoked(revoked, first + second) == (chain_revoked(revoked, first) || chain_revoked(
            revoked,
            second,
        )),
        first.len() == 1 ==> chain_revoked(revoked, first) == revoked.contains(first[0]),
        first.len() == 0 ==> !chain_revoked(revoked, first),
{
    let both = first + second;
    if chain_revoked(revoked, first) {
        let k = choose|k: int| 0 <= k < first.len() && #[trigger] revoked.contains(first[k]);
        assert(revoked.contains(both[k]));
    }
    if chain_revoked(revoked, second) {
        let k = choose|k: int| 0 <= k < second.len() && #[trigger] revoked.contains(second[k]);
        assert(revoked.contains(both[first.len() + k]));
    }
    if chain_revoked(revoked, both) {
        let k = choose|k: int| 0 <= k < both.len() && #[trigger] revoked.contains(both[k]);
        if k < first.len() {
            assert(revoked.contains(first[k]));
        } else {
            assert(revoked.contains(second[k - first.len()]));
        }
    }
    if first.len() == 1 && revoked.contains(first[0]) {
        assert(chain_revoked(revoked, first));
    }
}

} // verus!
