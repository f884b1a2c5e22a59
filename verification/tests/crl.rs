use ztunnel_h2::crl::{CertId, Crl, CrlSet};

fn id(issuer: &[u8], serial: &[u8]) -> CertId {
    CertId { issuer: issuer.to_vec(), serial: serial.to_vec() }
}

fn crl(issuer: &[u8], serials: &[&[u8]]) -> Crl {
    Crl { issuer: issuer.to_vec(), revoked: serials.iter().map(|s| s.to_vec()).collect() }
}

#[test]
fn leaf_in_its_issuers_crl_is_revoked() {
    let set = CrlSet { crls: vec![crl(b"root", &[&[7], &[1, 2]])] };
    assert!(set.any_revoked(&vec![id(b"root", &[1, 2])]));
    assert!(!set.any_revoked(&vec![id(b"root", &[1, 3])]));
    assert!(!set.any_revoked(&vec![id(b"root", &[1])]));
}

#[test]
fn serial_of_another_issuer_is_not_revoked() {
    let set = CrlSet { crls: vec![crl(b"a", &[&[7]])] };
    assert!(!set.any_revoked(&vec![id(b"b", &[7])]));
    assert!(!set.revokes(&id(b"b", &[7])));
    assert!(set.revokes(&id(b"a", &[7])));
}

#[test]
fn revoked_issuing_ca_revokes_the_chain() {
    let set = CrlSet { crls: vec![crl(b"root", &[&[9]])] };
    let chain = vec![id(b"ia", &[1]), id(b"root", &[9])];
    assert!(set.any_revoked(&chain));
    assert!(!set.any_revoked(&vec![id(b"ia", &[1]), id(b"root", &[8])]));
}

#[test]
fn crls_of_one_issuer_add_up() {
    let set = CrlSet { crls: vec![crl(b"root", &[&[1]]), crl(b"root", &[&[2]]), crl(b"x", &[])] };
    assert!(set.any_revoked(&vec![id(b"root", &[1])]));
    assert!(set.any_revoked(&vec![id(b"root", &[2])]));
    assert!(!set.any_revoked(&vec![id(b"root", &[3])]));
}

#[test]
fn adding_crls_never_clears_a_chain() {
    let chain = vec![id(b"root", &[1])];
    let mut set = CrlSet { crls: vec![crl(b"root", &[&[1]])] };
    assert!(set.any_revoked(&chain));
    set.crls.push(crl(b"root", &[&[2]]));
    assert!(set.any_revoked(&chain));
    set.crls.insert(0, crl(b"root", &[&[5]]));
    assert!(set.any_revoked(&chain));
}

#[test]
fn nothing_is_revoked_without_crls_or_without_a_chain() {
    let empty = CrlSet { crls: vec![] };
    assert!(!empty.any_revoked(&vec![id(b"root", &[1])]));
    let set = CrlSet { crls: vec![crl(b"root", &[&[1]])] };
    assert!(!set.any_revoked(&vec![]));
}

#[test]
fn empty_serial_and_issuer_are_compared_like_others() {
    let set = CrlSet { crls: vec![crl(b"", &[&[]])] };
    assert!(set.any_revoked(&vec![id(b"", &[])]));
    assert!(!set.any_revoked(&vec![id(b"", &[0])]));
    assert!(!set.crls[0].lists(&id(&[0], &[])));
    assert!(set.crls[0].lists(&id(&[], &[])));
}
