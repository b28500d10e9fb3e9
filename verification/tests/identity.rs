use ride_sharing::Identity;

#[test]
fn unassigned_sentinel_is_recognized() {
    let sentinel = Identity::unassigned();
    assert!(sentinel.is_unassigned());
    assert_eq!(sentinel, Identity { bytes: [0; 32] });
}

#[test]
fn nonzero_identity_is_not_unassigned() {
    let party = Identity { bytes: [42; 32] };
    assert!(!party.is_unassigned());

    // A single nonzero byte is enough to be a real party.
    let mut bytes = [0u8; 32];
    bytes[31] = 1;
    let edge = Identity { bytes };
    assert!(!edge.is_unassigned());
}

#[test]
fn identity_equality_compares_all_bytes() {
    let a = Identity { bytes: [5; 32] };
    let b = Identity { bytes: [5; 32] };
    assert_eq!(a, b);

    let mut bytes = [5u8; 32];
    bytes[31] = 6;
    let c = Identity { bytes };
    assert_ne!(a, c);

    let mut first = [5u8; 32];
    first[0] = 6;
    let d = Identity { bytes: first };
    assert_ne!(a, d);
}
