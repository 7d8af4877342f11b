use rpatchur::cancel::{request_pack_cancel, reset_pack_cancel, PackCancel};
use rpatchur::digest::{eq_ignore_ascii_case, may_read_on, to_hex, FileHasher, HASH_LIMIT};

const ABC: &str = "ba7816bf8f01cfea414140de5dae2223b00361a396177a9cb410ff61f20015ad";

#[test]
fn digest_of_abc() {
    let mut hasher = FileHasher::new();
    assert!(hasher.absorb(b"abcd", 3));
    assert!(!hasher.absorb(b"abcd", 0));
    assert_eq!(hasher.length(), 3);
    assert_eq!(hasher.finish(), ABC);
}

#[test]
fn digest_of_nothing() {
    let hasher = FileHasher::new();
    assert_eq!(hasher.length(), 0);
    assert_eq!(
        hasher.finish(),
        "e3b0c44298fc1c149afbf4c8996fb92427ae41e4649b934ca495991b7852b855"
    );
}

#[test]
fn digest_does_not_depend_on_the_pieces() {
    let mut hasher = FileHasher::new();
    assert!(hasher.absorb(b"a...", 1));
    assert!(hasher.absorb(b"bc", 2));
    assert_eq!(hasher.finish(), ABC);
}

#[test]
fn digest_of_more_than_one_block() {
    let data = [b'a'; 1000];
    let mut hasher = FileHasher::new();
    let mut rounds = 0;
    while rounds < 1000 {
        assert!(hasher.absorb(&data, data.len()));
        rounds += 1;
    }
    assert_eq!(hasher.length(), 1_000_000);
    assert!(hasher.length() < HASH_LIMIT);
    assert_eq!(
        hasher.finish(),
        "cdc76e5c9914fb9281a1c7e284d73e67f1809a48a497200e046d39ccc7112cd0"
    );
}

#[test]
fn hexadecimal_is_lower_case_and_keeps_zeros() {
    assert_eq!(to_hex(&vec![0x00, 0x0f, 0xa0, 0xff]), "000fa0ff");
    assert_eq!(to_hex(&vec![]), "");
}

#[test]
fn digests_compare_without_case() {
    assert!(eq_ignore_ascii_case("AbCdEf09", "aBcDeF09"));
    assert!(eq_ignore_ascii_case("", ""));
    assert!(!eq_ignore_ascii_case("ab", "abc"));
    assert!(!eq_ignore_ascii_case("ab", "ac"));
    // Only ASCII letters have a case here.
    assert!(!eq_ignore_ascii_case("É", "é"));
    assert!(!eq_ignore_ascii_case("@", "`"));
    assert!(!eq_ignore_ascii_case("[", "{"));
}

#[test]
fn verification_stops_when_cancelled() {
    let mut cancel = PackCancel { requested: false };
    assert_eq!(may_read_on(&cancel), Ok(()));
    request_pack_cancel(&mut cancel);
    assert!(cancel.requested);
    assert_eq!(may_read_on(&cancel), Err("verification cancelled".to_string()));
    reset_pack_cancel(&mut cancel);
    assert!(!cancel.requested);
    assert_eq!(may_read_on(&cancel), Ok(()));
}
