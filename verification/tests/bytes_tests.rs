use solharvest::bytes::{bytes_eq, contains_bytes, ends_with_bytes, strip_suffix_bytes, subvec};

#[test]
fn suffix_is_recognised_at_the_end_only() {
    assert!(ends_with_bytes(&b"Token.sol".to_vec(), &b".sol".to_vec()));
    assert!(!ends_with_bytes(&b"Token.sol.bak".to_vec(), &b".sol".to_vec()));
    assert!(!ends_with_bytes(&b"ol".to_vec(), &b".sol".to_vec()));
    assert!(ends_with_bytes(&b"anything".to_vec(), &b"".to_vec()));
}

#[test]
fn substring_is_found_anywhere() {
    assert!(contains_bytes(&b"MyTestToken".to_vec(), &b"Test".to_vec()));
    assert!(contains_bytes(&b"Test".to_vec(), &b"Test".to_vec()));
    assert!(!contains_bytes(&b"Tes".to_vec(), &b"Test".to_vec()));
    assert!(!contains_bytes(&b"testing".to_vec(), &b"Test".to_vec()));
}

#[test]
fn stripping_removes_exactly_the_suffix() {
    assert_eq!(
        strip_suffix_bytes(&b"Token.sol".to_vec(), &b".sol".to_vec()),
        Some(b"Token".to_vec())
    );
    assert_eq!(strip_suffix_bytes(&b"Token.txt".to_vec(), &b".sol".to_vec()), None);
}

#[test]
fn slicing_and_equality_behave_bytewise() {
    let v = b"abcdef".to_vec();
    assert_eq!(subvec(&v, 2, 5), b"cde".to_vec());
    assert!(bytes_eq(&v, &b"abcdef".to_vec()));
    assert!(!bytes_eq(&v, &b"abcdEf".to_vec()));
}
