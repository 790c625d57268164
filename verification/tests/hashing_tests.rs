use credstore::hashing::hash_password;
use credstore::hashing::salt_from_bytes;

#[test]
fn salt_from_bytes_follows_the_documented_ladder() {
    let bytes = vec![0u8, 1, 2, 27, 28, 53, 54, 63, 64, 191, 192, 255];
    let out = salt_from_bytes(&bytes);
    assert_eq!(
        out,
        vec![b'.', b'/', b'A', b'Z', b'a', b'z', b'0', b'9', b'.', b'9']
    );
}

#[test]
fn hash_has_the_bcrypt_shape() {
    let hash = hash_password("s3cret").unwrap();
    assert_eq!(hash.len(), 60);
    assert!(hash.starts_with("$2b$10$"));
    assert_ne!(hash, "s3cret");
}

#[test]
fn hash_matches_its_plaintext_and_no_other() {
    let hash = hash_password("s3cret").unwrap();
    assert!(pwhash::bcrypt::verify("s3cret", &hash));
    assert!(!pwhash::bcrypt::verify("not-the-password", &hash));
}

#[test]
fn two_hashes_of_one_password_use_different_salts() {
    let first = hash_password("same").unwrap();
    let second = hash_password("same").unwrap();
    assert_ne!(first, second);
}
