use credstore::token::generate_token;
use credstore::token::token_from_bytes;

#[test]
fn token_from_bytes_follows_the_documented_ladder() {
    let bytes = vec![0u8, 25, 26, 51, 52, 61, 62, 247, 248, 255];
    let out = token_from_bytes(&bytes);
    assert_eq!(out, vec![b'a', b'z', b'A', b'Z', b'0', b'9', b'a', b'9']);
}

#[test]
fn token_from_bytes_of_nothing_is_nothing() {
    let out = token_from_bytes(&Vec::new());
    assert!(out.is_empty());
}

#[test]
fn generated_token_is_alphanumeric_of_fixed_length() {
    let token = generate_token().unwrap();
    assert_eq!(token.len(), 30);
    assert!(token.chars().all(|c| c.is_ascii_alphanumeric()));
}

#[test]
fn two_generated_tokens_differ() {
    let first = generate_token().unwrap();
    let second = generate_token().unwrap();
    assert_ne!(first, second);
}
