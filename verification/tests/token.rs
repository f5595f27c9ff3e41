use registry_tokens::token::{HashedToken, NewSecureToken};
use sha2::Digest;

#[test]
fn test_generated_and_parse() {
    let token = NewSecureToken::generate();
    assert!(token.plaintext().starts_with("cio"));
    assert_eq!(
        token.hashed().to_bytes(),
        sha2::Sha256::digest(token.plaintext().as_bytes())
            .as_slice()
            .to_vec()
    );

    let parsed = HashedToken::parse(token.plaintext()).expect("failed to parse back the token");
    assert_eq!(parsed.to_bytes(), token.hashed().to_bytes());
}

#[test]
fn test_parse_no_kind() {
    assert!(HashedToken::parse("nokind").is_none());
}

#[test]
fn generated_plaintext_has_fixed_shape() {
    let token = NewSecureToken::generate();
    let plaintext = token.plaintext();
    assert!(plaintext.starts_with("cio"));
    assert_eq!(plaintext.chars().count(), 3 + 32);
    assert!(plaintext.chars().skip(3).all(|c| c.is_ascii_alphanumeric()));
}

#[test]
fn digest_is_deterministic() {
    let first = HashedToken::hash("cioexample");
    let second = HashedToken::hash("cioexample");
    assert_eq!(first, second);
}

#[test]
fn digests_of_distinct_plaintexts_differ() {
    let corpus = ["cioa", "ciob", "cio", "ciozzzz", "", "nokind", "cioA"];
    for (i, a) in corpus.iter().enumerate() {
        for (j, b) in corpus.iter().enumerate() {
            if i != j {
                assert_ne!(HashedToken::hash(a), HashedToken::hash(b));
            }
        }
    }
}

#[test]
fn digest_matches_published_test_vector() {
    // SHA-256 of "abc", from FIPS 180-2 appendix B.1.
    let expected: Vec<u8> = vec![
        0xba, 0x78, 0x16, 0xbf, 0x8f, 0x01, 0xcf, 0xea, 0x41, 0x41, 0x40, 0xde, 0x5d, 0xae,
        0x22, 0x23, 0xb0, 0x03, 0x61, 0xa3, 0x96, 0x17, 0x7a, 0x9c, 0xb4, 0x10, 0xff, 0x61,
        0xf2, 0x00, 0x15, 0xad,
    ];
    assert_eq!(HashedToken::hash("abc"), expected);
}

#[test]
fn parse_rejects_anything_without_the_prefix() {
    assert!(HashedToken::parse("").is_none());
    assert!(HashedToken::parse("ci").is_none());
    assert!(HashedToken::parse("Cio").is_none());
    assert!(HashedToken::parse("wrong-prefix-abc").is_none());
    assert!(HashedToken::parse("xcioabcdef").is_none());
}

#[test]
fn parse_accepts_the_bare_prefix_and_hashes_the_whole_string() {
    let parsed = HashedToken::parse("cio").expect("the bare prefix is of this class");
    assert_eq!(parsed.to_bytes(), HashedToken::hash("cio"));

    let parsed = HashedToken::parse("ciosecret").expect("prefixed input is of this class");
    assert_eq!(parsed.to_bytes(), HashedToken::hash("ciosecret"));
}

#[test]
fn decode_rejects_wrong_widths() {
    let short = HashedToken::from_bytes(vec![0u8; 31]);
    let err = short.err().expect("31 bytes are not a digest");
    assert_eq!(err.expected, 32);
    assert_eq!(err.actual, 31);

    let long = HashedToken::from_bytes(vec![0u8; 33]);
    let err = long.err().expect("33 bytes are not a digest");
    assert_eq!(err.expected, 32);
    assert_eq!(err.actual, 33);

    let empty = HashedToken::from_bytes(Vec::new());
    assert_eq!(empty.err().expect("no bytes are not a digest").actual, 0);
}

#[test]
fn codec_round_trips_a_stored_digest() {
    let stored = HashedToken::hash("ciostored");
    let decoded = HashedToken::from_bytes(stored.clone()).expect("a digest-wide value decodes");
    assert_eq!(decoded.to_bytes(), stored);
}

#[test]
fn debug_rendering_never_leaks() {
    let token = NewSecureToken::generate();
    let hashed = token.hashed();
    let label = hashed.debug_label();
    // The rendering is one fixed label: nothing of the digest or of the
    // plaintext can appear in it.
    assert_eq!(label, "HashedToken");
    assert!(!label.contains(token.plaintext()));
}

#[test]
fn end_to_end_issue_store_verify() {
    // Issuance: generate, persist only the hashed form.
    let token = NewSecureToken::generate();
    let stored = token.hashed().to_bytes();

    // Verification: the owner presents the plaintext; recognition and
    // hashing yield the digest the store will look up.
    let presented = HashedToken::parse(token.plaintext()).expect("the issued secret is recognised");
    assert_eq!(presented.to_bytes(), stored);

    // A foreign credential never reaches hashing or the store.
    assert!(HashedToken::parse("wrong-prefix-abc").is_none());
}

#[test]
fn two_generated_secrets_differ() {
    let first = NewSecureToken::generate();
    let second = NewSecureToken::generate();
    assert_ne!(first.plaintext(), second.plaintext());
    assert_ne!(first.hashed().to_bytes(), second.hashed().to_bytes());
}
