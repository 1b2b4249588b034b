use singboard::digest::{
    digest_hash, digest_mismatch, expected_digest, verify_digest, MSG_DIGEST_MISMATCH,
    MSG_DIGEST_MISSING,
};

#[test]
fn rejects_asset_without_digest() {
    // Without a digest the update stops whatever hash the downloaded file has.
    let file_sha256 = "6e7d0ae0b2ad5e6fc4bd5d3b36e1a0d1f2b2c0c8c0f8bd4e4c4b6c3a7f1e5d2a";
    assert!(verify_digest("", file_sha256).is_err());
}

#[test]
fn digest_hash_strips_prefix_and_whitespace() {
    assert_eq!(digest_hash("sha256:abc"), Some("abc"));
    assert_eq!(digest_hash("  sha256:  ABC  "), Some("ABC"));
    assert_eq!(digest_hash("sha256:"), None);
    assert_eq!(digest_hash("sha256:   "), None);
    assert_eq!(digest_hash("SHA256:abc"), None);
    assert_eq!(digest_hash("md5:abc"), None);
    assert_eq!(digest_hash(""), None);
}

#[test]
fn verify_digest_ignores_ascii_case() {
    assert_eq!(verify_digest("sha256:ABCDEF", "abcdef"), Ok(()));
    assert_eq!(verify_digest("sha256:abcdef", "abcdee"), Err(MSG_DIGEST_MISMATCH.to_string()));
    assert_eq!(verify_digest("none", "abcdef"), Err(MSG_DIGEST_MISSING.to_string()));
}

#[test]
fn expected_digest_reports_missing_digest() {
    assert_eq!(expected_digest("sha256:00ff"), Ok("00ff"));
    assert_eq!(expected_digest("sha256: "), Err(MSG_DIGEST_MISSING.to_string()));
}

#[test]
fn local_mismatch_needs_a_digest_and_a_hash() {
    assert!(!digest_mismatch("", Some("abc")));
    assert!(!digest_mismatch("sha256:abc", None));
    assert!(!digest_mismatch("sha256:ABC", Some("abc")));
    assert!(digest_mismatch("sha256:abc", Some("abd")));
}
