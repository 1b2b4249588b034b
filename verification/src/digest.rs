//! Release asset digests of the form `sha256:<hex>` and the checks made
//! against the SHA-256 of a file on disk.

use vstd::prelude::*;
use crate::text::{
    chars_of, eq_ignore_ascii_case, err_view, ranges_equal, starts_with, str_eq_ignore_ascii_case,
    trim, trim_bounds,
};

verus! {

/// The prefix of a GitHub asset digest that names SHA-256.
pub const SHA256_PREFIX: &'static str = "sha256:";

pub const MSG_DIGEST_MISSING: &'static str = "该版本缺少校验信息，已中止更新";

pub const MSG_DIGEST_MISMATCH: &'static str = "文件校验失败，已中止更新";

/// The hash that an asset digest carries: the trimmed digest must start with
/// `sha256:`, and what follows, trimmed, must not be empty.
pub open spec fn spec_digest_hash(digest: Seq<char>) -> Option<Seq<char>> {
    let t = trim(digest);
    if starts_with(t, SHA256_PREFIX@) {
        let h = trim(t.skip(SHA256_PREFIX@.len() as int));
        if h.len() > 0 {
            Some(h)
        } else {
            None
        }
    } else {
        None
    }
}

/// The verdict on a downloaded file whose SHA-256 is `actual`.
pub open spec fn spec_verify_digest(digest: Seq<char>, actual: Seq<char>) -> Result<(), Seq<char>> {
    match spec_digest_hash(digest) {
        None => Err(MSG_DIGEST_MISSING@),
        Some(h) => if eq_ignore_ascii_case(actual, h) {
            Ok(())
        } else {
            Err(MSG_DIGEST_MISMATCH@)
        },
    }
}

/// Whether a local file whose SHA-256 computation gave `actual` differs from
/// the release asset: only a successfully computed hash that disagrees with a
/// present digest counts.
pub open spec fn spec_digest_mismatch(digest: Seq<char>, actual: Option<Seq<char>>) -> bool {
    match (spec_digest_hash(digest), actual) {
        (Some(h), Some(a)) => !eq_ignore_ascii_case(a, h),
        _ => false,
    }
}

/// The hash carried by `asset_digest`, if it is a non-empty `sha256:` digest.
pub fn digest_hash(asset_digest: &str) -> (r: Option<&str>)
    ensures
        match r {
            Some(h) => spec_digest_hash(asset_digest@) == Some(h@),
            None => spec_digest_hash(asset_digest@) is None,
        },
{
    let v = chars_of(asset_digest);
    assert(v@.subrange(0, v.len() as int) =~= v@);
    let (a, b) = trim_bounds(&v, 0, v.len());
    let ghost t = v@.subrange(a as int, b as int);
    let p = chars_of(SHA256_PREFIX);
    let plen = p.len();
    if b - a < plen {
        return None;
    }
    assert(p@.subrange(0, plen as int) =~= p@);
    if !ranges_equal(&v, a, a + plen, &p, 0, plen, false) {
        assert(t.take(plen as int) =~= v@.subrange(a as int, a + plen));
        return None;
    }
    assert(t.take(plen as int) =~= v@.subrange(a as int, a + plen));
    let (c, d) = trim_bounds(&v, a + plen, b);
    assert(t.skip(plen as int) =~= v@.subrange(a + plen, b as int));
    if c == d {
        return None;
    }
    Some(asset_digest.substring_char(c, d))
}

/// The hash that a download must match, or the error that stops the update
/// when the release gives none.
pub fn expected_digest(asset_digest: &str) -> (r: Result<&str, String>)
    ensures
        match r {
            Ok(h) => spec_digest_hash(asset_digest@) == Some(h@),
            Err(e) => spec_digest_hash(asset_digest@) is None && e@ == MSG_DIGEST_MISSING@,
        },
{
    match digest_hash(asset_digest) {
        Some(h) => Ok(h),
        None => Err(String::from_str(MSG_DIGEST_MISSING)),
    }
}

/// Checks the SHA-256 `actual_sha256` of a downloaded file against the
/// release's `asset_digest`, ignoring ASCII case.
pub fn verify_digest(asset_digest: &str, actual_sha256: &str) -> (r: Result<(), String>)
    ensures
        err_view(r) == spec_verify_digest(asset_digest@, actual_sha256@),
{
    let expected = expected_digest(asset_digest)?;
    if str_eq_ignore_ascii_case(actual_sha256, expected) {
        Ok(())
    } else {
        Err(String::from_str(MSG_DIGEST_MISMATCH))
    }
}

/// Whether the running executable, whose SHA-256 computation gave
/// `actual_sha256`, is out of sync with the release asset.
pub fn digest_mismatch(asset_digest: &str, actual_sha256: Option<&str>) -> (r: bool)
    ensures
        r == spec_digest_mismatch(
            asset_digest@,
            match actual_sha256 {
                Some(a) => Some(a@),
                None => None,
            },
        ),
{
    match (digest_hash(asset_digest), actual_sha256) {
        (Some(h), Some(a)) => !str_eq_ignore_ascii_case(a, h),
        _ => false,
    }
}

} // verus!
