//! Release version numbers: parsing `major.minor[.patch]` tags and deciding
//! whether a release is newer than the running build.

use vstd::prelude::*;
use crate::text::{
    all_chars, chars_of, class_pred, decimal, digit_char, drop_leading, drop_trailing, in_class,
    is_ascii_digit, is_whitespace, leading, lemma_drop_leading_at, ranges_equal, run_end, trim,
    trim_bounds, CharClass,
};

verus! {

/// The value of the decimal digit `c`.
pub open spec fn digit_of(c: char) -> nat {
    ((c as u32) - ('0' as u32)) as nat
}

/// The number that the decimal digits `s` spell (0 for no digits).
pub open spec fn digits_value(s: Seq<char>) -> nat
    decreases s.len(),
{
    if s.len() == 0 {
        0
    } else {
        digits_value(s.drop_last()) * 10 + digit_of(s.last())
    }
}

/// `u64::from_str`: an optional `'+'`, then one or more ASCII digits whose
/// value fits in a `u64`.
pub open spec fn parse_u64(s: Seq<char>) -> Option<u64> {
    let d = if s.len() > 0 && s[0] == '+' {
        s.drop_first()
    } else {
        s
    };
    if d.len() > 0 && all_chars(d, class_pred(CharClass::AsciiDigit)) && digits_value(d)
        <= u64::MAX {
        Some(digits_value(d) as u64)
    } else {
        None
    }
}

/// The text of a version tag once surrounding whitespace and any leading
/// `v`/`V` letters are removed.
pub open spec fn version_text(s: Seq<char>) -> Seq<char> {
    drop_leading(trim(s), class_pred(CharClass::VersionPrefix))
}

/// The part of `s` before its first `'.'`.
pub open spec fn dot_field(s: Seq<char>) -> Seq<char> {
    leading(s, class_pred(CharClass::NotDot))
}

/// The part of `s` after its first `'.'`, if `s` has one.
pub open spec fn after_dot(s: Seq<char>) -> Option<Seq<char>> {
    let f = dot_field(s);
    if f.len() < s.len() {
        Some(s.skip(f.len() + 1int))
    } else {
        None
    }
}

/// The version triple that a tag such as `v3.2.4-beta1` names: the first two
/// dot-separated fields are the major and minor numbers, the third field
/// (absent: `0`) contributes its leading digits as the patch number, and
/// anything after the third field is ignored.
pub open spec fn spec_parse_version(s: Seq<char>) -> Option<(u64, u64, u64)> {
    let t = version_text(s);
    match after_dot(t) {
        None => None,
        Some(r1) => {
            let patch_raw = match after_dot(r1) {
                Some(r2) => dot_field(r2),
                None => seq!['0'],
            };
            match (
                parse_u64(dot_field(t)),
                parse_u64(dot_field(r1)),
                parse_u64(leading(patch_raw, class_pred(CharClass::AsciiDigit))),
            ) {
                (Some(major), Some(minor), Some(patch)) => Some((major, minor, patch)),
                _ => None,
            }
        },
    }
}

/// `a` is greater than `b` in the order of (major, minor, patch).
pub open spec fn version_gt(a: (u64, u64, u64), b: (u64, u64, u64)) -> bool {
    ||| a.0 > b.0
    ||| (a.0 == b.0 && a.1 > b.1)
    ||| (a.0 == b.0 && a.1 == b.1 && a.2 > b.2)
}

/// Whether the release tag `latest` is newer than the running version
/// `current`: by number when both parse, otherwise whenever the two texts
/// differ (the `v` prefix is removed from `latest` only).
pub open spec fn spec_is_newer(latest: Seq<char>, current: Seq<char>) -> bool {
    match (spec_parse_version(latest), spec_parse_version(current)) {
        (Some(l), Some(c)) => version_gt(l, c),
        _ => version_text(latest) != trim(current),
    }
}

/// `latest` and `current` name the same version: both parse to the same
/// numbers, or neither parses and their texts agree as the fallback of
/// `spec_is_newer` compares them.
pub open spec fn spec_same_version(latest: Seq<char>, current: Seq<char>) -> bool {
    match (spec_parse_version(latest), spec_parse_version(current)) {
        (Some(l), Some(c)) => l == c,
        (None, None) => version_text(latest) == trim(current),
        _ => false,
    }
}

proof fn lemma_digits_prefix_le(s: Seq<char>, i: int)
    requires
        0 <= i <= s.len(),
        all_chars(s, class_pred(CharClass::AsciiDigit)),
    ensures
        digits_value(s.take(i)) <= digits_value(s),
    decreases s.len(),
{
    if i == s.len() {
        assert(s.take(i) =~= s);
    } else {
        let t = s.drop_last();
        assert(all_chars(t, class_pred(CharClass::AsciiDigit))) by {
            assert forall|j: int| 0 <= j < t.len() implies #[trigger] class_pred(
                CharClass::AsciiDigit,
            )(t[j]) by {
                assert(t[j] == s[j]);
            }
        }
        lemma_digits_prefix_le(t, i);
        assert(t.take(i) =~= s.take(i));
    }
}

/// `u64::from_str` applied to `v[from..to]`.
pub fn parse_u64_range(v: &Vec<char>, from: usize, to: usize) -> (r: Option<u64>)
    requires
        from <= to <= v.len(),
    ensures
        r == parse_u64(v@.subrange(from as int, to as int)),
{
    let ghost s = v@.subrange(from as int, to as int);
    let mut start = from;
    if from < to && v[from] == '+' {
        start = from + 1;
    }
    let ghost d = v@.subrange(start as int, to as int);
    assert(d =~= (if s.len() > 0 && s[0] == '+' {
        s.drop_first()
    } else {
        s
    }));
    if start == to {
        return None;
    }
    let mut val: u64 = 0;
    let mut i = start;
    assert(d.take(0) =~= Seq::<char>::empty());
    while i < to
        invariant
            from <= start <= i <= to <= v.len(),
            start < to,
            d == v@.subrange(start as int, to as int),
            d =~= (if s.len() > 0 && s[0] == '+' {
                s.drop_first()
            } else {
                s
            }),
            s == v@.subrange(from as int, to as int),
            forall|j: int| 0 <= j < i - start ==> is_ascii_digit(#[trigger] d[j]),
            val == digits_value(d.take(i - start)),
        decreases to - i,
    {
        let c = v[i];
        assert(d[i - start] == c);
        if !('0' <= c && c <= '9') {
            assert(!class_pred(CharClass::AsciiDigit)(d[i - start]));
            return None;
        }
        let dgt: u64 = ((c as u32) - ('0' as u32)) as u64;
        proof {
            assert(d.take(i - start + 1).drop_last() =~= d.take(i - start));
            assert(d.take(i - start + 1).last() == c);
        }
        let next = match val.checked_mul(10) {
            Some(m) => m.checked_add(dgt),
            None => None,
        };
        match next {
            Some(n) => {
                val = n;
            },
            None => {
                proof {
                    assert(digits_value(d.take(i - start + 1)) > u64::MAX);
                    if all_chars(d, class_pred(CharClass::AsciiDigit)) {
                        lemma_digits_prefix_le(d, i - start + 1);
                    }
                }
                return None;
            },
        }
        i = i + 1;
    }
    proof {
        assert(d.take(i - start) =~= d);
        assert forall|j: int| 0 <= j < d.len() implies #[trigger] class_pred(
            CharClass::AsciiDigit,
        )(d[j]) by {}
    }
    Some(val)
}

/// Parses a version tag such as `3.2.4`, `v3.2` or ` 3.2.4-beta1 ` into
/// (major, minor, patch); `None` when the major or minor number is missing or
/// is not a `u64`, or when a third field does not start with digits.
pub fn parse_version(text: &str) -> (r: Option<(u64, u64, u64)>)
    ensures
        r == spec_parse_version(text@),
{
    let v = chars_of(text);
    let n = v.len();
    assert(v@.subrange(0, n as int) =~= v@);
    let (a, b) = trim_bounds(&v, 0, n);
    let start = run_end(&v, a, b, CharClass::VersionPrefix);
    let ghost t = v@.subrange(start as int, b as int);
    assert(t == version_text(text@));

    let e1 = run_end(&v, start, b, CharClass::NotDot);
    assert(dot_field(t) == v@.subrange(start as int, e1 as int));
    if e1 == b {
        assert(after_dot(t) is None);
        return None;
    }
    let ghost r1 = v@.subrange(e1 + 1, b as int);
    assert(after_dot(t) == Some(r1)) by {
        assert(t.skip(e1 - start + 1) =~= r1);
    }
    let major = match parse_u64_range(&v, start, e1) {
        Some(x) => x,
        None => {
            return None;
        },
    };
    let e2 = run_end(&v, e1 + 1, b, CharClass::NotDot);
    assert(dot_field(r1) == v@.subrange(e1 + 1, e2 as int));
    let minor = match parse_u64_range(&v, e1 + 1, e2) {
        Some(x) => x,
        None => {
            return None;
        },
    };
    if e2 == b {
        assert(after_dot(r1) is None);
        proof {
            let z = seq!['0'];
            let p = class_pred(CharClass::AsciiDigit);
            assert(z.drop_first() =~= Seq::<char>::empty());
            assert(leading(z.drop_first(), p) =~= Seq::<char>::empty());
            assert(leading(z, p) =~= z);
            assert(z.drop_last() =~= Seq::<char>::empty());
            assert(z.last() == '0');
            assert(digits_value(z.drop_last()) == 0);
            assert(digit_of('0') == 0);
            assert(digits_value(z) == 0);
            assert(parse_u64(z) == Some(0u64));
        }
        return Some((major, minor, 0));
    }
    let ghost r2 = v@.subrange(e2 + 1, b as int);
    assert(after_dot(r1) == Some(r2)) by {
        assert(r1.skip(e2 - e1) =~= r2);
    }
    let e3 = run_end(&v, e2 + 1, b, CharClass::NotDot);
    assert(dot_field(r2) == v@.subrange(e2 + 1, e3 as int));
    let d = run_end(&v, e2 + 1, e3, CharClass::AsciiDigit);
    match parse_u64_range(&v, e2 + 1, d) {
        Some(patch) => Some((major, minor, patch)),
        None => None,
    }
}

/// Whether the release tag `latest` is newer than the running version
/// `current` (see `spec_is_newer`).
pub fn is_newer(latest: &str, current: &str) -> (r: bool)
    ensures
        r == spec_is_newer(latest@, current@),
{
    let l = parse_version(latest);
    let c = parse_version(current);
    match (l, c) {
        (Some(l), Some(c)) => {
            l.0 > c.0 || (l.0 == c.0 && l.1 > c.1) || (l.0 == c.0 && l.1 == c.1 && l.2 > c.2)
        },
        _ => {
            let v = chars_of(latest);
            assert(v@.subrange(0, v.len() as int) =~= v@);
            let (a, b) = trim_bounds(&v, 0, v.len());
            let s = run_end(&v, a, b, CharClass::VersionPrefix);
            let w = chars_of(current);
            assert(w@.subrange(0, w.len() as int) =~= w@);
            let (x, y) = trim_bounds(&w, 0, w.len());
            !ranges_equal(&v, s, b, &w, x, y, false)
        },
    }
}

/// Whether the release tag `latest` and the running version `current` name
/// the same version (see `spec_same_version`).
pub fn same_version(latest: &str, current: &str) -> (r: bool)
    ensures
        r == spec_same_version(latest@, current@),
{
    let l = parse_version(latest);
    let c = parse_version(current);
    match (l, c) {
        (Some(l), Some(c)) => l.0 == c.0 && l.1 == c.1 && l.2 == c.2,
        (None, None) => {
            let v = chars_of(latest);
            assert(v@.subrange(0, v.len() as int) =~= v@);
            let (a, b) = trim_bounds(&v, 0, v.len());
            let s = run_end(&v, a, b, CharClass::VersionPrefix);
            let w = chars_of(current);
            assert(w@.subrange(0, w.len() as int) =~= w@);
            let (x, y) = trim_bounds(&w, 0, w.len());
            ranges_equal(&v, s, b, &w, x, y, false)
        },
        _ => false,
    }
}

/// The release tag with any leading `v`/`V` letters removed
/// (`str::trim_start_matches(['v', 'V'])`), as shown to the user.
pub fn strip_version_prefix(tag: &str) -> (r: &str)
    ensures
        r@ == drop_leading(tag@, class_pred(CharClass::VersionPrefix)),
{
    let v = chars_of(tag);
    let s = run_end(&v, 0, v.len(), CharClass::VersionPrefix);
    assert(v@.subrange(0, v.len() as int) =~= v@);
    tag.substring_char(s, v.len())
}

// ---------------------------------------------------------------------------
// Laws of the version order.
// ---------------------------------------------------------------------------

/// A version is never newer than itself, unless its tag fails to parse and
/// (after trimming) starts with `v`/`V`: then the fallback compares the tag
/// without its prefix to the tag with it.
pub proof fn law_not_newer_than_itself(s: Seq<char>)
    requires
        spec_parse_version(s) is Some || trim(s).len() == 0 || !in_class(
            CharClass::VersionPrefix,
            trim(s)[0],
        ),
    ensures
        !spec_is_newer(s, s),
{
}

/// A release that names the same version as the running build is never
/// offered as an update.
pub proof fn law_same_version_is_not_newer(latest: Seq<char>, current: Seq<char>)
    requires
        spec_same_version(latest, current),
    ensures
        !spec_is_newer(latest, current),
{
}

/// Of two parsable versions, at most one is newer than the other.
pub proof fn law_newer_is_asymmetric(a: Seq<char>, b: Seq<char>)
    requires
        spec_parse_version(a) is Some,
        spec_parse_version(b) is Some,
    ensures
        !(spec_is_newer(a, b) && spec_is_newer(b, a)),
{
}

/// Among parsable versions, "newer than" is transitive.
pub proof fn law_newer_is_transitive(a: Seq<char>, b: Seq<char>, c: Seq<char>)
    requires
        spec_parse_version(a) is Some,
        spec_parse_version(b) is Some,
        spec_parse_version(c) is Some,
        spec_is_newer(a, b),
        spec_is_newer(b, c),
    ensures
        spec_is_newer(a, c),
{
}

/// Among parsable versions, exactly one of "newer", "older" and "same number"
/// holds.
pub proof fn law_newer_is_total(a: Seq<char>, b: Seq<char>)
    requires
        spec_parse_version(a) is Some,
        spec_parse_version(b) is Some,
    ensures
        spec_is_newer(a, b) || spec_is_newer(b, a) || spec_parse_version(a) == spec_parse_version(
            b,
        ),
{
}

/// Of two versions that parse, the release is newer exactly when its
/// (major, minor, patch) numbers come later in lexicographic order: a larger
/// major number, or the same major and a larger minor, or the same major and
/// minor and a larger patch.
pub proof fn law_newer_is_lexicographic(latest: Seq<char>, current: Seq<char>, l: (u64, u64, u64), c: (
    u64,
    u64,
    u64,
))
    requires
        spec_parse_version(latest) == Some(l),
        spec_parse_version(current) == Some(c),
    ensures
        spec_is_newer(latest, current) <==> (l.0 > c.0 || (l.0 == c.0 && l.1 > c.1) || (l.0 == c.0
            && l.1 == c.1 && l.2 > c.2)),
        l.0 == c.0 && l.1 == c.1 && l.2 > c.2 ==> spec_is_newer(latest, current),
        l.0 == c.0 && l.1 == c.1 && l.2 < c.2 ==> !spec_is_newer(latest, current),
{
}

/// For versions written as `a.b.c` in decimal, the release is newer exactly
/// when its numbers come later in lexicographic order.
pub proof fn law_decimal_newer_is_lexicographic(l: (u64, u64, u64), c: (u64, u64, u64))
    ensures
        spec_is_newer(
            decimal(l.0 as nat) + seq!['.'] + decimal(l.1 as nat) + seq!['.'] + decimal(l.2 as nat),
            decimal(c.0 as nat) + seq!['.'] + decimal(c.1 as nat) + seq!['.'] + decimal(c.2 as nat),
        ) <==> (l.0 > c.0 || (l.0 == c.0 && l.1 > c.1) || (l.0 == c.0 && l.1 == c.1 && l.2 > c.2)),
{
    law_decimal_version_round_trip(l.0, l.1, l.2);
    law_decimal_version_round_trip(c.0, c.1, c.2);
}

proof fn lemma_drop_trailing_append(x: Seq<char>, y: Seq<char>, p: spec_fn(char) -> bool)
    requires
        y.len() > 0,
        !p(y[0]),
    ensures
        drop_trailing(x + y, p) == x + drop_trailing(y, p),
        drop_trailing(y, p).len() > 0,
    decreases y.len(),
{
    let xy = x + y;
    if p(y.last()) {
        if y.len() == 1 {
            assert(y.last() == y[0]);
        }
        assert(xy.last() == y.last());
        assert(xy.drop_last() =~= x + y.drop_last());
        assert(y.drop_last()[0] == y[0]);
        lemma_drop_trailing_append(x, y.drop_last(), p);
    } else {
        assert(xy.last() == y.last());
    }
}

/// A `v` in front of a tag that does not start with whitespace does not
/// change the version it names.
pub proof fn law_v_prefix_is_ignored(s: Seq<char>)
    requires
        s.len() == 0 || !is_whitespace(s[0]),
    ensures
        spec_parse_version(seq!['v'] + s) == spec_parse_version(s),
{
    let ws = class_pred(CharClass::Whitespace);
    let vp = class_pred(CharClass::VersionPrefix);
    let vs = seq!['v'] + s;
    assert(vs[0] == 'v');
    assert(drop_leading(vs, ws) == vs);
    if s.len() == 0 {
        assert(vs =~= seq!['v']);
        assert(vs.drop_last() =~= Seq::<char>::empty());
        assert(drop_trailing(vs, ws) == vs);
        assert(vs.drop_first() =~= s);
        assert(drop_leading(s, vp) == s);
        assert(version_text(vs) =~= version_text(s));
    } else {
        assert(drop_leading(s, ws) == s);
        lemma_drop_trailing_append(seq!['v'], s, ws);
        let ds = drop_trailing(s, ws);
        assert(trim(vs) == seq!['v'] + ds);
        assert((seq!['v'] + ds).drop_first() =~= ds);
        assert(version_text(vs) == drop_leading(ds, vp));
    }
}


proof fn lemma_decimal_digits(n: nat)
    ensures
        decimal(n).len() > 0,
        forall|i: int| 0 <= i < decimal(n).len() ==> is_ascii_digit(#[trigger] decimal(n)[i]),
        digits_value(decimal(n)) == n,
    decreases n,
{
    if n < 10 {
        let s = decimal(n);
        assert(s == seq![digit_char(n)]);
        assert(s.drop_last() =~= Seq::<char>::empty());
        assert(digits_value(s.drop_last()) == 0);
        assert(s.last() == digit_char(n));
        assert(digit_of(digit_char(n)) == n);
        assert(digits_value(s) == digits_value(s.drop_last()) * 10 + digit_of(s.last()));
    } else {
        lemma_decimal_digits(n / 10);
        let t = decimal(n / 10);
        let d = digit_char(n % 10);
        let s = decimal(n);
        assert(s == t.push(d));
        assert(s.drop_last() =~= t);
        assert(digit_of(d) == n % 10);
        assert(forall|i: int| 0 <= i < s.len() ==> is_ascii_digit(#[trigger] s[i])) by {
            assert forall|i: int| 0 <= i < s.len() implies is_ascii_digit(#[trigger] s[i]) by {
                if i < t.len() {
                    assert(s[i] == t[i]);
                }
            }
        }
        assert(s.last() == d);
        assert(digits_value(s) == digits_value(s.drop_last()) * 10 + digit_of(s.last()));
        assert((n / 10) * 10 + n % 10 == n) by (nonlinear_arith);
    }
}

proof fn lemma_parse_decimal(n: u64)
    ensures
        parse_u64(decimal(n as nat)) == Some(n),
        forall|i: int|
            0 <= i < decimal(n as nat).len() ==> #[trigger] decimal(n as nat)[i] != '.'
                && !is_whitespace(decimal(n as nat)[i]) && decimal(n as nat)[i] != 'v'
                && decimal(n as nat)[i] != 'V',
{
    lemma_decimal_digits(n as nat);
    let s = decimal(n as nat);
    assert(s[0] != '+');
    assert(all_chars(s, class_pred(CharClass::AsciiDigit)));
}

/// `x + "." + y`, where `x` has no dot, splits at that dot.
proof fn lemma_split_at_dot(x: Seq<char>, y: Seq<char>)
    requires
        forall|i: int| 0 <= i < x.len() ==> #[trigger] x[i] != '.',
    ensures
        dot_field(x + seq!['.'] + y) == x,
        after_dot(x + seq!['.'] + y) == Some(y),
{
    let s = x + seq!['.'] + y;
    let p = class_pred(CharClass::NotDot);
    assert forall|j: int| 0 <= j < x.len() implies #[trigger] p(s[j]) by {
        assert(s[j] == x[j]);
    }
    assert(s[x.len() as int] == '.');
    lemma_drop_leading_at(s, p, x.len() as int);
    assert(s.take(x.len() as int) =~= x);
    assert(s.skip(x.len() + 1int) =~= y);
}

/// A text without dots is its own first field and has nothing after a dot.
proof fn lemma_no_dot(x: Seq<char>)
    requires
        forall|i: int| 0 <= i < x.len() ==> #[trigger] x[i] != '.',
    ensures
        dot_field(x) == x,
        after_dot(x) is None,
{
    let p = class_pred(CharClass::NotDot);
    assert forall|j: int| 0 <= j < x.len() implies #[trigger] p(x[j]) by {}
    lemma_drop_leading_at(x, p, x.len() as int);
    assert(x.take(x.len() as int) =~= x);
}

/// A text that neither starts nor ends with whitespace nor starts with a
/// version letter is its own version text.
proof fn lemma_plain_version_text(s: Seq<char>)
    requires
        s.len() > 0,
        !is_whitespace(s[0]),
        !is_whitespace(s.last()),
        s[0] != 'v' && s[0] != 'V',
    ensures
        version_text(s) == s,
{
    assert(drop_leading(s, class_pred(CharClass::Whitespace)) == s);
    assert(drop_trailing(s, class_pred(CharClass::Whitespace)) == s);
    assert(drop_leading(s, class_pred(CharClass::VersionPrefix)) == s);
}

/// The decimal text `a.b.c` of three numbers parses back to them, with or
/// without a `v` in front, and `a.b` parses to `(a, b, 0)`.
pub proof fn law_decimal_version_round_trip(a: u64, b: u64, c: u64)
    ensures
        spec_parse_version(decimal(a as nat) + seq!['.'] + decimal(b as nat) + seq!['.'] + decimal(
            c as nat,
        )) == Some((a, b, c)),
        spec_parse_version(seq!['v'] + (decimal(a as nat) + seq!['.'] + decimal(b as nat)
            + seq!['.'] + decimal(c as nat))) == Some((a, b, c)),
        spec_parse_version(decimal(a as nat) + seq!['.'] + decimal(b as nat)) == Some((a, b, 0u64)),
{
    lemma_parse_decimal(a);
    lemma_parse_decimal(b);
    lemma_parse_decimal(c);
    let da = decimal(a as nat);
    let db = decimal(b as nat);
    let dc = decimal(c as nat);
    let bc = db + seq!['.'] + dc;
    let s = da + seq!['.'] + bc;
    assert(s =~= da + seq!['.'] + db + seq!['.'] + dc);
    assert(s[0] == da[0]);
    assert(s.last() == dc.last());
    assert(dc.last() == dc[dc.len() - 1]);
    lemma_plain_version_text(s);
    lemma_split_at_dot(da, bc);
    lemma_split_at_dot(db, dc);
    lemma_no_dot(dc);
    let p = class_pred(CharClass::AsciiDigit);
    assert forall|j: int| 0 <= j < dc.len() implies #[trigger] p(dc[j]) by {
        lemma_decimal_digits(c as nat);
    }
    lemma_drop_leading_at(dc, p, dc.len() as int);
    assert(dc.take(dc.len() as int) =~= dc);
    assert(spec_parse_version(s) == Some((a, b, c)));
    law_v_prefix_is_ignored(s);

    let t = da + seq!['.'] + db;
    assert(t[0] == da[0]);
    assert(t.last() == db.last());
    assert(db.last() == db[db.len() - 1]);
    lemma_plain_version_text(t);
    lemma_split_at_dot(da, db);
    lemma_no_dot(db);
    let z = seq!['0'];
    assert(z.drop_first() =~= Seq::<char>::empty());
    assert(leading(z.drop_first(), p) =~= Seq::<char>::empty());
    assert(leading(z, p) =~= z);
    assert(z.drop_last() =~= Seq::<char>::empty());
    assert(z.last() == '0');
    assert(digits_value(z.drop_last()) == 0);
    assert(digit_of('0') == 0);
    assert(digits_value(z) == 0);
    assert(parse_u64(z) == Some(0u64));
}

} // verus!
