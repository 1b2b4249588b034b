//! Character-level text operations with their mathematical models.
//!
//! Text is modelled as `Seq<char>`, the view of `&str` and `String`. Each
//! scanning operation is stated over a recursive spec function
//! (`drop_leading`, `drop_trailing`, `leading`) parameterised by a class of
//! characters, and the executable scans work on index ranges of a `Vec<char>`.

use vstd::prelude::*;

verus! {

/// Classes of characters that the update logic scans for.
#[derive(Clone, Copy, PartialEq, Eq, Debug)]
pub enum CharClass {
    /// Unicode `White_Space`, as `char::is_whitespace` decides it.
    Whitespace,
    /// `'v'` or `'V'`, the letters that may prefix a version tag.
    VersionPrefix,
    /// `'0'` to `'9'`.
    AsciiDigit,
    /// Any character but `'.'`.
    NotDot,
    /// Any character but `'/'`.
    NotSlash,
    /// `'/'`.
    Slash,
    /// Any character but `'/'` and `'\\'`.
    NotPathSeparator,
    /// Any character but `'\n'`.
    NotNewline,
    /// Any character but `':'`.
    NotColon,
    /// ASCII letters and digits, `'-'`, `'_'` and `'.'`.
    RepoName,
}

pub open spec fn is_whitespace(c: char) -> bool {
    ||| ('\u{9}' <= c && c <= '\u{d}')
    ||| c == ' '
    ||| c == '\u{85}'
    ||| c == '\u{a0}'
    ||| c == '\u{1680}'
    ||| ('\u{2000}' <= c && c <= '\u{200a}')
    ||| c == '\u{2028}'
    ||| c == '\u{2029}'
    ||| c == '\u{202f}'
    ||| c == '\u{205f}'
    ||| c == '\u{3000}'
}

pub open spec fn is_ascii_digit(c: char) -> bool {
    '0' <= c && c <= '9'
}

pub open spec fn is_ascii_alphanumeric(c: char) -> bool {
    ||| is_ascii_digit(c)
    ||| ('a' <= c && c <= 'z')
    ||| ('A' <= c && c <= 'Z')
}

pub open spec fn in_class(cls: CharClass, c: char) -> bool {
    match cls {
        CharClass::Whitespace => is_whitespace(c),
        CharClass::VersionPrefix => c == 'v' || c == 'V',
        CharClass::AsciiDigit => is_ascii_digit(c),
        CharClass::NotDot => c != '.',
        CharClass::NotSlash => c != '/',
        CharClass::Slash => c == '/',
        CharClass::NotPathSeparator => c != '/' && c != '\\',
        CharClass::NotNewline => c != '\n',
        CharClass::NotColon => c != ':',
        CharClass::RepoName => is_ascii_alphanumeric(c) || c == '-' || c == '_' || c == '.',
    }
}

pub open spec fn class_pred(cls: CharClass) -> spec_fn(char) -> bool {
    |c: char| in_class(cls, c)
}

/// `s` without its longest prefix of characters that satisfy `p`.
pub open spec fn drop_leading(s: Seq<char>, p: spec_fn(char) -> bool) -> Seq<char>
    decreases s.len(),
{
    if s.len() > 0 && p(s[0]) {
        drop_leading(s.drop_first(), p)
    } else {
        s
    }
}

/// `s` without its longest suffix of characters that satisfy `p`.
pub open spec fn drop_trailing(s: Seq<char>, p: spec_fn(char) -> bool) -> Seq<char>
    decreases s.len(),
{
    if s.len() > 0 && p(s.last()) {
        drop_trailing(s.drop_last(), p)
    } else {
        s
    }
}

/// The longest prefix of `s` whose characters satisfy `p`.
pub open spec fn leading(s: Seq<char>, p: spec_fn(char) -> bool) -> Seq<char>
    decreases s.len(),
{
    if s.len() > 0 && p(s[0]) {
        seq![s[0]] + leading(s.drop_first(), p)
    } else {
        Seq::empty()
    }
}

/// `s` without leading and trailing whitespace (`str::trim`).
pub open spec fn trim(s: Seq<char>) -> Seq<char> {
    drop_trailing(drop_leading(s, class_pred(CharClass::Whitespace)), class_pred(CharClass::Whitespace))
}

/// Every character of `s` satisfies `p`.
pub open spec fn all_chars(s: Seq<char>, p: spec_fn(char) -> bool) -> bool {
    forall|i: int| 0 <= i < s.len() ==> #[trigger] p(s[i])
}

/// `c` with an ASCII upper-case letter mapped to its lower-case form.
pub open spec fn ascii_lower(c: char) -> char {
    if 'A' <= c && c <= 'Z' {
        ((c as u32) + 32) as char
    } else {
        c
    }
}

/// `a` and `b` are equal when ASCII letters are compared without case
/// (`str::eq_ignore_ascii_case`).
pub open spec fn eq_ignore_ascii_case(a: Seq<char>, b: Seq<char>) -> bool {
    &&& a.len() == b.len()
    &&& forall|i: int| 0 <= i < a.len() ==> ascii_lower(#[trigger] a[i]) == ascii_lower(b[i])
}

/// `s` begins with `p`.
pub open spec fn starts_with(s: Seq<char>, p: Seq<char>) -> bool {
    p.len() <= s.len() && s.take(p.len() as int) == p
}

/// `s` ends with `p`.
pub open spec fn ends_with(s: Seq<char>, p: Seq<char>) -> bool {
    p.len() <= s.len() && s.skip(s.len() - p.len()) == p
}

/// `p` occurs in `s` at some position.
pub open spec fn contains(s: Seq<char>, p: Seq<char>) -> bool {
    exists|i: int| 0 <= i && i + p.len() <= s.len() && #[trigger] s.subrange(i, i + p.len()) == p
}

/// `s` with every trailing occurrence of the non-empty `p` removed
/// (`str::trim_end_matches` with a string pattern).
pub open spec fn drop_suffixes(s: Seq<char>, p: Seq<char>) -> Seq<char>
    decreases s.len(),
{
    if p.len() > 0 && ends_with(s, p) {
        drop_suffixes(s.take(s.len() - p.len()), p)
    } else {
        s
    }
}

/// The decimal digit for `d < 10`.
pub open spec fn digit_char(d: nat) -> char {
    (('0' as u32) + d) as char
}

/// The decimal representation of `n`, without leading zeros.
pub open spec fn decimal(n: nat) -> Seq<char>
    decreases n,
{
    if n < 10 {
        seq![digit_char(n)]
    } else {
        decimal(n / 10).push(digit_char(n % 10))
    }
}

// ---------------------------------------------------------------------------
// Lemmas that connect the recursive models to index ranges.
// ---------------------------------------------------------------------------

pub proof fn lemma_drop_leading_at(s: Seq<char>, p: spec_fn(char) -> bool, i: int)
    requires
        0 <= i <= s.len(),
        forall|j: int| 0 <= j < i ==> #[trigger] p(s[j]),
        i < s.len() ==> !p(s[i]),
    ensures
        drop_leading(s, p) == s.skip(i),
        leading(s, p) == s.take(i),
    decreases i,
{
    if i == 0 {
        assert(s.skip(0) =~= s);
        assert(s.take(0) =~= Seq::<char>::empty());
    } else {
        assert(p(s[0]));
        let t = s.drop_first();
        assert forall|j: int| 0 <= j < i - 1 implies #[trigger] p(t[j]) by {
            assert(t[j] == s[j + 1]);
            assert(p(s[j + 1]));
        }
        if i - 1 < t.len() {
            assert(t[i - 1] == s[i]);
        }
        lemma_drop_leading_at(t, p, i - 1);
        assert(t.skip(i - 1) =~= s.skip(i));
        assert(seq![s[0]] + t.take(i - 1) =~= s.take(i));
    }
}

pub proof fn lemma_drop_trailing_at(s: Seq<char>, p: spec_fn(char) -> bool, k: int)
    requires
        0 <= k <= s.len(),
        forall|j: int| k <= j < s.len() ==> #[trigger] p(s[j]),
        k > 0 ==> !p(s[k - 1]),
    ensures
        drop_trailing(s, p) == s.take(k),
    decreases s.len() - k,
{
    if k == s.len() {
        assert(s.take(k) =~= s);
        if s.len() > 0 {
            assert(s.last() == s[k - 1]);
        }
    } else {
        assert(p(s[s.len() - 1]));
        let t = s.drop_last();
        assert forall|j: int| k <= j < t.len() implies #[trigger] p(t[j]) by {
            assert(t[j] == s[j]);
            assert(p(s[j]));
        }
        if k > 0 {
            assert(t[k - 1] == s[k - 1]);
        }
        lemma_drop_trailing_at(t, p, k);
        assert(t.take(k) =~= s.take(k));
    }
}

/// `leading` is the prefix of `s` up to the first character that fails `p`.
pub proof fn lemma_leading_run(s: Seq<char>, p: spec_fn(char) -> bool)
    ensures
        leading(s, p).len() <= s.len(),
        leading(s, p) == s.take(leading(s, p).len() as int),
        forall|j: int| 0 <= j < leading(s, p).len() ==> #[trigger] p(s[j]),
        leading(s, p).len() < s.len() ==> !p(s[leading(s, p).len() as int]),
    decreases s.len(),
{
    if s.len() > 0 && p(s[0]) {
        let t = s.drop_first();
        lemma_leading_run(t, p);
        let k = leading(t, p).len() as int;
        assert(seq![s[0]] + t.take(k) =~= s.take(k + 1));
        assert forall|j: int| 0 <= j < k + 1 implies #[trigger] p(s[j]) by {
            if j > 0 {
                assert(s[j] == t[j - 1]);
            }
        }
        if k + 1 < s.len() {
            assert(s[k + 1] == t[k]);
        }
    } else {
        assert(s.take(0) =~= Seq::<char>::empty());
    }
}

/// What `drop_trailing` keeps does not end with a character that satisfies `p`.
pub proof fn lemma_drop_trailing_stops(s: Seq<char>, p: spec_fn(char) -> bool)
    ensures
        drop_trailing(s, p).len() > 0 ==> !p(drop_trailing(s, p).last()),
    decreases s.len(),
{
    if s.len() > 0 && p(s.last()) {
        lemma_drop_trailing_stops(s.drop_last(), p);
    }
}

/// What `drop_trailing` removes is a suffix whose characters all satisfy `p`.
pub proof fn lemma_drop_trailing_suffix(s: Seq<char>, p: spec_fn(char) -> bool)
    ensures
        drop_trailing(s, p).len() <= s.len(),
        drop_trailing(s, p) == s.take(drop_trailing(s, p).len() as int),
        all_chars(s.skip(drop_trailing(s, p).len() as int), p),
    decreases s.len(),
{
    if s.len() > 0 && p(s.last()) {
        let t = s.drop_last();
        lemma_drop_trailing_suffix(t, p);
        let k = drop_trailing(t, p).len() as int;
        assert(t.take(k) =~= s.take(k));
        assert forall|i: int| 0 <= i < s.skip(k).len() implies #[trigger] p(s.skip(k)[i]) by {
            if k + i < t.len() {
                assert(s.skip(k)[i] == t.skip(k)[i]);
            } else {
                assert(s.skip(k)[i] == s.last());
            }
        }
    } else {
        assert(s.take(s.len() as int) =~= s);
    }
}

// ---------------------------------------------------------------------------
// Executable scans.
// ---------------------------------------------------------------------------

/// The characters of `s`, in order.
pub fn chars_of(s: &str) -> (v: Vec<char>)
    ensures
        v@ == s@,
{
    let mut v: Vec<char> = Vec::new();
    for c in it: s.chars()
        invariant
            v@ == it.seq().take(it.index()),
    {
        v.push(c);
    }
    v
}

pub fn char_in_class(cls: CharClass, c: char) -> (b: bool)
    ensures
        b == in_class(cls, c),
{
    match cls {
        CharClass::Whitespace => {
            ('\u{9}' <= c && c <= '\u{d}') || c == ' ' || c == '\u{85}' || c == '\u{a0}'
                || c == '\u{1680}' || ('\u{2000}' <= c && c <= '\u{200a}') || c == '\u{2028}'
                || c == '\u{2029}' || c == '\u{202f}' || c == '\u{205f}' || c == '\u{3000}'
        },
        CharClass::VersionPrefix => c == 'v' || c == 'V',
        CharClass::AsciiDigit => '0' <= c && c <= '9',
        CharClass::NotDot => c != '.',
        CharClass::NotSlash => c != '/',
        CharClass::Slash => c == '/',
        CharClass::NotPathSeparator => c != '/' && c != '\\',
        CharClass::NotNewline => c != '\n',
        CharClass::NotColon => c != ':',
        CharClass::RepoName => {
            ('0' <= c && c <= '9') || ('a' <= c && c <= 'z') || ('A' <= c && c <= 'Z') || c == '-'
                || c == '_' || c == '.'
        },
    }
}

/// The end of the run of `cls` characters that starts at `from` in `v[from..to]`.
pub fn run_end(v: &Vec<char>, from: usize, to: usize, cls: CharClass) -> (k: usize)
    requires
        from <= to <= v.len(),
    ensures
        from <= k <= to,
        forall|j: int| from <= j < k ==> in_class(cls, #[trigger] v@[j]),
        k < to ==> !in_class(cls, v@[k as int]),
        drop_leading(v@.subrange(from as int, to as int), class_pred(cls)) == v@.subrange(
            k as int,
            to as int,
        ),
        leading(v@.subrange(from as int, to as int), class_pred(cls)) == v@.subrange(
            from as int,
            k as int,
        ),
{
    let mut k = from;
    while k < to && char_in_class(cls, v[k])
        invariant
            from <= k <= to <= v.len(),
            forall|j: int| from <= j < k ==> in_class(cls, #[trigger] v@[j]),
        decreases to - k,
    {
        k = k + 1;
    }
    proof {
        let s = v@.subrange(from as int, to as int);
        assert forall|j: int| 0 <= j < k - from implies #[trigger] class_pred(cls)(s[j]) by {
            assert(s[j] == v@[from + j]);
        }
        if k < to {
            assert(s[k - from] == v@[k as int]);
        }
        lemma_drop_leading_at(s, class_pred(cls), k - from);
        assert(s.skip(k - from) =~= v@.subrange(k as int, to as int));
        assert(s.take(k - from) =~= v@.subrange(from as int, k as int));
    }
    k
}

/// The start of the run of `cls` characters that ends at `to` in `v[from..to]`.
pub fn run_start_back(v: &Vec<char>, from: usize, to: usize, cls: CharClass) -> (k: usize)
    requires
        from <= to <= v.len(),
    ensures
        from <= k <= to,
        forall|j: int| k <= j < to ==> in_class(cls, #[trigger] v@[j]),
        k > from ==> !in_class(cls, v@[k - 1]),
        drop_trailing(v@.subrange(from as int, to as int), class_pred(cls)) == v@.subrange(
            from as int,
            k as int,
        ),
{
    let mut k = to;
    while k > from && char_in_class(cls, v[k - 1])
        invariant
            from <= k <= to <= v.len(),
            forall|j: int| k <= j < to ==> in_class(cls, #[trigger] v@[j]),
        decreases k - from,
    {
        k = k - 1;
    }
    proof {
        let s = v@.subrange(from as int, to as int);
        assert forall|j: int| k - from <= j < s.len() implies #[trigger] class_pred(cls)(s[j]) by {
            assert(s[j] == v@[from + j]);
        }
        if k > from {
            assert(s[k - from - 1] == v@[k - 1]);
        }
        lemma_drop_trailing_at(s, class_pred(cls), k - from);
        assert(s.take(k - from) =~= v@.subrange(from as int, k as int));
    }
    k
}

/// The bounds of `trim(v[from..to])` inside `v`.
pub fn trim_bounds(v: &Vec<char>, from: usize, to: usize) -> (r: (usize, usize))
    requires
        from <= to <= v.len(),
    ensures
        from <= r.0 <= r.1 <= to,
        trim(v@.subrange(from as int, to as int)) == v@.subrange(r.0 as int, r.1 as int),
{
    let a = run_end(v, from, to, CharClass::Whitespace);
    let b = run_start_back(v, a, to, CharClass::Whitespace);
    (a, b)
}

pub fn lower_char(c: char) -> (r: char)
    ensures
        r == ascii_lower(c),
{
    if 'A' <= c && c <= 'Z' {
        let code: u32 = (c as u32) + 32;
        assert(code < 0xD800);
        let lowered = (code as u8) as char;
        lowered
    } else {
        c
    }
}

/// Whether `v[a_from..a_to]` equals `w[b_from..b_to]`, exactly or ignoring ASCII case.
pub fn ranges_equal(
    v: &Vec<char>,
    a_from: usize,
    a_to: usize,
    w: &Vec<char>,
    b_from: usize,
    b_to: usize,
    ignore_case: bool,
) -> (b: bool)
    requires
        a_from <= a_to <= v.len(),
        b_from <= b_to <= w.len(),
    ensures
        !ignore_case ==> (b == (v@.subrange(a_from as int, a_to as int) == w@.subrange(
            b_from as int,
            b_to as int,
        ))),
        ignore_case ==> (b == eq_ignore_ascii_case(
            v@.subrange(a_from as int, a_to as int),
            w@.subrange(b_from as int, b_to as int),
        )),
{
    let ghost sa = v@.subrange(a_from as int, a_to as int);
    let ghost sb = w@.subrange(b_from as int, b_to as int);
    if a_to - a_from != b_to - b_from {
        proof {
            if sa == sb {
                assert(sa.len() == sb.len());
            }
        }
        return false;
    }
    let n = a_to - a_from;
    let mut i: usize = 0;
    while i < n
        invariant
            a_from <= a_to <= v.len(),
            b_from <= b_to <= w.len(),
            n == a_to - a_from,
            n == b_to - b_from,
            i <= n,
            sa == v@.subrange(a_from as int, a_to as int),
            sb == w@.subrange(b_from as int, b_to as int),
            !ignore_case ==> forall|j: int| 0 <= j < i ==> #[trigger] sa[j] == sb[j],
            ignore_case ==> forall|j: int|
                0 <= j < i ==> ascii_lower(#[trigger] sa[j]) == ascii_lower(sb[j]),
        decreases n - i,
    {
        let x = v[a_from + i];
        let y = w[b_from + i];
        assert(sa[i as int] == x);
        assert(sb[i as int] == y);
        if ignore_case {
            if lower_char(x) != lower_char(y) {
                return false;
            }
        } else {
            if x != y {
                assert(sa[i as int] != sb[i as int]);
                return false;
            }
        }
        i = i + 1;
    }
    proof {
        if !ignore_case {
            assert(sa =~= sb);
        }
    }
    true
}

/// Whether the text `a` equals the text `b`.
pub fn str_equal(a: &str, b: &str) -> (r: bool)
    ensures
        r == (a@ == b@),
{
    let v = chars_of(a);
    let w = chars_of(b);
    let r = ranges_equal(&v, 0, v.len(), &w, 0, w.len(), false);
    proof {
        assert(v@.subrange(0, v@.len() as int) =~= v@);
        assert(w@.subrange(0, w@.len() as int) =~= w@);
    }
    r
}

/// Whether the text `a` equals the text `b` when ASCII letters are compared
/// without case.
pub fn str_eq_ignore_ascii_case(a: &str, b: &str) -> (r: bool)
    ensures
        r == eq_ignore_ascii_case(a@, b@),
{
    let v = chars_of(a);
    let w = chars_of(b);
    let r = ranges_equal(&v, 0, v.len(), &w, 0, w.len(), true);
    proof {
        assert(v@.subrange(0, v@.len() as int) =~= v@);
        assert(w@.subrange(0, w@.len() as int) =~= w@);
    }
    r
}

/// `s` without leading and trailing whitespace.
pub fn trim_str(s: &str) -> (r: &str)
    ensures
        r@ == trim(s@),
{
    let v = chars_of(s);
    let (a, b) = trim_bounds(&v, 0, v.len());
    proof {
        assert(v@.subrange(0, v@.len() as int) =~= v@);
    }
    s.substring_char(a, b)
}

/// The one-character text of the decimal digit `d < 10`.
pub fn digit_str(d: u64) -> (s: &'static str)
    requires
        d < 10,
    ensures
        s@ == seq![digit_char(d as nat)],
{
    proof {
        reveal_strlit("0");
        reveal_strlit("1");
        reveal_strlit("2");
        reveal_strlit("3");
        reveal_strlit("4");
        reveal_strlit("5");
        reveal_strlit("6");
        reveal_strlit("7");
        reveal_strlit("8");
        reveal_strlit("9");
    }
    match d {
        0 => "0",
        1 => "1",
        2 => "2",
        3 => "3",
        4 => "4",
        5 => "5",
        6 => "6",
        7 => "7",
        8 => "8",
        _ => "9",
    }
}

/// The decimal representation of `n` (`u64::to_string`).
pub fn decimal_string(n: u64) -> (s: String)
    ensures
        s@ == decimal(n as nat),
    decreases n,
{
    if n < 10 {
        String::from_str(digit_str(n))
    } else {
        let mut s = decimal_string(n / 10);
        s.append(digit_str(n % 10));
        s
    }
}

/// The concatenation of `a`, `b` and `c`.
pub fn concat3(a: &str, b: &str, c: &str) -> (s: String)
    ensures
        s@ == a@ + b@ + c@,
{
    let mut s = String::from_str(a);
    s.append(b);
    s.append(c);
    s
}

/// `Result` with its error text taken by its view.
pub open spec fn err_view<T>(r: Result<T, String>) -> Result<T, Seq<char>> {
    match r {
        Ok(t) => Ok(t),
        Err(e) => Err(e@),
    }
}

/// The text of an optional string, empty when absent (`unwrap_or_default`).
pub open spec fn text_or_empty(o: Option<String>) -> Seq<char> {
    match o {
        Some(s) => s@,
        None => Seq::empty(),
    }
}

/// A copy of an optional string's text, empty when absent.
pub fn string_or_empty(o: &Option<String>) -> (s: String)
    ensures
        s@ == text_or_empty(*o),
{
    match o {
        Some(x) => x.clone(),
        None => String::new(),
    }
}

} // verus!
