//! GitHub releases of the sing-box core: which release and which asset an
//! update takes, where the release list is fetched from, and how a download
//! mirror rewrites an asset URL.

use vstd::prelude::*;
use crate::search::{first_index, lemma_first_index_at, lemma_first_index_found};
use crate::text::{
    all_chars, chars_of, class_pred, concat3, contains, drop_suffixes, drop_trailing, ends_with,
    err_view, leading, lemma_drop_trailing_stops, lemma_drop_trailing_suffix, lemma_leading_run,
    ranges_equal, run_end, run_start_back, str_equal, string_or_empty, text_or_empty, trim,
    trim_bounds, CharClass,
};

verus! {

/// The packaging of a core release asset.
#[derive(Clone, Copy, PartialEq, Eq, Debug, Structural)]
pub enum CoreAssetFormat {
    /// A zip archive that holds `sing-box.exe` and the DLLs it needs.
    Zip,
    /// A bare `sing-box.exe`.
    Exe,
}

impl Default for CoreAssetFormat {
    fn default() -> (r: Self)
        ensures
            r == CoreAssetFormat::Zip,
    {
        CoreAssetFormat::Zip
    }
}

/// One asset of a GitHub release.
pub struct GhAsset {
    pub name: String,
    pub browser_download_url: String,
    pub size: u64,
    pub digest: Option<String>,
}

/// A GitHub release.
pub struct GhRelease {
    pub tag_name: String,
    pub prerelease: bool,
    pub draft: bool,
    pub published_at: Option<String>,
    pub assets: Vec<GhAsset>,
}

/// What a core update check reports.
pub struct CoreUpdateInfo {
    pub version: String,
    pub prerelease: bool,
    pub published_at: String,
    pub asset_name: String,
    pub asset_url: String,
    pub asset_size: u64,
    /// The asset's SHA-256 digest (`sha256:...`), empty when the source gives none.
    pub asset_digest: String,
    pub asset_format: CoreAssetFormat,
}

/// What a finished core update reports.
pub struct CoreUpdateResult {
    pub version: String,
    pub restarted: bool,
}

/// Where the releases of a core check come from.
#[derive(Clone, Copy, PartialEq, Eq, Debug, Structural)]
pub enum ReleaseSource {
    /// A page of the release list; the first release that is not a draft is taken.
    Listing,
    /// The release that GitHub marks as latest.
    Latest,
}

/// The requests and the asset choice of a core update check.
pub struct CoreCheckPlan {
    pub url: String,
    pub source: ReleaseSource,
    pub pattern: &'static str,
    pub asset_format: CoreAssetFormat,
}

pub const CORE_EXE_NAME: &'static str = "sing-box.exe";

pub const MSG_BAD_REPO: &'static str = "仓库格式应为 owner/repo";

pub const MSG_BAD_ARCH: &'static str = "不支持的 CPU 架构: ";

pub const MSG_NO_RELEASE: &'static str = "该仓库暂无发布版本";

pub const MSG_NO_ZIP_ASSET_BEFORE: &'static str = "该版本未提供适用于 ";

pub const MSG_NO_ZIP_ASSET_AFTER: &'static str = " 的资产";

pub const MSG_NO_EXE_ASSET: &'static str = "该版本未提供资产 ";

pub const GITHUB_API_REPOS: &'static str = "https://api.github.com/repos/";

pub const LATEST_RELEASE_PATH: &'static str = "/releases/latest";

pub const LIST_RELEASES_PATH: &'static str = "/releases?per_page=";

// ---------------------------------------------------------------------------
// Repository names.
// ---------------------------------------------------------------------------

/// `owner/repo`: exactly one `'/'`, with a non-empty name on each side made
/// of ASCII letters, digits, `-`, `_` and `.`.
pub open spec fn spec_valid_repo(s: Seq<char>) -> bool {
    let owner = leading(s, class_pred(CharClass::NotSlash));
    let name = s.skip(owner.len() + 1int);
    &&& owner.len() < s.len()
    &&& owner.len() > 0
    &&& name.len() > 0
    &&& all_chars(owner, class_pred(CharClass::RepoName))
    &&& all_chars(name, class_pred(CharClass::RepoName))
}

/// Checks that `repo` has the form `owner/repo`.
pub fn validate_repo(repo: &str) -> (r: Result<(), String>)
    ensures
        err_view(r) == (if spec_valid_repo(repo@) {
            Ok(())
        } else {
            Err(MSG_BAD_REPO@)
        }),
{
    let v = chars_of(repo);
    let n = v.len();
    assert(v@.subrange(0, n as int) =~= v@);
    let e = run_end(&v, 0, n, CharClass::NotSlash);
    let ghost owner = v@.subrange(0, e as int);
    let ghost name = v@.subrange(e + 1, n as int);
    let valid = if e == n || e == 0 || e + 1 == n {
        false
    } else {
        let e1 = run_end(&v, 0, e, CharClass::RepoName);
        let e2 = run_end(&v, e + 1, n, CharClass::RepoName);
        proof {
            assert(v@.skip(e + 1) =~= name);
            if e1 == e {
                assert forall|i: int| 0 <= i < owner.len() implies #[trigger] class_pred(
                    CharClass::RepoName,
                )(owner[i]) by {
                    assert(owner[i] == v@[i]);
                }
            } else {
                assert(owner[e1 as int] == v@[e1 as int]);
                assert(!class_pred(CharClass::RepoName)(owner[e1 as int]));
            }
            if e2 == n {
                assert forall|i: int| 0 <= i < name.len() implies #[trigger] class_pred(
                    CharClass::RepoName,
                )(name[i]) by {
                    assert(name[i] == v@[e + 1 + i]);
                }
            } else {
                assert(name[e2 - e - 1] == v@[e2 as int]);
                assert(!class_pred(CharClass::RepoName)(name[e2 - e - 1]));
            }
        }
        e1 == e && e2 == n
    };
    if valid {
        Ok(())
    } else {
        Err(String::from_str(MSG_BAD_REPO))
    }
}

/// A repository is accepted exactly when it is an owner and a name, both
/// non-empty, joined by a single `'/'`, with every other character an ASCII
/// letter or digit, `'-'`, `'_'` or `'.'`.
pub proof fn law_repo_is_owner_slash_name(s: Seq<char>)
    ensures
        spec_valid_repo(s) <==> exists|k: int|
            0 < k && k + 1 < s.len() && #[trigger] s[k] == '/' && forall|i: int|
                0 <= i < s.len() && i != k ==> {
                    let c = #[trigger] s[i];
                    ('0' <= c && c <= '9') || ('a' <= c && c <= 'z') || ('A' <= c && c <= 'Z')
                        || c == '-' || c == '_' || c == '.'
                },
{
    let ns = class_pred(CharClass::NotSlash);
    let rn = class_pred(CharClass::RepoName);
    let owner = leading(s, ns);
    lemma_leading_run(s, ns);
    let k = owner.len() as int;
    let name = s.skip(k + 1);
    if spec_valid_repo(s) {
        assert(s[k] == '/');
        assert forall|i: int| 0 <= i < s.len() && i != k implies {
            let c = #[trigger] s[i];
            ('0' <= c && c <= '9') || ('a' <= c && c <= 'z') || ('A' <= c && c <= 'Z') || c == '-'
                || c == '_' || c == '.'
        } by {
            if i < k {
                assert(owner[i] == s[i]);
                assert(rn(owner[i]));
            } else {
                assert(name[i - k - 1] == s[i]);
                assert(rn(name[i - k - 1]));
            }
        }
    }
    if exists|k: int|
        0 < k && k + 1 < s.len() && #[trigger] s[k] == '/' && forall|i: int|
            0 <= i < s.len() && i != k ==> {
                let c = #[trigger] s[i];
                ('0' <= c && c <= '9') || ('a' <= c && c <= 'z') || ('A' <= c && c <= 'Z')
                    || c == '-' || c == '_' || c == '.'
            } {
        let j = choose|k: int|
            0 < k && k + 1 < s.len() && #[trigger] s[k] == '/' && forall|i: int|
                0 <= i < s.len() && i != k ==> {
                    let c = #[trigger] s[i];
                    ('0' <= c && c <= '9') || ('a' <= c && c <= 'z') || ('A' <= c && c <= 'Z')
                        || c == '-' || c == '_' || c == '.'
                };
        assert forall|i: int| 0 <= i < j implies #[trigger] ns(s[i]) by {
            let c = s[i];
            assert(('0' <= c && c <= '9') || ('a' <= c && c <= 'z') || ('A' <= c && c <= 'Z')
                || c == '-' || c == '_' || c == '.');
        }
        assert(!ns(s[j]));
        crate::text::lemma_drop_leading_at(s, ns, j);
        assert(owner =~= s.take(j));
        assert forall|i: int| 0 <= i < owner.len() implies #[trigger] rn(owner[i]) by {
            let c = s[i];
            assert(owner[i] == c);
            assert(('0' <= c && c <= '9') || ('a' <= c && c <= 'z') || ('A' <= c && c <= 'Z')
                || c == '-' || c == '_' || c == '.');
        }
        assert forall|i: int| 0 <= i < name.len() implies #[trigger] rn(name[i]) by {
            let c = s[j + 1 + i];
            assert(name[i] == c);
            assert(('0' <= c && c <= '9') || ('a' <= c && c <= 'z') || ('A' <= c && c <= 'Z')
                || c == '-' || c == '_' || c == '.');
        }
    }
}

// ---------------------------------------------------------------------------
// Asset names by format and CPU architecture.
// ---------------------------------------------------------------------------

/// The asset name (a suffix for zip archives, the whole name for bare
/// executables) that fits the CPU architecture `arch`.
pub open spec fn spec_asset_pattern(fmt: CoreAssetFormat, arch: Seq<char>) -> Result<
    Seq<char>,
    Seq<char>,
> {
    if arch == "x86_64"@ {
        Ok(
            match fmt {
                CoreAssetFormat::Zip => "windows-amd64.zip"@,
                CoreAssetFormat::Exe => "sing-box_windows_amd64.exe"@,
            },
        )
    } else if arch == "aarch64"@ {
        Ok(
            match fmt {
                CoreAssetFormat::Zip => "windows-arm64.zip"@,
                CoreAssetFormat::Exe => "sing-box_windows_arm64.exe"@,
            },
        )
    } else {
        Err(MSG_BAD_ARCH@ + arch)
    }
}

/// The Windows asset name pattern for `asset_format` on `arch`.
pub fn windows_asset_pattern(asset_format: CoreAssetFormat, arch: &str) -> (r: Result<
    &'static str,
    String,
>)
    ensures
        match r {
            Ok(p) => spec_asset_pattern(asset_format, arch@) == Ok::<Seq<char>, Seq<char>>(p@),
            Err(e) => spec_asset_pattern(asset_format, arch@) == Err::<Seq<char>, Seq<char>>(e@),
        },
{
    if str_equal(arch, "x86_64") {
        match asset_format {
            CoreAssetFormat::Zip => Ok("windows-amd64.zip"),
            CoreAssetFormat::Exe => Ok("sing-box_windows_amd64.exe"),
        }
    } else if str_equal(arch, "aarch64") {
        match asset_format {
            CoreAssetFormat::Zip => Ok("windows-arm64.zip"),
            CoreAssetFormat::Exe => Ok("sing-box_windows_arm64.exe"),
        }
    } else {
        let mut e = String::from_str(MSG_BAD_ARCH);
        e.append(arch);
        Err(e)
    }
}

// ---------------------------------------------------------------------------
// Choosing a release and an asset.
// ---------------------------------------------------------------------------

/// The predicate of releases that are not drafts.
pub open spec fn published() -> spec_fn(GhRelease) -> bool {
    |r: GhRelease| !r.draft
}

/// The first release of `releases` that is not a draft.
pub fn latest_non_draft(releases: Vec<GhRelease>) -> (r: Result<GhRelease, String>)
    ensures
        match first_index(releases@, published()) {
            Some(i) => r matches Ok(rel) && rel == releases@[i],
            None => r matches Err(e) && e@ == MSG_NO_RELEASE@,
        },
        releases@.len() > 0 && !releases@[0].draft ==> (r matches Ok(rel) && rel == releases@[0]),
        r matches Ok(rel) ==> !rel.draft,
{
    proof {
        law_offers_first_non_draft(releases@);
    }
    let ghost orig = releases@;
    let mut list = releases;
    assert(list@ == orig);
    let mut i: usize = 0;
    while i < list.len()
        invariant
            list@ == orig,
            releases@ == orig,
            i <= list.len(),
            forall|j: int| 0 <= j < i ==> !published()(#[trigger] orig[j]),
        decreases list.len() - i,
    {
        if !list[i].draft {
            assert(published()(orig[i as int]));
            proof {
                lemma_first_index_at(orig, published(), i as int);
            }
            let rel = list.remove(i);
            assert(rel == orig[i as int]);
            return Ok(rel);
        }
        i = i + 1;
    }
    proof {
        lemma_first_index_at(orig, published(), i as int);
    }
    Err(String::from_str(MSG_NO_RELEASE))
}

/// A core update check offers the first release of the list that is not a
/// draft, whether or not it is a prerelease; it finds none only when every
/// release is a draft.
pub proof fn law_offers_first_non_draft(releases: Seq<GhRelease>)
    ensures
        match first_index(releases, published()) {
            Some(i) => 0 <= i < releases.len() && !releases[i].draft && forall|j: int|
                0 <= j < i ==> (#[trigger] releases[j]).draft,
            None => forall|j: int| 0 <= j < releases.len() ==> (#[trigger] releases[j]).draft,
        },
        releases.len() > 0 && !releases[0].draft ==> first_index(releases, published()) == Some(
            0int,
        ),
{
    lemma_first_index_found(releases, published());
    match first_index(releases, published()) {
        Some(i) => {
            assert forall|j: int| 0 <= j < i implies (#[trigger] releases[j]).draft by {
                assert(!published()(releases[j]));
            }
        },
        None => {
            assert forall|j: int| 0 <= j < releases.len() implies (
            #[trigger] releases[j]).draft by {
                assert(!published()(releases[j]));
            }
        },
    }
}

/// An asset fits `pattern`: a zip archive whose name ends with it, or an
/// executable whose name is it.
pub open spec fn asset_fits(a: GhAsset, pattern: Seq<char>, fmt: CoreAssetFormat) -> bool {
    match fmt {
        CoreAssetFormat::Zip => ends_with(a.name@, pattern),
        CoreAssetFormat::Exe => a.name@ == pattern,
    }
}

/// The predicate of assets that fit `pattern` in the format `fmt`.
pub open spec fn fits(pattern: Seq<char>, fmt: CoreAssetFormat) -> spec_fn(GhAsset) -> bool {
    |a: GhAsset| asset_fits(a, pattern, fmt)
}

/// `info` reports `asset` of `release` in the format `fmt`.
pub open spec fn reports_asset(
    info: CoreUpdateInfo,
    release: GhRelease,
    asset: GhAsset,
    fmt: CoreAssetFormat,
) -> bool {
    &&& info.version@ == release.tag_name@
    &&& info.prerelease == release.prerelease
    &&& info.published_at@ == text_or_empty(release.published_at)
    &&& info.asset_name@ == asset.name@
    &&& info.asset_url@ == asset.browser_download_url@
    &&& info.asset_size == asset.size
    &&& info.asset_digest@ == text_or_empty(asset.digest)
    &&& info.asset_format == fmt
}

/// The error when no asset fits `pattern`.
pub open spec fn missing_asset_message(pattern: Seq<char>, fmt: CoreAssetFormat) -> Seq<char> {
    match fmt {
        CoreAssetFormat::Zip => MSG_NO_ZIP_ASSET_BEFORE@ + drop_suffixes(pattern, ".zip"@)
            + MSG_NO_ZIP_ASSET_AFTER@,
        CoreAssetFormat::Exe => MSG_NO_EXE_ASSET@ + pattern,
    }
}

/// Whether `name` ends with `suffix`.
pub fn str_ends_with(name: &str, suffix: &str) -> (r: bool)
    ensures
        r == ends_with(name@, suffix@),
{
    let v = chars_of(name);
    let w = chars_of(suffix);
    if w.len() > v.len() {
        return false;
    }
    assert(w@.subrange(0, w.len() as int) =~= w@);
    assert(v@.subrange(v.len() - w.len(), v.len() as int) =~= v@.skip(v.len() - w.len()));
    ranges_equal(&v, v.len() - w.len(), v.len(), &w, 0, w.len(), false)
}

/// `s` with every trailing occurrence of the non-empty `pattern` removed.
pub fn trim_end_matches_str<'a>(s: &'a str, pattern: &str) -> (r: &'a str)
    requires
        pattern@.len() > 0,
    ensures
        r@ == drop_suffixes(s@, pattern@),
{
    let v = chars_of(s);
    let p = chars_of(pattern);
    let plen = p.len();
    assert(p@.subrange(0, plen as int) =~= p@);
    let mut end = v.len();
    assert(v@.take(end as int) =~= v@);
    loop
        invariant
            end <= v.len(),
            plen == pattern@.len(),
            p@ == pattern@,
            v@ == s@,
            plen > 0,
            drop_suffixes(s@, pattern@) == drop_suffixes(v@.take(end as int), pattern@),
            p@.subrange(0, plen as int) == p@,
        ensures
            end <= v.len(),
            drop_suffixes(s@, pattern@) == v@.take(end as int),
        decreases end,
    {
        let t = Ghost(v@.take(end as int));
        if end < plen {
            assert(!ends_with(t@, pattern@));
            break;
        }
        let hit = ranges_equal(&v, end - plen, end, &p, 0, plen, false);
        assert(t@.skip(t@.len() - plen) =~= v@.subrange(end - plen, end as int));
        if !hit {
            assert(!ends_with(t@, pattern@));
            break;
        }
        proof {
            assert(t@.take(t@.len() - plen) =~= v@.take(end - plen));
            assert(ends_with(t@, pattern@));
            assert(drop_suffixes(t@, pattern@) == drop_suffixes(t@.take(t@.len() - plen), pattern@));
        }
        end = end - plen;
    }
    assert(v@.subrange(0, end as int) =~= v@.take(end as int));
    s.substring_char(0, end)
}

/// Picks the first asset of `release` that fits `pattern` and reports it.
pub fn pick_windows_asset(release: &GhRelease, pattern: &str, asset_format: CoreAssetFormat) -> (r:
    Result<CoreUpdateInfo, String>)
    ensures
        match first_index(release.assets@, fits(pattern@, asset_format)) {
            Some(i) => r matches Ok(info) && reports_asset(
                info,
                *release,
                release.assets@[i],
                asset_format,
            ),
            None => r matches Err(e) && e@ == missing_asset_message(pattern@, asset_format),
        },
{
    let ghost f = fits(pattern@, asset_format);
    let mut i: usize = 0;
    while i < release.assets.len()
        invariant
            i <= release.assets.len(),
            forall|j: int| 0 <= j < i ==> !f(#[trigger] release.assets@[j]),
            f == fits(pattern@, asset_format),
        decreases release.assets.len() - i,
    {
        let asset = &release.assets[i];
        let hit = match asset_format {
            CoreAssetFormat::Zip => str_ends_with(asset.name.as_str(), pattern),
            CoreAssetFormat::Exe => str_equal(asset.name.as_str(), pattern),
        };
        assert(hit == asset_fits(release.assets@[i as int], pattern@, asset_format));
        assert(hit == f(release.assets@[i as int]));
        if hit {
            proof {
                lemma_first_index_at(release.assets@, f, i as int);
            }
            return Ok(
                CoreUpdateInfo {
                    version: release.tag_name.clone(),
                    prerelease: release.prerelease,
                    published_at: string_or_empty(&release.published_at),
                    asset_name: asset.name.clone(),
                    asset_url: asset.browser_download_url.clone(),
                    asset_size: asset.size,
                    asset_digest: string_or_empty(&asset.digest),
                    asset_format,
                },
            );
        }
        i = i + 1;
    }
    proof {
        lemma_first_index_at(release.assets@, f, i as int);
    }
    match asset_format {
        CoreAssetFormat::Zip => {
            proof {
                reveal_strlit(".zip");
            }
            let stem = trim_end_matches_str(pattern, ".zip");
            Err(concat3(MSG_NO_ZIP_ASSET_BEFORE, stem, MSG_NO_ZIP_ASSET_AFTER))
        },
        CoreAssetFormat::Exe => {
            let mut e = String::from_str(MSG_NO_EXE_ASSET);
            e.append(pattern);
            Err(e)
        },
    }
}

/// The zip archive picked is the first asset whose name ends with the
/// pattern; none is picked only when no asset name ends with it.
pub proof fn law_zip_asset_ends_with_pattern(assets: Seq<GhAsset>, pattern: Seq<char>)
    ensures
        match first_index(assets, fits(pattern, CoreAssetFormat::Zip)) {
            Some(i) => 0 <= i < assets.len() && pattern.len() <= assets[i].name@.len()
                && assets[i].name@.subrange(
                assets[i].name@.len() - pattern.len(),
                assets[i].name@.len() as int,
            ) == pattern && forall|j: int|
                0 <= j < i ==> !(pattern.len() <= (#[trigger] assets[j]).name@.len()
                    && assets[j].name@.subrange(
                    assets[j].name@.len() - pattern.len(),
                    assets[j].name@.len() as int,
                ) == pattern),
            None => forall|j: int|
                0 <= j < assets.len() ==> !(pattern.len() <= (#[trigger] assets[j]).name@.len()
                    && assets[j].name@.subrange(
                    assets[j].name@.len() - pattern.len(),
                    assets[j].name@.len() as int,
                ) == pattern),
        },
{
    let f = fits(pattern, CoreAssetFormat::Zip);
    lemma_first_index_found(assets, f);
    assert forall|j: int| 0 <= j < assets.len() implies f(#[trigger] assets[j]) == (pattern.len()
        <= assets[j].name@.len() && assets[j].name@.subrange(
        assets[j].name@.len() - pattern.len(),
        assets[j].name@.len() as int,
    ) == pattern) by {
        let n = assets[j].name@;
        if pattern.len() <= n.len() {
            assert(n.skip(n.len() - pattern.len()) =~= n.subrange(
                n.len() - pattern.len(),
                n.len() as int,
            ));
        }
    }
}

/// The bare executable picked is the first asset named exactly as the
/// pattern; none is picked only when no asset has that name.
pub proof fn law_exe_asset_is_named_pattern(assets: Seq<GhAsset>, pattern: Seq<char>)
    ensures
        match first_index(assets, fits(pattern, CoreAssetFormat::Exe)) {
            Some(i) => 0 <= i < assets.len() && assets[i].name@ == pattern && forall|j: int|
                0 <= j < i ==> (#[trigger] assets[j]).name@ != pattern,
            None => forall|j: int| 0 <= j < assets.len() ==> (#[trigger] assets[j]).name@ != pattern,
        },
{
    let f = fits(pattern, CoreAssetFormat::Exe);
    lemma_first_index_found(assets, f);
    assert forall|j: int| 0 <= j < assets.len() implies f(#[trigger] assets[j]) == (
    assets[j].name@ == pattern) by {}
}

// ---------------------------------------------------------------------------
// Download mirrors and release URLs.
// ---------------------------------------------------------------------------

/// The URL that a download goes to: with a mirror (ghproxy style) its trimmed
/// prefix without trailing slashes, a slash, then the whole asset URL;
/// without one (or with a blank one) the asset URL itself.
pub open spec fn spec_apply_mirror(mirror: Option<Seq<char>>, url: Seq<char>) -> Seq<char> {
    match mirror {
        Some(m) => if trim(m).len() > 0 {
            drop_trailing(trim(m), class_pred(CharClass::Slash)) + "/"@ + url
        } else {
            url
        },
        None => url,
    }
}

/// Rewrites `url` to go through the download `mirror`, if one is set.
pub fn apply_mirror(mirror: &Option<String>, url: &str) -> (r: String)
    ensures
        r@ == spec_apply_mirror(
            match mirror {
                Some(m) => Some(m@),
                None => None,
            },
            url@,
        ),
{
    match mirror {
        Some(m) => {
            let ms = m.as_str();
            let v = chars_of(ms);
            assert(v@.subrange(0, v.len() as int) =~= v@);
            let (a, b) = trim_bounds(&v, 0, v.len());
            if a == b {
                String::from_str(url)
            } else {
                let c = run_start_back(&v, a, b, CharClass::Slash);
                concat3(ms.substring_char(a, c), "/", url)
            }
        },
        None => String::from_str(url),
    }
}

/// A download always goes to a URL that ends with the whole asset URL,
/// and without a (non-blank) mirror to the asset URL itself.
pub proof fn law_mirror_keeps_asset_url(mirror: Option<Seq<char>>, url: Seq<char>)
    ensures
        ends_with(spec_apply_mirror(mirror, url), url),
        (mirror is None || trim(mirror->0).len() == 0) ==> spec_apply_mirror(mirror, url) == url,
{
    let r = spec_apply_mirror(mirror, url);
    assert(r.skip(r.len() - url.len()) =~= url);
}

/// Through a non-blank mirror, a download goes to the trimmed mirror with
/// all of its trailing slashes removed, then a single `'/'`, then the whole
/// asset URL.
pub proof fn law_mirror_joins_with_one_slash(m: Seq<char>, url: Seq<char>)
    requires
        trim(m).len() > 0,
    ensures
        ({
            let r = spec_apply_mirror(Some(m), url);
            let t = trim(m);
            let k = r.len() - url.len() - 1;
            &&& 0 <= k <= t.len()
            &&& r == t.take(k) + seq!['/'] + url
            &&& forall|j: int| k <= j < t.len() ==> #[trigger] t[j] == '/'
            &&& k > 0 ==> t[k - 1] != '/'
        }),
{
    let t = trim(m);
    let sl = class_pred(CharClass::Slash);
    let d = drop_trailing(t, sl);
    lemma_drop_trailing_suffix(t, sl);
    lemma_drop_trailing_stops(t, sl);
    let k = d.len() as int;
    assert forall|j: int| k <= j < t.len() implies #[trigger] t[j] == '/' by {
        assert(t.skip(k)[j - k] == t[j]);
        assert(sl(t.skip(k)[j - k]));
    }
    if k > 0 {
        assert(d.last() == t[k - 1]);
    }
    reveal_strlit("/");
    assert("/"@ =~= seq!['/']);
    let r = spec_apply_mirror(Some(m), url);
    assert(r == d + seq!['/'] + url);
    assert(r.len() - url.len() - 1 == k);
}

/// The GitHub API URL of the latest release of `repo`.
pub fn latest_release_url(repo: &str) -> (r: String)
    ensures
        r@ == GITHUB_API_REPOS@ + repo@ + LATEST_RELEASE_PATH@,
{
    concat3(GITHUB_API_REPOS, repo, LATEST_RELEASE_PATH)
}

/// The API URL, release source and asset pattern of a core update check:
/// `testing` and `latest` read a page of the release list (100 releases for
/// `latest`, 10 for `testing`), any other channel the latest release.
pub open spec fn spec_plan_core_check(
    repo: Seq<char>,
    channel: Seq<char>,
    fmt: CoreAssetFormat,
    arch: Seq<char>,
) -> Result<(Seq<char>, ReleaseSource, Seq<char>), Seq<char>> {
    let repo = trim(repo);
    if !spec_valid_repo(repo) {
        Err(MSG_BAD_REPO@)
    } else {
        match spec_asset_pattern(fmt, arch) {
            Err(e) => Err(e),
            Ok(pattern) => if channel == "latest"@ {
                Ok((GITHUB_API_REPOS@ + repo + LIST_RELEASES_PATH@ + "100"@, ReleaseSource::Listing, pattern))
            } else if channel == "testing"@ {
                Ok((GITHUB_API_REPOS@ + repo + LIST_RELEASES_PATH@ + "10"@, ReleaseSource::Listing, pattern))
            } else {
                Ok((GITHUB_API_REPOS@ + repo + LATEST_RELEASE_PATH@, ReleaseSource::Latest, pattern))
            },
        }
    }
}

/// Plans a core update check for `repo` on `channel` (an absent format means zip).
pub fn plan_core_check(
    repo: &str,
    channel: &str,
    asset_format: Option<CoreAssetFormat>,
    arch: &str,
) -> (r: Result<CoreCheckPlan, String>)
    ensures
        ({
            let fmt = match asset_format {
                Some(f) => f,
                None => CoreAssetFormat::Zip,
            };
            match r {
                Ok(plan) => plan.asset_format == fmt && spec_plan_core_check(
                    repo@,
                    channel@,
                    fmt,
                    arch@,
                ) == Ok::<(Seq<char>, ReleaseSource, Seq<char>), Seq<char>>(
                    (plan.url@, plan.source, plan.pattern@),
                ),
                Err(e) => spec_plan_core_check(repo@, channel@, fmt, arch@) == Err::<
                    (Seq<char>, ReleaseSource, Seq<char>),
                    Seq<char>,
                >(e@),
            }
        }),
{
    let repo = crate::text::trim_str(repo);
    validate_repo(repo)?;
    let fmt = match asset_format {
        Some(f) => f,
        None => CoreAssetFormat::Zip,
    };
    let pattern = windows_asset_pattern(fmt, arch)?;
    if str_equal(channel, "latest") {
        let mut url = concat3(GITHUB_API_REPOS, repo, LIST_RELEASES_PATH);
        url.append("100");
        Ok(CoreCheckPlan { url, source: ReleaseSource::Listing, pattern, asset_format: fmt })
    } else if str_equal(channel, "testing") {
        let mut url = concat3(GITHUB_API_REPOS, repo, LIST_RELEASES_PATH);
        url.append("10");
        Ok(CoreCheckPlan { url, source: ReleaseSource::Listing, pattern, asset_format: fmt })
    } else {
        Ok(
            CoreCheckPlan {
                url: latest_release_url(repo),
                source: ReleaseSource::Latest,
                pattern,
                asset_format: fmt,
            },
        )
    }
}

// ---------------------------------------------------------------------------
// Replies of the GitHub API.
// ---------------------------------------------------------------------------

/// How a GitHub API reply is handled, by its status code.
pub enum GithubReply {
    /// A success status: the body is the answer.
    Accept,
    /// 403: the body tells a rate limit from a refusal.
    ReadBody,
    /// Any other failure, with its message.
    Reject(String),
}

pub const MSG_NOT_FOUND: &'static str = "仓库不存在或没有发布版本";

pub const MSG_API_ERROR: &'static str = "GitHub API 返回错误: ";

pub const MSG_RATE_LIMITED: &'static str = "GitHub API 限流，请稍后再试";

pub const MSG_FORBIDDEN: &'static str = "GitHub API 拒绝访问 (403)";

/// Decides on a GitHub API reply with status `code`, shown as `status_text`.
pub fn github_reply(code: u16, status_text: &str) -> (r: GithubReply)
    ensures
        code == 403 ==> r is ReadBody,
        code == 404 ==> (r matches GithubReply::Reject(e) && e@ == MSG_NOT_FOUND@),
        code != 403 && code != 404 && !(200 <= code <= 299) ==> (r matches GithubReply::Reject(e)
            && e@ == MSG_API_ERROR@ + status_text@),
        200 <= code <= 299 ==> r is Accept,
{
    if code == 403 {
        GithubReply::ReadBody
    } else if code == 404 {
        GithubReply::Reject(String::from_str(MSG_NOT_FOUND))
    } else if code < 200 || code > 299 {
        let mut e = String::from_str(MSG_API_ERROR);
        e.append(status_text);
        GithubReply::Reject(e)
    } else {
        GithubReply::Accept
    }
}

/// Whether `needle` occurs in `hay`.
pub fn str_contains(hay: &str, needle: &str) -> (r: bool)
    ensures
        r == contains(hay@, needle@),
{
    let v = chars_of(hay);
    let w = chars_of(needle);
    let m = w.len();
    assert(w@.subrange(0, m as int) =~= w@);
    if m > v.len() {
        return false;
    }
    let mut i: usize = 0;
    loop
        invariant
            m == needle@.len(),
            w@ == needle@,
            w@.subrange(0, m as int) == w@,
            v@ == hay@,
            m <= v.len(),
            i <= v.len() - m,
            forall|j: int| 0 <= j < i ==> #[trigger] hay@.subrange(j, j + m) != needle@,
        decreases v.len() - i,
    {
        if ranges_equal(&v, i, i + m, &w, 0, m, false) {
            assert(hay@.subrange(i as int, i + m) == needle@);
            return true;
        }
        assert(hay@.subrange(i as int, i + m) != needle@);
        if i == v.len() - m {
            return false;
        }
        i = i + 1;
    }
}

/// The error for a 403 reply whose body is `body`.
pub fn forbidden_message(body: &str) -> (r: String)
    ensures
        r@ == (if contains(body@, "rate limit"@) {
            MSG_RATE_LIMITED@
        } else {
            MSG_FORBIDDEN@
        }),
{
    if str_contains(body, "rate limit") {
        String::from_str(MSG_RATE_LIMITED)
    } else {
        String::from_str(MSG_FORBIDDEN)
    }
}

} // verus!
