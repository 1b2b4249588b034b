//! Self-update of the singboard panel: where its releases live, which asset
//! is the panel, which download URLs are trusted, and what an update check
//! reports.

use vstd::prelude::*;
use crate::release::{GhAsset, GhRelease};
use crate::search::{first_index, lemma_first_index_at};
use crate::text::{
    chars_of, class_pred, drop_leading, eq_ignore_ascii_case, err_view, leading, run_end,
    str_eq_ignore_ascii_case, str_equal, string_or_empty, text_or_empty, CharClass,
};
use crate::version::{
    is_newer, same_version, spec_is_newer, spec_same_version, strip_version_prefix,
};

verus! {

/// The GitHub repository that publishes the panel.
pub const DEFAULT_PANEL_REPO: &'static str = "lingqiqi5211/singboard";

/// The name of the panel's release asset.
pub const PANEL_ASSET: &'static str = "singboard.exe";

/// The command-line flag with which a downloaded panel replaces the running one.
pub const APPLY_UPDATE_FLAG: &'static str = "--apply-update";

pub const MSG_URL_INVALID: &'static str = "面板下载地址无效";

pub const MSG_REPO_CONFIG: &'static str = "面板更新仓库配置无效";

pub const MSG_URL_UNTRUSTED: &'static str = "面板下载地址不属于受信任的发布源";

pub const MSG_NO_PANEL_ASSET: &'static str = "该版本未提供 singboard.exe 资产";

pub const MSG_RELEASE_CHANGED: &'static str = "最新发布已发生变化，请重新检查更新";

/// The repository (`owner/name`) whose releases update the panel, when the
/// build names no other; a build that names one passes it to
/// `validate_panel_asset_url_for` and `latest_release_url` itself.
pub fn panel_repo() -> (r: &'static str)
    ensures
        r@ == DEFAULT_PANEL_REPO@,
{
    DEFAULT_PANEL_REPO
}

// ---------------------------------------------------------------------------
// Download URLs.
// ---------------------------------------------------------------------------

/// The parts of a parsed absolute URL that the trust check reads.
pub struct UrlParts {
    pub scheme: String,
    pub host: Option<String>,
    pub query: Option<String>,
    pub fragment: Option<String>,
    /// The path split at `'/'` after its leading `'/'`; `None` for a URL that
    /// cannot be a base.
    pub path_segments: Option<Vec<String>>,
}

/// The model of `UrlParts`.
pub ghost struct UrlPartsView {
    pub scheme: Seq<char>,
    pub host: Option<Seq<char>>,
    pub query: Option<Seq<char>>,
    pub fragment: Option<Seq<char>>,
    pub path_segments: Option<Seq<Seq<char>>>,
}

pub open spec fn opt_text(o: Option<String>) -> Option<Seq<char>> {
    match o {
        Some(s) => Some(s@),
        None => None,
    }
}

impl View for UrlParts {
    type V = UrlPartsView;

    open spec fn view(&self) -> UrlPartsView {
        UrlPartsView {
            scheme: self.scheme@,
            host: opt_text(self.host),
            query: opt_text(self.query),
            fragment: opt_text(self.fragment),
            path_segments: match self.path_segments {
                Some(v) => Some(v@.map_values(|s: String| s@)),
                None => None,
            },
        }
    }
}

/// What `reqwest::Url::parse` makes of `text`, taken apart into the parts
/// that `UrlParts` holds; `None` when `text` is not an absolute URL.
pub uninterp spec fn parsed_url(text: Seq<char>) -> Option<UrlPartsView>;

/// Parses `text` with `reqwest::Url::parse` (the `url` crate's WHATWG parser)
/// and copies out the scheme, host, query, fragment and path segments. The
/// contract claims only that the result is `parsed_url(text)`, a function of
/// the text alone; what that parser accepts is not stated here.
#[verifier::external_body]
fn parse_url(text: &str) -> (r: Option<UrlParts>)
    ensures
        match r {
            Some(p) => parsed_url(text@) == Some(p@),
            None => parsed_url(text@) is None,
        },
{
    reqwest::Url::parse(text).ok().map(|u| UrlParts {
        scheme: u.scheme().to_string(),
        host: u.host_str().map(str::to_string),
        query: u.query().map(str::to_string),
        fragment: u.fragment().map(str::to_string),
        path_segments: u.path_segments().map(|segs| segs.map(str::to_string).collect()),
    })
}

/// A parsed URL is a download of the panel asset from the GitHub releases of
/// `owner/name`: `https://github.com/<owner>/<name>/releases/download/<tag>/singboard.exe`
/// with no query and no fragment, host, owner, name and file name compared
/// without ASCII case.
pub open spec fn trusted_panel_url(
    p: UrlPartsView,
    segs: Seq<Seq<char>>,
    owner: Seq<char>,
    name: Seq<char>,
) -> bool {
    &&& p.scheme == "https"@
    &&& p.host matches Some(h) && eq_ignore_ascii_case(h, "github.com"@)
    &&& p.query is None
    &&& p.fragment is None
    &&& segs.len() == 6
    &&& eq_ignore_ascii_case(segs[0], owner)
    &&& eq_ignore_ascii_case(segs[1], name)
    &&& segs[2] == "releases"@
    &&& segs[3] == "download"@
    &&& segs[4].len() > 0
    &&& eq_ignore_ascii_case(segs[5], PANEL_ASSET@)
}

/// The verdict on a parsed panel download URL, for the repository `repo`
/// (split at its first `'/'`).
pub open spec fn spec_panel_url_verdict(p: UrlPartsView, repo: Seq<char>) -> Result<
    (),
    Seq<char>,
> {
    let owner = leading(repo, class_pred(CharClass::NotSlash));
    if owner.len() == repo.len() {
        Err(MSG_REPO_CONFIG@)
    } else {
        match p.path_segments {
            None => Err(MSG_URL_INVALID@),
            Some(segs) => if trusted_panel_url(p, segs, owner, repo.skip(owner.len() + 1int)) {
                Ok(())
            } else {
                Err(MSG_URL_UNTRUSTED@)
            },
        }
    }
}

/// Checks a parsed download URL against the releases of `repo`.
pub fn check_panel_asset_url(url: &UrlParts, repo: &str) -> (r: Result<(), String>)
    ensures
        err_view(r) == spec_panel_url_verdict(url@, repo@),
{
    let v = chars_of(repo);
    let n = v.len();
    assert(v@.subrange(0, n as int) =~= v@);
    let e = run_end(&v, 0, n, CharClass::NotSlash);
    if e == n {
        return Err(String::from_str(MSG_REPO_CONFIG));
    }
    let owner = repo.substring_char(0, e);
    let name = repo.substring_char(e + 1, n);
    assert(name@ =~= repo@.skip(e + 1));
    let segs = match &url.path_segments {
        Some(s) => s,
        None => {
            return Err(String::from_str(MSG_URL_INVALID));
        },
    };
    let ghost sv = segs@.map_values(|s: String| s@);
    let host_ok = match &url.host {
        Some(h) => str_eq_ignore_ascii_case(h.as_str(), "github.com"),
        None => false,
    };
    let trusted = str_equal(url.scheme.as_str(), "https") && host_ok && url.query.is_none()
        && url.fragment.is_none() && segs.len() == 6 && str_eq_ignore_ascii_case(
        segs[0].as_str(),
        owner,
    ) && str_eq_ignore_ascii_case(segs[1].as_str(), name) && str_equal(
        segs[2].as_str(),
        "releases",
    ) && str_equal(segs[3].as_str(), "download") && !segs[4].as_str().is_empty()
        && str_eq_ignore_ascii_case(segs[5].as_str(), PANEL_ASSET);
    proof {
        if segs.len() == 6 {
            assert(sv[0] == segs@[0]@);
            assert(sv[1] == segs@[1]@);
            assert(sv[2] == segs@[2]@);
            assert(sv[3] == segs@[3]@);
            assert(sv[4] == segs@[4]@);
            assert(sv[5] == segs@[5]@);
        }
        assert(trusted == trusted_panel_url(url@, sv, owner@, name@));
    }
    if trusted {
        Ok(())
    } else {
        Err(String::from_str(MSG_URL_UNTRUSTED))
    }
}

/// Checks that `asset_url` downloads the panel from the GitHub releases of
/// `repo` (`owner/name`).
pub fn validate_panel_asset_url_for(asset_url: &str, repo: &str) -> (r: Result<(), String>)
    ensures
        err_view(r) == match parsed_url(asset_url@) {
            None => Err(MSG_URL_INVALID@),
            Some(p) => spec_panel_url_verdict(p, repo@),
        },
{
    match parse_url(asset_url) {
        None => Err(String::from_str(MSG_URL_INVALID)),
        Some(parts) => check_panel_asset_url(&parts, repo),
    }
}

/// Checks that `asset_url` downloads the panel from the panel's own GitHub
/// releases (those of `panel_repo()`).
pub fn validate_panel_asset_url(asset_url: &str) -> (r: Result<(), String>)
    ensures
        err_view(r) == match parsed_url(asset_url@) {
            None => Err(MSG_URL_INVALID@),
            Some(p) => spec_panel_url_verdict(p, DEFAULT_PANEL_REPO@),
        },
{
    validate_panel_asset_url_for(asset_url, panel_repo())
}

// ---------------------------------------------------------------------------
// Releases of the panel.
// ---------------------------------------------------------------------------

/// The predicate of assets that are the panel executable (name compared
/// without ASCII case).
pub open spec fn is_panel_asset() -> spec_fn(GhAsset) -> bool {
    |a: GhAsset| eq_ignore_ascii_case(a.name@, PANEL_ASSET@)
}

/// The panel executable among the assets of `release`: the first one named
/// `singboard.exe`, ignoring ASCII case.
pub fn panel_asset(release: &GhRelease) -> (r: Result<&GhAsset, String>)
    ensures
        match first_index(release.assets@, is_panel_asset()) {
            Some(i) => r matches Ok(a) && *a == release.assets@[i],
            None => r matches Err(e) && e@ == MSG_NO_PANEL_ASSET@,
        },
{
    let mut i: usize = 0;
    while i < release.assets.len()
        invariant
            i <= release.assets.len(),
            forall|j: int| 0 <= j < i ==> !is_panel_asset()(#[trigger] release.assets@[j]),
        decreases release.assets.len() - i,
    {
        let hit = str_eq_ignore_ascii_case(release.assets[i].name.as_str(), PANEL_ASSET);
        assert(hit == is_panel_asset()(release.assets@[i as int]));
        if hit {
            proof {
                lemma_first_index_at(release.assets@, is_panel_asset(), i as int);
            }
            return Ok(&release.assets[i]);
        }
        i = i + 1;
    }
    proof {
        lemma_first_index_at(release.assets@, is_panel_asset(), i as int);
    }
    Err(String::from_str(MSG_NO_PANEL_ASSET))
}

/// What a panel update check reports.
pub struct PanelUpdateInfo {
    pub current_version: String,
    pub latest_version: String,
    pub has_update: bool,
    /// Same version, but the local executable does not match the release asset hash.
    pub out_of_sync: bool,
    pub published_at: String,
    pub asset_url: String,
    pub asset_size: u64,
    pub asset_digest: String,
}

/// `info` reports the panel asset `asset` of `release` to a panel running
/// `current`, before the local executable has been compared with it.
pub open spec fn reports_panel_release(
    info: PanelUpdateInfo,
    release: GhRelease,
    asset: GhAsset,
    current: Seq<char>,
) -> bool {
    &&& info.current_version@ == current
    &&& info.latest_version@ == drop_leading(release.tag_name@, class_pred(CharClass::VersionPrefix))
    &&& info.has_update == spec_is_newer(info.latest_version@, current)
    &&& !info.out_of_sync
    &&& info.published_at@ == text_or_empty(release.published_at)
    &&& info.asset_url@ == asset.browser_download_url@
    &&& info.asset_size == asset.size
    &&& info.asset_digest@ == text_or_empty(asset.digest)
}

/// The report of a panel update check on `release` for a panel running
/// `current_version`.
pub fn panel_update_info(release: &GhRelease, current_version: &str) -> (r: Result<
    PanelUpdateInfo,
    String,
>)
    ensures
        match first_index(release.assets@, is_panel_asset()) {
            Some(i) => r matches Ok(info) && reports_panel_release(
                info,
                *release,
                release.assets@[i],
                current_version@,
            ),
            None => r matches Err(e) && e@ == MSG_NO_PANEL_ASSET@,
        },
{
    let asset = panel_asset(release)?;
    let latest = strip_version_prefix(release.tag_name.as_str());
    let has_update = is_newer(latest, current_version);
    Ok(
        PanelUpdateInfo {
            current_version: String::from_str(current_version),
            latest_version: String::from_str(latest),
            has_update,
            out_of_sync: false,
            published_at: string_or_empty(&release.published_at),
            asset_url: asset.browser_download_url.clone(),
            asset_size: asset.size,
            asset_digest: string_or_empty(&asset.digest),
        },
    )
}

impl PanelUpdateInfo {
    /// Records whether the local executable differs from the release asset;
    /// the difference counts only when the release names the same version as
    /// the running build.
    pub fn record_local_check(&mut self, local_differs: bool)
        ensures
            final(self).out_of_sync == (spec_same_version(
                old(self).latest_version@,
                old(self).current_version@,
            ) && local_differs),
            final(self).has_update == old(self).has_update,
            final(self).current_version == old(self).current_version,
            final(self).latest_version == old(self).latest_version,
            final(self).published_at == old(self).published_at,
            final(self).asset_url == old(self).asset_url,
            final(self).asset_size == old(self).asset_size,
            final(self).asset_digest == old(self).asset_digest,
    {
        self.out_of_sync = same_version(self.latest_version.as_str(), self.current_version.as_str())
            && local_differs;
    }

    /// Whether the local executable has to be hashed: only when the release
    /// names the same version as the running build and carries a digest.
    pub fn needs_local_check(&self) -> (r: bool)
        ensures
            r == (spec_same_version(self.latest_version@, self.current_version@)
                && crate::digest::spec_digest_hash(self.asset_digest@) is Some),
    {
        same_version(self.latest_version.as_str(), self.current_version.as_str())
            && crate::digest::digest_hash(self.asset_digest.as_str()).is_some()
    }
}

/// Checks that the asset a user asked to install is still the one that the
/// latest release offers (same URL, size and digest).
pub fn request_matches_release(
    trusted: &GhAsset,
    asset_url: &str,
    asset_size: u64,
    asset_digest: &str,
) -> (r: Result<(), String>)
    ensures
        err_view(r) == (if trusted.browser_download_url@ == asset_url@ && trusted.size
            == asset_size && text_or_empty(trusted.digest) == asset_digest@ {
            Ok(())
        } else {
            Err(MSG_RELEASE_CHANGED@)
        }),
{
    let digest = string_or_empty(&trusted.digest);
    if str_equal(trusted.browser_download_url.as_str(), asset_url) && trusted.size == asset_size
        && str_equal(digest.as_str(), asset_digest) {
        Ok(())
    } else {
        Err(String::from_str(MSG_RELEASE_CHANGED))
    }
}

} // verus!
