//! The files of a core update in the staging directory: the downloaded
//! asset, what an archive contributes, the manifest that lets an install
//! reuse what a consistency check prepared, and the checks on the download
//! and on the new core's version output.

use vstd::prelude::*;
use crate::release::{CoreAssetFormat, CORE_EXE_NAME};
use crate::text::{
    chars_of, class_pred, concat3, decimal, decimal_string, drop_trailing, eq_ignore_ascii_case,
    err_view, leading, lemma_drop_trailing_suffix, ranges_equal, run_end, run_start_back,
    str_eq_ignore_ascii_case, str_equal, trim, trim_str, CharClass,
};

verus! {

/// The file in the staging directory that a download of `fmt` is written to.
pub open spec fn spec_downloaded_name(fmt: CoreAssetFormat) -> Seq<char> {
    match fmt {
        CoreAssetFormat::Zip => "core.zip"@,
        CoreAssetFormat::Exe => CORE_EXE_NAME@,
    }
}

/// The name, inside the staging directory, of the downloaded asset: a bare
/// executable is downloaded straight to `sing-box.exe`.
pub fn downloaded_asset_path(asset_format: CoreAssetFormat) -> (r: &'static str)
    ensures
        r@ == spec_downloaded_name(asset_format),
{
    match asset_format {
        CoreAssetFormat::Zip => "core.zip",
        CoreAssetFormat::Exe => CORE_EXE_NAME,
    }
}

/// What remains to be done with a download before it can be installed.
pub enum CorePreparation {
    /// The archive is to be extracted (see `CoreExtraction`).
    ExtractArchive,
    /// The core is in place; these DLLs come with it.
    Ready(Vec<String>),
}

pub const MSG_EXE_MISSING: &'static str = "下载的资产中未找到 sing-box.exe";

pub const MSG_ARCHIVE_WITHOUT_EXE: &'static str = "压缩包内未找到 sing-box.exe";

/// Prepares the downloaded asset of format `asset_format`; `downloaded_is_file`
/// tells whether the downloaded file exists.
pub fn prepare_core_files(asset_format: CoreAssetFormat, downloaded_is_file: bool) -> (r: Result<
    CorePreparation,
    String,
>)
    ensures
        asset_format == CoreAssetFormat::Zip ==> r matches Ok(CorePreparation::ExtractArchive),
        asset_format == CoreAssetFormat::Exe && downloaded_is_file ==> (r matches Ok(
            CorePreparation::Ready(d),
        ) && d@.len() == 0),
        asset_format == CoreAssetFormat::Exe && !downloaded_is_file ==> (r matches Err(e) && e@
            == MSG_EXE_MISSING@),
{
    match asset_format {
        CoreAssetFormat::Zip => Ok(CorePreparation::ExtractArchive),
        CoreAssetFormat::Exe => {
            if downloaded_is_file {
                Ok(CorePreparation::Ready(Vec::new()))
            } else {
                Err(String::from_str(MSG_EXE_MISSING))
            }
        },
    }
}

// ---------------------------------------------------------------------------
// Archive entries.
// ---------------------------------------------------------------------------

/// The last component of an archive path, after its last `'/'` or `'\\'`.
pub open spec fn file_name_of(path: Seq<char>) -> Seq<char> {
    path.skip(drop_trailing(path, class_pred(CharClass::NotPathSeparator)).len() as int)
}

/// A file name that stays inside the directory it is joined to: it holds no
/// `'/'`, no `'\\'` and no `':'` (so no drive prefix).
pub open spec fn is_plain_file_name(name: Seq<char>) -> bool {
    forall|i: int| 0 <= i < name.len() ==> #[trigger] name[i] != '/' && name[i] != '\\'
        && name[i] != ':'
}

/// The name holds a `':'`.
pub open spec fn has_colon(name: Seq<char>) -> bool {
    exists|i: int| 0 <= i < name.len() && #[trigger] name[i] == ':'
}

/// The file name of an archive path holds no path separator.
pub proof fn law_file_name_has_no_separator(path: Seq<char>)
    ensures
        forall|i: int|
            0 <= i < file_name_of(path).len() ==> #[trigger] file_name_of(path)[i] != '/'
                && file_name_of(path)[i] != '\\',
{
    let p = class_pred(CharClass::NotPathSeparator);
    lemma_drop_trailing_suffix(path, p);
    let n = file_name_of(path);
    assert forall|i: int| 0 <= i < n.len() implies #[trigger] n[i] != '/' && n[i] != '\\' by {
        assert(p(n[i]));
    }
}

/// A name that ends in `.dll`, in any ASCII case.
pub open spec fn is_dll_name(name: Seq<char>) -> bool {
    name.len() >= 4 && eq_ignore_ascii_case(name.skip(name.len() - 4), ".dll"@)
}

/// Where an archive entry goes.
pub enum ZipEntryTarget {
    /// Not extracted: a directory, neither the core nor a DLL, or a DLL name
    /// with a `':'` (a drive prefix would lead out of the staging directory).
    Skip,
    /// The core executable, written as `sing-box.exe`.
    CoreExe,
    /// A DLL that the core needs, written under its own file name.
    Dll(String),
}

/// The file name of the archive entry `entry_name`, wherever the entry sits
/// in the archive (so no entry can escape the staging directory).
pub fn entry_file_name(entry_name: &str) -> (r: &str)
    ensures
        r@ == file_name_of(entry_name@),
{
    let v = chars_of(entry_name);
    let n = v.len();
    assert(v@.subrange(0, n as int) =~= v@);
    let k = run_start_back(&v, 0, n, CharClass::NotPathSeparator);
    assert(v@.subrange(k as int, n as int) =~= v@.skip(k as int));
    entry_name.substring_char(k, n)
}

/// Whether `name` ends in `.dll`, in any ASCII case.
pub fn is_dll(name: &str) -> (r: bool)
    ensures
        r == is_dll_name(name@),
{
    let v = chars_of(name);
    let n = v.len();
    if n < 4 {
        return false;
    }
    let d = chars_of(".dll");
    proof {
        reveal_strlit(".dll");
    }
    assert(d@.subrange(0, 4) =~= d@);
    assert(v@.subrange(n - 4, n as int) =~= v@.skip(n - 4));
    ranges_equal(&v, n - 4, n, &d, 0, 4, true)
}

/// Records which files of a core archive were extracted.
pub struct CoreExtraction {
    pub found_exe: bool,
    pub dlls: Vec<String>,
}

impl CoreExtraction {
    pub fn new() -> (r: Self)
        ensures
            !r.found_exe,
            r.dlls@.len() == 0,
    {
        CoreExtraction { found_exe: false, dlls: Vec::new() }
    }

    /// Decides where the archive entry `entry_name` goes and records it.
    pub fn note_entry(&mut self, entry_name: &str, is_dir: bool) -> (t: ZipEntryTarget)
        ensures
            ({
                let name = file_name_of(entry_name@);
                &&& is_dir ==> t is Skip
                &&& !is_dir && eq_ignore_ascii_case(name, CORE_EXE_NAME@) ==> t is CoreExe
                &&& !is_dir && !eq_ignore_ascii_case(name, CORE_EXE_NAME@) && is_dll_name(name)
                    && !has_colon(name) ==> (t matches ZipEntryTarget::Dll(d) && d@ == name)
                &&& !is_dir && !eq_ignore_ascii_case(name, CORE_EXE_NAME@) && (!is_dll_name(name)
                    || has_colon(name)) ==> t is Skip
                &&& t matches ZipEntryTarget::Dll(d) ==> is_plain_file_name(d@)
            }),
            final(self).found_exe == (old(self).found_exe || t is CoreExe),
            final(self).dlls@ == match t {
                ZipEntryTarget::Dll(d) => old(self).dlls@.push(d),
                _ => old(self).dlls@,
            },
    {
        if is_dir {
            return ZipEntryTarget::Skip;
        }
        let name = entry_file_name(entry_name);
        proof {
            law_file_name_has_no_separator(entry_name@);
        }
        let chars = chars_of(name);
        let colon_at = run_end(&chars, 0, chars.len(), CharClass::NotColon);
        assert(chars@.subrange(0, chars.len() as int) =~= chars@);
        proof {
            if colon_at < chars.len() {
                assert(name@[colon_at as int] == ':');
            }
        }
        if str_eq_ignore_ascii_case(name, CORE_EXE_NAME) {
            self.found_exe = true;
            ZipEntryTarget::CoreExe
        } else if is_dll(name) && colon_at == chars.len() {
            let dll = String::from_str(name);
            self.dlls.push(dll.clone());
            ZipEntryTarget::Dll(dll)
        } else {
            ZipEntryTarget::Skip
        }
    }

    /// The DLLs extracted with the core, or an error when the archive held
    /// no core executable.
    pub fn finish(self) -> (r: Result<Vec<String>, String>)
        ensures
            self.found_exe ==> r == Ok::<Vec<String>, String>(self.dlls),
            !self.found_exe ==> (r matches Err(e) && e@ == MSG_ARCHIVE_WITHOUT_EXE@),
    {
        if self.found_exe {
            Ok(self.dlls)
        } else {
            Err(String::from_str(MSG_ARCHIVE_WITHOUT_EXE))
        }
    }
}

// ---------------------------------------------------------------------------
// The staging manifest.
// ---------------------------------------------------------------------------

/// What a consistency check left in the staging directory for a later install.
pub struct StagedCore {
    pub asset_url: String,
    pub asset_size: u64,
    pub asset_format: CoreAssetFormat,
    pub exe_hash: String,
    pub dlls: Vec<String>,
}

/// The staged files were prepared from the asset `url` of `size` bytes in
/// the format `fmt`.
pub open spec fn spec_staged_matches(
    staged: StagedCore,
    url: Seq<char>,
    size: u64,
    fmt: CoreAssetFormat,
) -> bool {
    staged.asset_url@ == url && staged.asset_size == size && staged.asset_format == fmt
}

/// The DLLs of a staged core that can be installed as it is: the hash of the
/// staged executable (if it could be computed) equals the manifest's, and
/// every DLL of the manifest is present.
pub open spec fn spec_reusable_dlls(
    staged: StagedCore,
    exe_hash: Option<Seq<char>>,
    dlls_present: bool,
) -> Option<Vec<String>> {
    match exe_hash {
        Some(h) => if h == staged.exe_hash@ && dlls_present {
            Some(staged.dlls)
        } else {
            None
        },
        None => None,
    }
}

/// The manifest that the consistency probe leaves for the asset it prepared.
pub fn staged_manifest(
    asset_url: &str,
    asset_size: u64,
    asset_format: CoreAssetFormat,
    exe_hash: String,
    dlls: Vec<String>,
) -> (s: StagedCore)
    ensures
        s.asset_url@ == asset_url@,
        s.asset_size == asset_size,
        s.asset_format == asset_format,
        s.exe_hash == exe_hash,
        s.dlls == dlls,
{
    StagedCore { asset_url: String::from_str(asset_url), asset_size, asset_format, exe_hash, dlls }
}

/// Whether the staged files were prepared from the same asset.
pub fn staged_matches(
    staged: &StagedCore,
    asset_url: &str,
    asset_size: u64,
    asset_format: CoreAssetFormat,
) -> (r: bool)
    ensures
        r == spec_staged_matches(*staged, asset_url@, asset_size, asset_format),
{
    str_equal(staged.asset_url.as_str(), asset_url) && staged.asset_size == asset_size
        && staged.asset_format == asset_format
}

/// The DLLs of a staged core that can be installed as it is
/// (see `spec_reusable_dlls`).
pub fn accept_staged(staged: StagedCore, exe_hash: Option<&str>, dlls_present: bool) -> (r: Option<
    Vec<String>,
>)
    ensures
        r == spec_reusable_dlls(
            staged,
            match exe_hash {
                Some(h) => Some(h@),
                None => None,
            },
            dlls_present,
        ),
{
    match exe_hash {
        Some(h) => {
            if str_equal(h, staged.exe_hash.as_str()) && dlls_present {
                Some(staged.dlls)
            } else {
                None
            }
        },
        None => None,
    }
}

/// A manifest that the consistency probe wrote for an asset is accepted by a
/// later install of the same asset, as long as the staged executable still
/// has the recorded hash and its DLLs are present, and it gives back the DLL
/// list that the probe prepared.
pub proof fn law_probe_manifest_is_reused(
    staged: StagedCore,
    url: Seq<char>,
    size: u64,
    fmt: CoreAssetFormat,
)
    requires
        staged.asset_url@ == url,
        staged.asset_size == size,
        staged.asset_format == fmt,
    ensures
        spec_staged_matches(staged, url, size, fmt),
        spec_reusable_dlls(staged, Some(staged.exe_hash@), true) == Some(staged.dlls),
{
}

// ---------------------------------------------------------------------------
// Downloads, targets and the new core's version.
// ---------------------------------------------------------------------------

pub const MSG_INCOMPLETE_BEFORE: &'static str = "下载文件不完整（";

pub const MSG_INCOMPLETE_MIDDLE: &'static str = " / ";

pub const MSG_INCOMPLETE_AFTER: &'static str = " 字节）";

/// Checks that a download of `downloaded` bytes is complete; a zero
/// `expected_size` means the size is unknown and any length is accepted.
pub fn check_download_complete(expected_size: u64, downloaded: u64) -> (r: Result<(), String>)
    ensures
        err_view(r) == (if expected_size > 0 && downloaded != expected_size {
            Err(
                MSG_INCOMPLETE_BEFORE@ + decimal(downloaded as nat) + MSG_INCOMPLETE_MIDDLE@
                    + decimal(expected_size as nat) + MSG_INCOMPLETE_AFTER@,
            )
        } else {
            Ok(())
        }),
{
    if expected_size > 0 && downloaded != expected_size {
        let got = decimal_string(downloaded);
        let want = decimal_string(expected_size);
        let mut e = concat3(MSG_INCOMPLETE_BEFORE, got.as_str(), MSG_INCOMPLETE_MIDDLE);
        e.append(want.as_str());
        e.append(MSG_INCOMPLETE_AFTER);
        Err(e)
    } else {
        Ok(())
    }
}

pub const MSG_NO_CORE_PATH: &'static str = "请先在服务配置中设置 sing-box 路径";

/// The configured core path, trimmed, or the error when none is set.
pub fn core_target_path(singbox_path: &str) -> (r: Result<&str, String>)
    ensures
        trim(singbox_path@).len() > 0 ==> (r matches Ok(p) && p@ == trim(singbox_path@)),
        trim(singbox_path@).len() == 0 ==> (r matches Err(e) && e@ == MSG_NO_CORE_PATH@),
{
    let p = trim_str(singbox_path);
    if p.is_empty() {
        Err(String::from_str(MSG_NO_CORE_PATH))
    } else {
        Ok(p)
    }
}

/// The first line of `out` (`str::lines`): the text before the first `'\n'`,
/// without a `'\r'` that ends it; `"unknown"` when `out` is empty.
pub open spec fn spec_first_line(out: Seq<char>) -> Seq<char> {
    if out.len() == 0 {
        "unknown"@
    } else {
        let l = leading(out, class_pred(CharClass::NotNewline));
        if l.len() < out.len() && l.len() > 0 && l.last() == '\r' {
            l.drop_last()
        } else {
            l
        }
    }
}

/// The version line of the new core's `version` output.
pub fn first_output_line(out: &str) -> (r: String)
    ensures
        r@ == spec_first_line(out@),
{
    let v = chars_of(out);
    let n = v.len();
    if n == 0 {
        return String::from_str("unknown");
    }
    assert(v@.subrange(0, n as int) =~= v@);
    let e = run_end(&v, 0, n, CharClass::NotNewline);
    let end = if e < n && e > 0 && v[e - 1] == '\r' {
        e - 1
    } else {
        e
    };
    if e > 0 {
        assert(v@.subrange(0, e as int).drop_last() =~= v@.subrange(0, e - 1));
    }
    String::from_str(out.substring_char(0, end))
}

} // verus!
