use singboard::core_files::{
    accept_staged, check_download_complete, core_target_path, downloaded_asset_path,
    staged_manifest,
    entry_file_name, first_output_line, prepare_core_files, staged_matches, CoreExtraction,
    CorePreparation, StagedCore, ZipEntryTarget, MSG_ARCHIVE_WITHOUT_EXE, MSG_EXE_MISSING,
    MSG_NO_CORE_PATH,
};
use singboard::release::{
    apply_mirror, forbidden_message, github_reply, latest_non_draft, latest_release_url,
    pick_windows_asset, plan_core_check, validate_repo, windows_asset_pattern, CoreAssetFormat,
    GhAsset, GhRelease, GithubReply, ReleaseSource, MSG_BAD_REPO, MSG_NO_RELEASE,
};

fn asset(name: &str) -> GhAsset {
    GhAsset {
        name: name.to_string(),
        browser_download_url: format!("https://example.com/{name}"),
        size: 1,
        digest: None,
    }
}

fn release(tag: &str, draft: bool, assets: Vec<GhAsset>) -> GhRelease {
    GhRelease {
        tag_name: tag.to_string(),
        prerelease: false,
        draft,
        published_at: None,
        assets,
    }
}

#[test]
fn matches_zip_suffix_and_personal_exe_name() {
    let release = release(
        "v1",
        false,
        vec![
            asset("sing-box_windows_amd64.exe"),
            asset("sing-box-v1-windows-amd64.zip"),
        ],
    );

    let zip = pick_windows_asset(&release, "windows-amd64.zip", CoreAssetFormat::Zip)
        .expect("zip asset");
    assert_eq!(zip.asset_name, "sing-box-v1-windows-amd64.zip");

    let exe = pick_windows_asset(&release, "sing-box_windows_amd64.exe", CoreAssetFormat::Exe)
        .expect("exe asset");
    assert_eq!(exe.asset_name, "sing-box_windows_amd64.exe");
    assert_eq!(exe.asset_format, CoreAssetFormat::Exe);
}

#[test]
fn personal_channel_uses_latest_non_draft_release() {
    let releases = vec![
        release("draft", true, Vec::new()),
        release("v1.14.0-beta.10", false, Vec::new()),
    ];

    let selected = latest_non_draft(releases).expect("non-draft release");
    assert_eq!(selected.tag_name, "v1.14.0-beta.10");
}

#[test]
fn maps_personal_asset_names_by_architecture() {
    assert_eq!(
        windows_asset_pattern(CoreAssetFormat::Exe, "x86_64").unwrap(),
        "sing-box_windows_amd64.exe"
    );
    assert_eq!(
        windows_asset_pattern(CoreAssetFormat::Exe, "aarch64").unwrap(),
        "sing-box_windows_arm64.exe"
    );
}

#[test]
fn maps_zip_patterns_and_rejects_other_architectures() {
    assert_eq!(windows_asset_pattern(CoreAssetFormat::Zip, "x86_64"), Ok("windows-amd64.zip"));
    assert_eq!(windows_asset_pattern(CoreAssetFormat::Zip, "aarch64"), Ok("windows-arm64.zip"));
    assert_eq!(
        windows_asset_pattern(CoreAssetFormat::Zip, "x86"),
        Err("不支持的 CPU 架构: x86".to_string())
    );
    assert_eq!(CoreAssetFormat::default(), CoreAssetFormat::Zip);
}

#[test]
fn no_release_when_all_are_drafts() {
    let releases = vec![release("a", true, Vec::new()), release("b", true, Vec::new())];
    assert_eq!(latest_non_draft(releases).err(), Some(MSG_NO_RELEASE.to_string()));
    assert_eq!(latest_non_draft(Vec::new()).err(), Some(MSG_NO_RELEASE.to_string()));
    let first = latest_non_draft(vec![release("a", false, Vec::new()), release("b", false, Vec::new())]);
    assert_eq!(first.unwrap().tag_name, "a");
}

#[test]
fn picked_asset_carries_release_fields() {
    let mut a = asset("x-windows-amd64.zip");
    a.digest = Some("sha256:ff".to_string());
    a.size = 42;
    let rel = GhRelease {
        tag_name: "v9".to_string(),
        prerelease: true,
        draft: false,
        published_at: Some("today".to_string()),
        assets: vec![asset("y-windows-arm64.zip"), a, asset("z-windows-amd64.zip")],
    };
    let info = pick_windows_asset(&rel, "windows-amd64.zip", CoreAssetFormat::Zip).unwrap();
    assert_eq!(info.version, "v9");
    assert!(info.prerelease);
    assert_eq!(info.published_at, "today");
    assert_eq!(info.asset_name, "x-windows-amd64.zip");
    assert_eq!(info.asset_url, "https://example.com/x-windows-amd64.zip");
    assert_eq!(info.asset_size, 42);
    assert_eq!(info.asset_digest, "sha256:ff");
    assert_eq!(info.asset_format, CoreAssetFormat::Zip);
}

#[test]
fn missing_asset_messages_name_the_pattern() {
    let rel = release("v1", false, vec![asset("readme.md")]);
    assert_eq!(
        pick_windows_asset(&rel, "windows-amd64.zip", CoreAssetFormat::Zip).err(),
        Some("该版本未提供适用于 windows-amd64 的资产".to_string())
    );
    assert_eq!(
        pick_windows_asset(&rel, "a.zip.zip", CoreAssetFormat::Zip).err(),
        Some("该版本未提供适用于 a 的资产".to_string())
    );
    assert_eq!(
        pick_windows_asset(&rel, "sing-box_windows_amd64.exe", CoreAssetFormat::Exe).err(),
        Some("该版本未提供资产 sing-box_windows_amd64.exe".to_string())
    );
}

#[test]
fn repo_must_be_owner_slash_name() {
    assert_eq!(validate_repo("SagerNet/sing-box"), Ok(()));
    assert_eq!(validate_repo("a_b/c.d-e"), Ok(()));
    let bad = Err(MSG_BAD_REPO.to_string());
    for r in ["", "sing-box", "/x", "x/", "a/b/c", "a b/c", "a/b?", "ä/b", "a//b"] {
        assert_eq!(validate_repo(r), bad, "{r}");
    }
}

#[test]
fn mirror_prefixes_whole_url() {
    let url = "https://github.com/o/r/releases/download/v1/a.zip";
    assert_eq!(apply_mirror(&None, url), url);
    assert_eq!(apply_mirror(&Some("   ".to_string()), url), url);
    assert_eq!(
        apply_mirror(&Some(" https://ghproxy.example/// ".to_string()), url),
        format!("https://ghproxy.example/{url}")
    );
    assert_eq!(
        apply_mirror(&Some("https://m.example".to_string()), url),
        format!("https://m.example/{url}")
    );
    assert_eq!(apply_mirror(&Some("/".to_string()), url), format!("/{url}"));
    for m in [None, Some("x".to_string()), Some("".to_string()), Some("p//".to_string())] {
        assert!(apply_mirror(&m, url).ends_with(url));
    }
}

#[test]
fn core_check_plans_by_channel() {
    let latest = plan_core_check(" SagerNet/sing-box ", "latest", None, "x86_64").unwrap();
    assert_eq!(latest.url, "https://api.github.com/repos/SagerNet/sing-box/releases?per_page=100");
    assert_eq!(latest.source, ReleaseSource::Listing);
    assert_eq!(latest.pattern, "windows-amd64.zip");
    assert_eq!(latest.asset_format, CoreAssetFormat::Zip);

    let testing =
        plan_core_check("a/b", "testing", Some(CoreAssetFormat::Exe), "aarch64").unwrap();
    assert_eq!(testing.url, "https://api.github.com/repos/a/b/releases?per_page=10");
    assert_eq!(testing.source, ReleaseSource::Listing);
    assert_eq!(testing.pattern, "sing-box_windows_arm64.exe");

    let stable = plan_core_check("a/b", "stable", None, "x86_64").unwrap();
    assert_eq!(stable.url, "https://api.github.com/repos/a/b/releases/latest");
    assert_eq!(stable.source, ReleaseSource::Latest);

    assert_eq!(plan_core_check("a", "stable", None, "x86_64").err(), Some(MSG_BAD_REPO.to_string()));
    assert_eq!(
        plan_core_check("a/b", "stable", None, "riscv64").err(),
        Some("不支持的 CPU 架构: riscv64".to_string())
    );
    assert_eq!(
        latest_release_url("o/r"),
        "https://api.github.com/repos/o/r/releases/latest"
    );
}

#[test]
fn github_replies_by_status() {
    assert!(matches!(github_reply(200, "200 OK"), GithubReply::Accept));
    assert!(matches!(github_reply(403, "403 Forbidden"), GithubReply::ReadBody));
    match github_reply(404, "404 Not Found") {
        GithubReply::Reject(m) => assert_eq!(m, "仓库不存在或没有发布版本"),
        _ => panic!("404 must be rejected"),
    }
    match github_reply(500, "500 Internal Server Error") {
        GithubReply::Reject(m) => assert_eq!(m, "GitHub API 返回错误: 500 Internal Server Error"),
        _ => panic!("500 must be rejected"),
    }
    assert_eq!(forbidden_message("API rate limit exceeded"), "GitHub API 限流，请稍后再试");
    assert_eq!(forbidden_message("denied"), "GitHub API 拒绝访问 (403)");
    assert_eq!(forbidden_message(""), "GitHub API 拒绝访问 (403)");
}

#[test]
fn downloaded_asset_names_by_format() {
    assert_eq!(downloaded_asset_path(CoreAssetFormat::Zip), "core.zip");
    assert_eq!(downloaded_asset_path(CoreAssetFormat::Exe), "sing-box.exe");
}

#[test]
fn preparing_a_download() {
    assert!(matches!(
        prepare_core_files(CoreAssetFormat::Zip, false),
        Ok(CorePreparation::ExtractArchive)
    ));
    match prepare_core_files(CoreAssetFormat::Exe, true) {
        Ok(CorePreparation::Ready(dlls)) => assert!(dlls.is_empty()),
        _ => panic!("a downloaded exe is ready"),
    }
    assert_eq!(
        prepare_core_files(CoreAssetFormat::Exe, false).err(),
        Some(MSG_EXE_MISSING.to_string())
    );
}

#[test]
fn archive_entries_are_flattened_and_filtered() {
    assert_eq!(entry_file_name("a/b\\c/sing-box.exe"), "sing-box.exe");
    assert_eq!(entry_file_name("../../evil.dll"), "evil.dll");
    assert_eq!(entry_file_name("dir/"), "");
    let mut x = CoreExtraction::new();
    assert!(matches!(x.note_entry("sing-box-1.0/", true), ZipEntryTarget::Skip));
    assert!(matches!(x.note_entry("sing-box-1.0/LICENSE", false), ZipEntryTarget::Skip));
    assert!(matches!(x.note_entry("sing-box-1.0/SING-BOX.EXE", false), ZipEntryTarget::CoreExe));
    match x.note_entry("sing-box-1.0\\libcronet.DLL", false) {
        ZipEntryTarget::Dll(n) => assert_eq!(n, "libcronet.DLL"),
        _ => panic!("a dll is extracted"),
    }
    assert!(matches!(x.note_entry(".dl", false), ZipEntryTarget::Skip));
    assert!(matches!(x.note_entry("dir/C:evil.dll", false), ZipEntryTarget::Skip));
    assert!(matches!(x.note_entry("C:\\Windows\\x:y.dll", false), ZipEntryTarget::Skip));
    assert_eq!(x.finish(), Ok(vec!["libcronet.DLL".to_string()]));

    let mut y = CoreExtraction::new();
    y.note_entry("a.dll", false);
    assert_eq!(y.finish(), Err(MSG_ARCHIVE_WITHOUT_EXE.to_string()));
}

#[test]
fn staged_files_are_reused_only_when_intact() {
    let staged = || StagedCore {
        asset_url: "https://x/a.zip".to_string(),
        asset_size: 10,
        asset_format: CoreAssetFormat::Zip,
        exe_hash: "abc".to_string(),
        dlls: vec!["libcronet.dll".to_string()],
    };
    assert!(staged_matches(&staged(), "https://x/a.zip", 10, CoreAssetFormat::Zip));
    assert!(!staged_matches(&staged(), "https://x/b.zip", 10, CoreAssetFormat::Zip));
    assert!(!staged_matches(&staged(), "https://x/a.zip", 11, CoreAssetFormat::Zip));
    assert!(!staged_matches(&staged(), "https://x/a.zip", 10, CoreAssetFormat::Exe));
    assert_eq!(accept_staged(staged(), Some("abc"), true), Some(vec!["libcronet.dll".to_string()]));
    assert_eq!(accept_staged(staged(), Some("ABC"), true), None);
    assert_eq!(accept_staged(staged(), Some("abc"), false), None);
    assert_eq!(accept_staged(staged(), None, true), None);
}

#[test]
fn download_size_is_checked_when_known() {
    assert_eq!(check_download_complete(0, 5), Ok(()));
    assert_eq!(check_download_complete(5, 5), Ok(()));
    assert_eq!(
        check_download_complete(1234567, 98),
        Err("下载文件不完整（98 / 1234567 字节）".to_string())
    );
    assert_eq!(
        check_download_complete(u64::MAX, 0),
        Err(format!("下载文件不完整（0 / {} 字节）", u64::MAX))
    );
}

#[test]
fn core_path_must_be_set() {
    assert_eq!(core_target_path("  C:\\sb\\sing-box.exe "), Ok("C:\\sb\\sing-box.exe"));
    assert_eq!(core_target_path(" \t"), Err(MSG_NO_CORE_PATH.to_string()));
}

#[test]
fn version_line_is_first_line_of_output() {
    assert_eq!(first_output_line("sing-box version 1.9.0\n\nEnvironment: go1.22"), "sing-box version 1.9.0");
    assert_eq!(first_output_line("v1\r\nrest"), "v1");
    assert_eq!(first_output_line("v1\r"), "v1\r");
    assert_eq!(first_output_line("\nx"), "");
    assert_eq!(first_output_line(""), "unknown");
    assert_eq!(first_output_line("only"), "only");
}

#[test]
fn probe_manifest_is_reused_by_install() {
    let dlls = vec!["libcronet.dll".to_string()];
    let staged = staged_manifest("https://x/a.zip", 10, CoreAssetFormat::Zip, "h1".to_string(), dlls.clone());
    assert!(staged_matches(&staged, "https://x/a.zip", 10, CoreAssetFormat::Zip));
    assert_eq!(accept_staged(staged, Some("h1"), true), Some(dlls));
}
