use singboard::overwrite::{OverwriteAction, OverwriteEvent, PanelOverwrite, Retry};
use singboard::panel::{
    check_panel_asset_url, panel_asset, panel_repo, panel_update_info, request_matches_release,
    validate_panel_asset_url, validate_panel_asset_url_for, UrlParts, MSG_NO_PANEL_ASSET,
    MSG_RELEASE_CHANGED, MSG_REPO_CONFIG, MSG_URL_INVALID, MSG_URL_UNTRUSTED, PANEL_ASSET,
};
use singboard::release::{GhAsset, GhRelease};

fn asset(name: &str, digest: Option<&str>) -> GhAsset {
    GhAsset {
        name: name.to_string(),
        browser_download_url: format!("https://example.com/{name}"),
        size: 7,
        digest: digest.map(|d| d.to_string()),
    }
}

fn release(tag: &str, assets: Vec<GhAsset>) -> GhRelease {
    GhRelease {
        tag_name: tag.to_string(),
        prerelease: false,
        draft: false,
        published_at: Some("2024-01-01T00:00:00Z".to_string()),
        assets,
    }
}

#[test]
fn panel_repo_has_owner_and_name() {
    let mut parts = panel_repo().split('/');
    assert!(parts.next().is_some_and(|part| !part.is_empty()));
    assert!(parts.next().is_some_and(|part| !part.is_empty()));
    assert!(parts.next().is_none());
}

#[test]
fn accepts_asset_from_configured_repo() {
    let url = format!(
        "https://github.com/{}/releases/download/v3.3.1/{}",
        panel_repo(),
        PANEL_ASSET
    );
    assert!(validate_panel_asset_url(&url).is_ok());
}

#[test]
fn rejects_asset_outside_configured_repo() {
    assert!(
        validate_panel_asset_url(
            "https://github.com/untrusted/project/releases/download/v3.3.1/singboard.exe"
        )
        .is_err()
    );
    assert!(
        validate_panel_asset_url(
            "http://github.com/lingqiqi5211/singboard/releases/download/v3.3.1/singboard.exe"
        )
        .is_err()
    );
}

#[test]
fn panel_url_checks_each_part() {
    let base = "https://github.com/lingqiqi5211/singboard/releases/download/v3.3.1/singboard.exe";
    assert_eq!(validate_panel_asset_url(base), Ok(()));
    assert_eq!(
        validate_panel_asset_url(
            "HTTPS://GitHub.COM/LingQiQi5211/SingBoard/releases/download/v1/SINGBOARD.EXE"
        ),
        Ok(())
    );
    let untrusted = Err(MSG_URL_UNTRUSTED.to_string());
    assert_eq!(validate_panel_asset_url(&format!("{base}?x=1")), untrusted);
    assert_eq!(validate_panel_asset_url(&format!("{base}#top")), untrusted);
    assert_eq!(
        validate_panel_asset_url(
            "https://github.com/lingqiqi5211/singboard/Releases/download/v1/singboard.exe"
        ),
        untrusted
    );
    assert_eq!(
        validate_panel_asset_url(
            "https://github.com/lingqiqi5211/singboard/releases/download//singboard.exe"
        ),
        untrusted
    );
    assert_eq!(
        validate_panel_asset_url(
            "https://example.com/lingqiqi5211/singboard/releases/download/v1/singboard.exe"
        ),
        untrusted
    );
    assert_eq!(
        validate_panel_asset_url(
            "https://github.com/lingqiqi5211/singboard/releases/download/v1/other.exe"
        ),
        untrusted
    );
    assert_eq!(
        validate_panel_asset_url("not a url"),
        Err(MSG_URL_INVALID.to_string())
    );
    assert_eq!(
        validate_panel_asset_url("mailto:someone@example.com"),
        Err(MSG_URL_INVALID.to_string())
    );
}

#[test]
fn url_parts_are_checked_against_the_repo() {
    let parts = UrlParts {
        scheme: "https".to_string(),
        host: Some("github.com".to_string()),
        query: None,
        fragment: None,
        path_segments: Some(
            ["o", "r", "releases", "download", "t", "singboard.exe"]
                .iter()
                .map(|s| s.to_string())
                .collect(),
        ),
    };
    assert_eq!(check_panel_asset_url(&parts, "o/r"), Ok(()));
    assert_eq!(check_panel_asset_url(&parts, "O/R"), Ok(()));
    assert_eq!(
        check_panel_asset_url(&parts, "o/x"),
        Err(MSG_URL_UNTRUSTED.to_string())
    );
    assert_eq!(
        check_panel_asset_url(&parts, "no-slash"),
        Err(MSG_REPO_CONFIG.to_string())
    );
    let no_path = UrlParts { path_segments: None, ..parts };
    assert_eq!(
        check_panel_asset_url(&no_path, "o/r"),
        Err(MSG_URL_INVALID.to_string())
    );
}

#[test]
fn panel_asset_is_found_by_name_without_case() {
    let rel = release(
        "v1.2.0",
        vec![asset("readme.txt", None), asset("SingBoard.EXE", None), asset("singboard.exe", None)],
    );
    assert_eq!(panel_asset(&rel).unwrap().name, "SingBoard.EXE");
    let empty = release("v1.2.0", vec![asset("core.zip", None)]);
    assert_eq!(panel_asset(&empty).err(), Some(MSG_NO_PANEL_ASSET.to_string()));
}

#[test]
fn panel_update_info_reports_the_release() {
    let rel = release("v1.3.0", vec![asset("singboard.exe", Some("sha256:ab"))]);
    let info = panel_update_info(&rel, "1.2.9").unwrap();
    assert_eq!(info.current_version, "1.2.9");
    assert_eq!(info.latest_version, "1.3.0");
    assert!(info.has_update);
    assert!(!info.out_of_sync);
    assert_eq!(info.published_at, "2024-01-01T00:00:00Z");
    assert_eq!(info.asset_url, "https://example.com/singboard.exe");
    assert_eq!(info.asset_size, 7);
    assert_eq!(info.asset_digest, "sha256:ab");
    assert!(!info.needs_local_check());

    let mut same = panel_update_info(&rel, "1.3.0").unwrap();
    assert!(!same.has_update);
    assert!(same.needs_local_check());
    same.record_local_check(true);
    assert!(same.out_of_sync);

    let mut newer = panel_update_info(&rel, "1.0.0").unwrap();
    newer.record_local_check(true);
    assert!(!newer.out_of_sync);

    let mut local_newer = panel_update_info(&release("v3.2.3", vec![asset("singboard.exe", Some("sha256:ab"))]), "3.2.4").unwrap();
    assert!(!local_newer.has_update);
    assert!(!local_newer.needs_local_check());
    local_newer.record_local_check(true);
    assert!(!local_newer.out_of_sync);

    let undated = GhRelease { published_at: None, ..release("v2", vec![asset("singboard.exe", None)]) };
    let info = panel_update_info(&undated, "1.0.0").unwrap();
    assert_eq!(info.published_at, "");
    assert_eq!(info.asset_digest, "");
}

#[test]
fn install_request_must_match_latest_release() {
    let trusted = asset("singboard.exe", Some("sha256:ab"));
    let url = "https://example.com/singboard.exe";
    assert_eq!(request_matches_release(&trusted, url, 7, "sha256:ab"), Ok(()));
    let changed = Err(MSG_RELEASE_CHANGED.to_string());
    assert_eq!(request_matches_release(&trusted, url, 8, "sha256:ab"), changed);
    assert_eq!(request_matches_release(&trusted, url, 7, "sha256:ac"), changed);
    assert_eq!(request_matches_release(&trusted, "https://x/", 7, "sha256:ab"), changed);
    let bare = asset("singboard.exe", None);
    assert_eq!(request_matches_release(&bare, url, 7, ""), Ok(()));
}

fn run_overwrite(events: Vec<OverwriteEvent>) -> (Vec<String>, Result<(), String>) {
    let (mut m, mut action) = PanelOverwrite::start();
    let mut trace = Vec::new();
    let mut events = events.into_iter();
    loop {
        match action {
            OverwriteAction::Finish(r) => return (trace, r),
            other => {
                trace.push(format!("{}", step_name(&other)));
                action = m.step(events.next().unwrap_or(OverwriteEvent::Done));
            }
        }
    }
}

fn step_name(a: &OverwriteAction) -> &'static str {
    match a {
        OverwriteAction::CheckTargetIsFile => "check",
        OverwriteAction::BackupTarget => "backup",
        OverwriteAction::CopySource => "copy",
        OverwriteAction::RemoveBackup => "remove-backup",
        OverwriteAction::RestoreBackup => "restore",
        OverwriteAction::Finish(_) => "finish",
    }
}

#[test]
fn overwrite_backs_up_copies_and_removes_backup() {
    let (trace, r) = run_overwrite(vec![
        OverwriteEvent::TargetIsFile(true),
        OverwriteEvent::Done,
        OverwriteEvent::Done,
        OverwriteEvent::Done,
    ]);
    assert_eq!(trace, ["check", "backup", "copy", "remove-backup"]);
    assert_eq!(r, Ok(()));
}

#[test]
fn overwrite_without_target_just_copies() {
    let (trace, r) = run_overwrite(vec![OverwriteEvent::TargetIsFile(false), OverwriteEvent::Done]);
    assert_eq!(trace, ["check", "copy"]);
    assert_eq!(r, Ok(()));
}

#[test]
fn failed_overwrite_puts_backup_back_and_removes_it() {
    let (trace, r) = run_overwrite(vec![
        OverwriteEvent::TargetIsFile(true),
        OverwriteEvent::Done,
        OverwriteEvent::Failed("locked".to_string()),
        OverwriteEvent::Failed("still locked".to_string()),
        OverwriteEvent::Done,
    ]);
    assert_eq!(trace, ["check", "backup", "copy", "restore", "remove-backup"]);
    assert_eq!(r, Err("覆盖面板失败: locked".to_string()));
}

#[test]
fn failed_backup_means_nothing_to_restore() {
    let (trace, r) = run_overwrite(vec![
        OverwriteEvent::TargetIsFile(true),
        OverwriteEvent::Failed("denied".to_string()),
        OverwriteEvent::Failed("missing".to_string()),
    ]);
    assert_eq!(trace, ["check", "backup", "copy"]);
    assert_eq!(r, Err("覆盖面板失败: missing".to_string()));
}

#[test]
fn retry_makes_at_least_one_attempt() {
    let mut once = Retry::new(0);
    assert_eq!(once.attempts, 1);
    assert!(!once.failed_attempt());
    let mut thrice = Retry::new(3);
    assert!(thrice.failed_attempt());
    assert!(thrice.failed_attempt());
    assert!(!thrice.failed_attempt());
    assert_eq!(thrice.tried, 3);
}

#[test]
fn panel_url_follows_the_repo_a_build_names() {
    let url = "https://github.com/someone/fork/releases/download/v2.0.0/singboard.exe";
    assert_eq!(validate_panel_asset_url_for(url, "someone/fork"), Ok(()));
    assert_eq!(
        validate_panel_asset_url_for(url, "lingqiqi5211/singboard"),
        Err(MSG_URL_UNTRUSTED.to_string())
    );
    assert!(validate_panel_asset_url(url).is_err());
    assert_eq!(
        validate_panel_asset_url_for(url, "no-slash"),
        Err(MSG_REPO_CONFIG.to_string())
    );
    assert_eq!(
        validate_panel_asset_url_for("not a url", "someone/fork"),
        Err(MSG_URL_INVALID.to_string())
    );
}
