use singboard::swap::{CoreSwap, SwapAction, SwapEvent};

fn name(a: &SwapAction) -> String {
    match a {
        SwapAction::CopyStagedCore => "copy-new".into(),
        SwapAction::QueryService => "query".into(),
        SwapAction::AnnounceReplace => "announce-replace".into(),
        SwapAction::StopService => "stop".into(),
        SwapAction::CheckTargetExists => "exists?".into(),
        SwapAction::RemoveOldBackup => "remove-old-bak".into(),
        SwapAction::BackupTarget => "backup".into(),
        SwapAction::InstallNewCore => "install".into(),
        SwapAction::CopyDll(d) => format!("dll:{d}"),
        SwapAction::AnnounceRestart => "announce-restart".into(),
        SwapAction::StartService => "start".into(),
        SwapAction::ConfirmServiceRunning => "confirm".into(),
        SwapAction::RenameBackupBack => "rename-back".into(),
        SwapAction::ReinstateBackup => "reinstate".into(),
        SwapAction::RemoveNewCopy => "remove-new".into(),
        SwapAction::RestartService => "restart".into(),
        SwapAction::StopServiceForRollback => "rollback-stop".into(),
        SwapAction::CopyBackupOver => "copy-bak".into(),
        SwapAction::StartServiceAfterRollback => "rollback-start".into(),
        SwapAction::Finish(_) => "finish".into(),
    }
}

/// Runs a replacement, answering each step with `answer`.
fn run(
    dlls: &[&str],
    answer: impl Fn(&SwapAction) -> SwapEvent,
) -> (Vec<String>, Result<bool, String>) {
    let (mut m, mut action) =
        CoreSwap::start(dlls.iter().map(|d| d.to_string()).collect(), true);
    let mut trace = Vec::new();
    loop {
        if let SwapAction::Finish(r) = action {
            return (trace, r);
        }
        trace.push(name(&action));
        let event = answer(&action);
        action = m.step(event);
    }
}

fn state(s: &str) -> SwapEvent {
    SwapEvent::ServiceState(Ok(s.to_string()))
}

fn healthy(running_before: bool, target_exists: bool) -> impl Fn(&SwapAction) -> SwapEvent {
    move |a| match a {
        SwapAction::QueryService => {
            if running_before {
                state("running")
            } else {
                state("stopped")
            }
        }
        SwapAction::CheckTargetExists => SwapEvent::TargetExists(target_exists),
        SwapAction::ConfirmServiceRunning => state("running"),
        _ => SwapEvent::Done,
    }
}

#[test]
fn swap_without_service_replaces_files() {
    let (trace, r) = run(&["libcronet.dll"], healthy(false, true));
    assert_eq!(
        trace,
        [
            "copy-new",
            "query",
            "announce-replace",
            "exists?",
            "remove-old-bak",
            "backup",
            "install",
            "dll:libcronet.dll"
        ]
    );
    assert_eq!(r, Ok(false));
}

#[test]
fn swap_with_running_service_restarts_it() {
    let (trace, r) = run(&[], healthy(true, true));
    assert_eq!(
        trace,
        [
            "copy-new",
            "query",
            "announce-replace",
            "stop",
            "exists?",
            "remove-old-bak",
            "backup",
            "install",
            "announce-restart",
            "start",
            "confirm"
        ]
    );
    assert_eq!(r, Ok(true));
}

#[test]
fn starting_service_counts_as_running() {
    let (trace, r) = run(&[], |a: &SwapAction| match a {
        SwapAction::QueryService => state("starting"),
        SwapAction::CheckTargetExists => SwapEvent::TargetExists(false),
        SwapAction::ConfirmServiceRunning => state("running"),
        _ => SwapEvent::Done,
    });
    assert!(trace.contains(&"stop".to_string()));
    assert!(!trace.contains(&"backup".to_string()));
    assert_eq!(r, Ok(true));
}

#[test]
fn failed_query_is_treated_as_not_running() {
    let (trace, r) = run(&[], |a: &SwapAction| match a {
        SwapAction::QueryService => SwapEvent::ServiceState(Err("not installed".to_string())),
        SwapAction::CheckTargetExists => SwapEvent::TargetExists(false),
        _ => SwapEvent::Done,
    });
    assert_eq!(trace, ["copy-new", "query", "announce-replace", "exists?", "install"]);
    assert_eq!(r, Ok(false));
}

#[test]
fn missing_target_directory_fails_at_once() {
    let (_, action) = CoreSwap::start(Vec::new(), false);
    match action {
        SwapAction::Finish(Err(m)) => assert_eq!(m, "sing-box 路径无效"),
        _ => panic!("a target without a directory is refused"),
    }
}

#[test]
fn failed_copy_of_new_core_stops_everything() {
    let (trace, r) = run(&[], |a: &SwapAction| match a {
        SwapAction::CopyStagedCore => SwapEvent::Failed("disk full".to_string()),
        _ => SwapEvent::Done,
    });
    assert_eq!(trace, ["copy-new"]);
    assert_eq!(r, Err("复制新核心失败: disk full".to_string()));
}

#[test]
fn failed_stop_removes_new_copy() {
    let (trace, r) = run(&[], |a: &SwapAction| match a {
        SwapAction::QueryService => state("running"),
        SwapAction::StopService => SwapEvent::Failed("access denied".to_string()),
        _ => SwapEvent::Done,
    });
    assert_eq!(trace, ["copy-new", "query", "announce-replace", "stop", "remove-new"]);
    assert_eq!(r, Err("停止服务失败: access denied".to_string()));
}

#[test]
fn failed_backup_restarts_service() {
    let (trace, r) = run(&[], |a: &SwapAction| match a {
        SwapAction::QueryService => state("running"),
        SwapAction::CheckTargetExists => SwapEvent::TargetExists(true),
        SwapAction::BackupTarget => SwapEvent::Failed("locked".to_string()),
        _ => SwapEvent::Done,
    });
    assert_eq!(
        trace,
        [
            "copy-new",
            "query",
            "announce-replace",
            "stop",
            "exists?",
            "remove-old-bak",
            "backup",
            "remove-new",
            "restart"
        ]
    );
    assert_eq!(r, Err("备份旧核心失败: locked".to_string()));
}

#[test]
fn failed_install_renames_backup_back() {
    let (trace, r) = run(&[], |a: &SwapAction| match a {
        SwapAction::QueryService => state("running"),
        SwapAction::CheckTargetExists => SwapEvent::TargetExists(true),
        SwapAction::InstallNewCore => SwapEvent::Failed("busy".to_string()),
        _ => SwapEvent::Done,
    });
    assert_eq!(&trace[7..], ["install", "rename-back", "remove-new", "restart"]);
    assert_eq!(r, Err("替换核心失败: busy".to_string()));
}

#[test]
fn failed_dll_copy_reinstates_old_core() {
    let (trace, r) = run(&["a.dll", "b.dll"], |a: &SwapAction| match a {
        SwapAction::QueryService => state("running"),
        SwapAction::CheckTargetExists => SwapEvent::TargetExists(true),
        SwapAction::CopyDll(d) if d == "b.dll" => SwapEvent::Failed("denied".to_string()),
        _ => SwapEvent::Done,
    });
    assert_eq!(&trace[7..], ["install", "dll:a.dll", "dll:b.dll", "reinstate", "restart"]);
    assert_eq!(r, Err("更新 b.dll 失败: denied".to_string()));
}

#[test]
fn failed_dll_copy_without_old_core_or_service_just_reports() {
    let (trace, r) = run(&["a.dll"], |a: &SwapAction| match a {
        SwapAction::QueryService => state("stopped"),
        SwapAction::CheckTargetExists => SwapEvent::TargetExists(false),
        SwapAction::CopyDll(_) => SwapEvent::Failed("denied".to_string()),
        _ => SwapEvent::Done,
    });
    assert_eq!(trace, ["copy-new", "query", "announce-replace", "exists?", "install", "dll:a.dll"]);
    assert_eq!(r, Err("更新 a.dll 失败: denied".to_string()));
}

#[test]
fn service_that_does_not_stay_up_is_rolled_back() {
    let (trace, r) = run(&[], |a: &SwapAction| match a {
        SwapAction::QueryService => state("running"),
        SwapAction::CheckTargetExists => SwapEvent::TargetExists(true),
        SwapAction::ConfirmServiceRunning => state("stopped"),
        _ => SwapEvent::Done,
    });
    assert_eq!(
        &trace[8..],
        ["announce-restart", "start", "confirm", "rollback-stop", "copy-bak", "rollback-start"]
    );
    assert_eq!(
        r,
        Err("新核心启动失败，已回滚到旧版本。原因: 服务未能保持运行（状态: stopped）".to_string())
    );
}

#[test]
fn failed_start_without_backup_cannot_roll_back() {
    let (trace, r) = run(&[], |a: &SwapAction| match a {
        SwapAction::QueryService => state("running"),
        SwapAction::CheckTargetExists => SwapEvent::TargetExists(false),
        SwapAction::StartService => SwapEvent::Failed("boom".to_string()),
        _ => SwapEvent::Done,
    });
    assert_eq!(trace.last().unwrap(), "rollback-stop");
    assert_eq!(r, Err("新核心启动失败: boom；回滚也失败: 无可用备份".to_string()));
}

#[test]
fn failed_rollback_reports_both_errors() {
    let (_, r) = run(&[], |a: &SwapAction| match a {
        SwapAction::QueryService => state("running"),
        SwapAction::CheckTargetExists => SwapEvent::TargetExists(true),
        SwapAction::ConfirmServiceRunning => SwapEvent::ServiceState(Err("query failed".to_string())),
        SwapAction::StartServiceAfterRollback => SwapEvent::Failed("still broken".to_string()),
        _ => SwapEvent::Done,
    });
    assert_eq!(r, Err("新核心启动失败: query failed；回滚也失败: still broken".to_string()));
    let (_, r) = run(&[], |a: &SwapAction| match a {
        SwapAction::QueryService => state("running"),
        SwapAction::CheckTargetExists => SwapEvent::TargetExists(true),
        SwapAction::StartService => SwapEvent::Failed("boom".to_string()),
        SwapAction::CopyBackupOver => SwapEvent::Failed("gone".to_string()),
        _ => SwapEvent::Done,
    });
    assert_eq!(r, Err("新核心启动失败: boom；回滚也失败: gone".to_string()));
}

#[test]
fn failed_dll_copy_does_not_start_a_stopped_service() {
    let (trace, r) = run(&["a.dll"], |a: &SwapAction| match a {
        SwapAction::QueryService => state("stopped"),
        SwapAction::CheckTargetExists => SwapEvent::TargetExists(true),
        SwapAction::CopyDll(_) => SwapEvent::Failed("denied".to_string()),
        _ => SwapEvent::Done,
    });
    assert_eq!(
        trace,
        [
            "copy-new",
            "query",
            "announce-replace",
            "exists?",
            "remove-old-bak",
            "backup",
            "install",
            "dll:a.dll",
            "reinstate",
        ]
    );
    assert!(!trace.iter().any(|s| s == "restart" || s == "start"));
    assert_eq!(r, Err("更新 a.dll 失败: denied".to_string()));
}
