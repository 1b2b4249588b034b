//! Replacing the installed sing-box core: stop the service, keep one backup
//! of the old core, install the new one and its DLLs, restart the service,
//! and roll back automatically when a step fails.
//!
//! The steps that touch files and the service are performed by the caller;
//! `CoreSwap` decides, from the outcome of each, what to do next.

use vstd::prelude::*;
use crate::text::{concat3, str_equal};

verus! {

pub const MSG_BAD_TARGET: &'static str = "sing-box 路径无效";

pub const MSG_COPY_NEW: &'static str = "复制新核心失败: ";

pub const MSG_STOP: &'static str = "停止服务失败: ";

pub const MSG_BACKUP: &'static str = "备份旧核心失败: ";

pub const MSG_REPLACE: &'static str = "替换核心失败: ";

pub const MSG_DLL_BEFORE: &'static str = "更新 ";

pub const MSG_DLL_AFTER: &'static str = " 失败: ";

pub const MSG_NOT_RUNNING_BEFORE: &'static str = "服务未能保持运行（状态: ";

pub const MSG_NOT_RUNNING_AFTER: &'static str = "）";

pub const MSG_ROLLED_BACK: &'static str = "新核心启动失败，已回滚到旧版本。原因: ";

pub const MSG_START_FAILED: &'static str = "新核心启动失败: ";

pub const MSG_ROLLBACK_FAILED: &'static str = "；回滚也失败: ";

pub const MSG_NO_BACKUP: &'static str = "无可用备份";

/// A step of the core replacement, performed by the caller.
pub enum SwapAction {
    /// Copy the staged `sing-box.exe` next to the target, as `<target>.exe.new`.
    CopyStagedCore,
    /// Query the state of the core's service.
    QueryService,
    /// Report the "replace" phase of the update.
    AnnounceReplace,
    /// Stop the service.
    StopService,
    /// Tell whether the target path exists.
    CheckTargetExists,
    /// Remove an earlier `<target>.exe.bak`; the outcome does not matter.
    RemoveOldBackup,
    /// Rename the target to `<target>.exe.bak` (up to three attempts).
    BackupTarget,
    /// Rename `<target>.exe.new` to the target.
    InstallNewCore,
    /// Copy this DLL from the staging directory next to the target (up to three attempts).
    CopyDll(String),
    /// Report the "restart" phase of the update.
    AnnounceRestart,
    /// Start the service.
    StartService,
    /// Wait two seconds, then query the state of the service.
    ConfirmServiceRunning,
    /// Rename `<target>.exe.bak` back to the target; the outcome does not matter.
    RenameBackupBack,
    /// Remove the target and rename `<target>.exe.bak` back to it (up to three
    /// attempts); the outcome does not matter.
    ReinstateBackup,
    /// Remove `<target>.exe.new`; the outcome does not matter.
    RemoveNewCopy,
    /// Start the service again after a failure; the outcome does not matter.
    RestartService,
    /// Stop the service that the new core failed in; the outcome does not matter.
    StopServiceForRollback,
    /// Copy `<target>.exe.bak` over the target (up to three attempts).
    CopyBackupOver,
    /// Start the service on the restored core.
    StartServiceAfterRollback,
    /// The replacement is over: whether the service was restarted, or why it failed.
    Finish(Result<bool, String>),
}

/// The outcome of the last step.
pub enum SwapEvent {
    /// The step succeeded.
    Done,
    /// The step failed with this message.
    Failed(String),
    /// The service state that a query gave, or the query's error.
    ServiceState(Result<String, String>),
    /// Whether the target path exists.
    TargetExists(bool),
}

/// Where the replacement stands.
#[derive(Clone, Copy, PartialEq, Eq, Debug, Structural)]
pub enum SwapPhase {
    Copying,
    Querying,
    AnnouncingReplace,
    Stopping,
    CheckingTarget,
    RemovingOldBackup,
    BackingUp,
    Installing,
    CopyingDlls,
    AnnouncingRestart,
    Starting,
    Confirming,
    Unwinding,
    RollbackStopping,
    RollbackCopying,
    RollbackStarting,
    Finished,
}

/// How the old core is put back while unwinding a failure.
#[derive(Clone, Copy, PartialEq, Eq, Debug, Structural)]
pub enum Restore {
    Nothing,
    RenameBack,
    Reinstate,
}

/// The decisions of one core replacement.
pub struct CoreSwap {
    pub phase: SwapPhase,
    /// The DLLs that come with the new core.
    pub dlls: Vec<String>,
    /// The DLL being copied, in `CopyingDlls`.
    pub next_dll: usize,
    /// The service was running (or starting) before the update.
    pub was_running: bool,
    /// The target existed before the update.
    pub had_old: bool,
    /// Steps left while unwinding a failure, in this order.
    pub pending_restore: Restore,
    pub pending_remove_new: bool,
    pub pending_restart: bool,
    /// The error that unwinding or rollback will report.
    pub error: String,
    /// `<target>.exe.new` was written.
    pub copied_new: Ghost<bool>,
    /// The update stopped the service.
    pub stopped: Ghost<bool>,
    /// The old core was moved to `<target>.exe.bak`.
    pub moved_aside: Ghost<bool>,
    /// The new core was renamed onto the target.
    pub installed: Ghost<bool>,
    /// The service was started on the new core.
    pub started_new: Ghost<bool>,
    /// A step that puts the old core back was issued.
    pub restore_issued: Ghost<bool>,
    /// Removing `<target>.exe.new` was issued.
    pub remove_new_issued: Ghost<bool>,
    /// Restarting the service after a failure was issued.
    pub restart_issued: Ghost<bool>,
    /// The replacement finished successfully.
    pub succeeded: Ghost<bool>,
}

/// The step succeeded.
pub open spec fn event_ok(e: SwapEvent) -> bool {
    match e {
        SwapEvent::Done => true,
        SwapEvent::TargetExists(_) => true,
        SwapEvent::ServiceState(r) => r is Ok,
        SwapEvent::Failed(_) => false,
    }
}

/// The message of a failed step (empty for an outcome that carries none).
pub open spec fn event_error(e: SwapEvent) -> Seq<char> {
    match e {
        SwapEvent::Failed(m) => m@,
        SwapEvent::ServiceState(Err(m)) => m@,
        _ => Seq::empty(),
    }
}

/// A query found the service running or starting.
pub open spec fn reports_running(e: SwapEvent) -> bool {
    e matches SwapEvent::ServiceState(Ok(s)) && (s@ == "running"@ || s@ == "starting"@)
}

/// The action ends the replacement with the error `msg`.
pub open spec fn fails_with(a: SwapAction, msg: Seq<char>) -> bool {
    a matches SwapAction::Finish(Err(m)) && m@ == msg
}

/// The error when the new core did not come up and rollback failed with `re`.
pub open spec fn rollback_failed_message(e: Seq<char>, re: Seq<char>) -> Seq<char> {
    MSG_START_FAILED@ + e + MSG_ROLLBACK_FAILED@ + re
}

/// The action puts the old core back.
pub open spec fn is_restore(a: SwapAction) -> bool {
    a is RenameBackupBack || a is ReinstateBackup || a is CopyBackupOver
}

impl CoreSwap {
    /// The relations between the phase and the record of what was done.
    pub open spec fn wf(&self) -> bool {
        &&& self.wf_common()
        &&& self.phase == SwapPhase::CopyingDlls ==> self.next_dll < self.dlls@.len()
        &&& self.succeeded@ ==> self.phase == SwapPhase::Finished
        &&& self.phase != SwapPhase::Unwinding ==> self.pending_restore == Restore::Nothing
            && !self.pending_remove_new && !self.pending_restart
        // Before the old core is backed up, nothing has been moved aside or installed.
        &&& (self.phase == SwapPhase::Copying || self.phase == SwapPhase::Querying || self.phase
            == SwapPhase::AnnouncingReplace || self.phase == SwapPhase::Stopping || self.phase
            == SwapPhase::CheckingTarget || self.phase == SwapPhase::RemovingOldBackup
            || self.phase == SwapPhase::BackingUp) ==> !self.moved_aside@ && !self.installed@
            && !self.restore_issued@ && !self.remove_new_issued@ && !self.restart_issued@
            && !self.started_new@
        &&& self.phase != SwapPhase::Copying && self.phase != SwapPhase::Finished
            ==> self.copied_new@
        &&& self.phase == SwapPhase::Copying ==> !self.copied_new@
        &&& self.phase == SwapPhase::Stopping ==> self.was_running
        &&& (self.phase == SwapPhase::RemovingOldBackup || self.phase == SwapPhase::BackingUp)
            ==> self.had_old
        &&& (self.phase == SwapPhase::Copying || self.phase == SwapPhase::Querying || self.phase
            == SwapPhase::AnnouncingReplace || self.phase == SwapPhase::Stopping) ==> !self.stopped@
        &&& (self.phase == SwapPhase::CheckingTarget || self.phase == SwapPhase::RemovingOldBackup
            || self.phase == SwapPhase::BackingUp) ==> self.stopped@ == self.was_running
        &&& self.phase == SwapPhase::Installing ==> !self.installed@ && self.moved_aside@
            == self.had_old && self.stopped@ == self.was_running && !self.restore_issued@
            && !self.remove_new_issued@ && !self.restart_issued@ && !self.started_new@
        &&& (self.phase == SwapPhase::CopyingDlls || self.phase == SwapPhase::AnnouncingRestart
            || self.phase == SwapPhase::Starting) ==> self.installed@ && self.moved_aside@
            == self.had_old && self.stopped@ == self.was_running && !self.restore_issued@
            && !self.restart_issued@ && !self.remove_new_issued@
        &&& (self.phase == SwapPhase::CopyingDlls || self.phase == SwapPhase::AnnouncingRestart)
            ==> !self.started_new@
        &&& self.phase == SwapPhase::Starting ==> self.started_new@
        &&& (self.phase == SwapPhase::AnnouncingRestart || self.phase == SwapPhase::Starting)
            ==> self.next_dll == self.dlls@.len() && self.was_running
        &&& self.phase == SwapPhase::Confirming ==> self.started_new@ && self.moved_aside@
            == self.had_old && !self.restore_issued@ && self.was_running
        &&& self.phase == SwapPhase::Unwinding ==> !self.started_new@ && (self.moved_aside@
            && !self.restore_issued@ ==> self.pending_restore != Restore::Nothing) && (
        self.copied_new@ && !self.installed@ && !self.remove_new_issued@
            ==> self.pending_remove_new) && (self.stopped@ && !self.restart_issued@
            ==> self.pending_restart)
        &&& self.phase == SwapPhase::RollbackStopping ==> self.started_new@ && self.moved_aside@
            == self.had_old && !self.restore_issued@
        &&& (self.phase == SwapPhase::RollbackCopying || self.phase
            == SwapPhase::RollbackStarting) ==> self.started_new@ && self.restore_issued@
        // How a replacement ends.
        &&& self.phase == SwapPhase::Finished && self.succeeded@ ==> self.installed@
            && self.next_dll == self.dlls@.len() && !self.restore_issued@ && self.moved_aside@
            == self.had_old
        &&& self.phase == SwapPhase::Finished && !self.succeeded@ && self.moved_aside@
            ==> self.restore_issued@
        &&& self.phase == SwapPhase::Finished && !self.succeeded@ && self.stopped@
            && !self.started_new@ ==> self.restart_issued@
        &&& self.phase == SwapPhase::Finished && !self.succeeded@ && self.copied_new@
            && !self.installed@ ==> self.remove_new_issued@
    }

    /// The relations that hold in every phase.
    pub open spec fn wf_common(&self) -> bool {
        &&& self.next_dll <= self.dlls@.len()
        &&& self.stopped@ ==> self.was_running
        &&& self.moved_aside@ ==> self.had_old
        &&& self.installed@ ==> self.copied_new@
        &&& self.started_new@ ==> self.installed@ && self.next_dll == self.dlls@.len()
        // Rollback steps undo only what the update did, each at most once.
        &&& self.pending_restart ==> self.stopped@ && !self.restart_issued@
        &&& self.pending_remove_new ==> self.copied_new@ && !self.installed@
            && !self.remove_new_issued@
        &&& self.pending_restore != Restore::Nothing ==> self.moved_aside@
            && !self.restore_issued@
        &&& self.pending_restore == Restore::RenameBack ==> !self.installed@
        &&& self.pending_restore == Restore::Reinstate ==> self.installed@
        &&& self.restart_issued@ ==> self.stopped@
        &&& self.remove_new_issued@ ==> self.copied_new@ && !self.installed@
        &&& self.restore_issued@ ==> self.moved_aside@
    }

    /// Begins replacing the core with the staged one and its `dlls`;
    /// `target_has_parent` tells whether the target path has a directory.
    pub fn start(dlls: Vec<String>, target_has_parent: bool) -> (r: (CoreSwap, SwapAction))
        ensures
            r.0.wf(),
            r.0.dlls == dlls,
            target_has_parent ==> r.0.phase == SwapPhase::Copying && r.1 is CopyStagedCore,
            !target_has_parent ==> r.0.phase == SwapPhase::Finished && fails_with(
                r.1,
                MSG_BAD_TARGET@,
            ),
    {
        let phase = if target_has_parent {
            SwapPhase::Copying
        } else {
            SwapPhase::Finished
        };
        let m = CoreSwap {
            phase,
            dlls,
            next_dll: 0,
            was_running: false,
            had_old: false,
            pending_restore: Restore::Nothing,
            pending_remove_new: false,
            pending_restart: false,
            error: String::new(),
            copied_new: Ghost(false),
            stopped: Ghost(false),
            moved_aside: Ghost(false),
            installed: Ghost(false),
            started_new: Ghost(false),
            restore_issued: Ghost(false),
            remove_new_issued: Ghost(false),
            restart_issued: Ghost(false),
            succeeded: Ghost(false),
        };
        if target_has_parent {
            (m, SwapAction::CopyStagedCore)
        } else {
            (m, SwapAction::Finish(Err(String::from_str(MSG_BAD_TARGET))))
        }
    }

    fn message_of(event: SwapEvent) -> (m: String)
        ensures
            m@ == event_error(event),
    {
        match event {
            SwapEvent::Failed(m) => m,
            SwapEvent::ServiceState(Err(m)) => m,
            _ => String::new(),
        }
    }

    /// The step after the new core is installed and DLL `from` on is copied.
    fn after_install(&mut self, from: usize) -> (a: SwapAction)
        requires
            old(self).wf_common(),
            old(self).pending_restore == Restore::Nothing,
            !old(self).pending_remove_new,
            !old(self).pending_restart,
            from <= old(self).dlls@.len(),
            old(self).installed@,
            old(self).moved_aside@ == old(self).had_old,
            old(self).stopped@ == old(self).was_running,
            !old(self).restore_issued@,
            !old(self).restart_issued@,
            !old(self).remove_new_issued@,
            !old(self).started_new@,
            !old(self).succeeded@,
        ensures
            final(self).wf(),
            final(self).dlls == old(self).dlls,
            final(self).was_running == old(self).was_running,
            final(self).had_old == old(self).had_old,
            final(self).copied_new == old(self).copied_new,
            final(self).stopped == old(self).stopped,
            final(self).moved_aside == old(self).moved_aside,
            final(self).installed == old(self).installed,
            final(self).started_new == old(self).started_new,
            final(self).restore_issued == old(self).restore_issued,
            final(self).remove_new_issued == old(self).remove_new_issued,
            final(self).restart_issued == old(self).restart_issued,
            from < old(self).dlls@.len() ==> final(self).phase == SwapPhase::CopyingDlls
                && final(self).next_dll == from && (a matches SwapAction::CopyDll(d) && d
                == old(self).dlls@[from as int]) && !final(self).succeeded@,
            from == old(self).dlls@.len() && old(self).was_running ==> final(self).phase
                == SwapPhase::AnnouncingRestart && final(self).next_dll == from
                && a is AnnounceRestart && !final(self).succeeded@,
            from == old(self).dlls@.len() && !old(self).was_running ==> final(self).phase
                == SwapPhase::Finished && final(self).next_dll == from && a == SwapAction::Finish(
                Ok(false),
            ) && final(self).succeeded@,
    {
        self.next_dll = from;
        if from < self.dlls.len() {
            self.phase = SwapPhase::CopyingDlls;
            SwapAction::CopyDll(self.dlls[from].clone())
        } else if self.was_running {
            self.phase = SwapPhase::AnnouncingRestart;
            SwapAction::AnnounceRestart
        } else {
            self.phase = SwapPhase::Finished;
            self.succeeded = Ghost(true);
            SwapAction::Finish(Ok(false))
        }
    }

    /// The next step of unwinding a failure: put the old core back, remove
    /// the new copy, restart the service, then report the error.
    fn unwind(&mut self) -> (a: SwapAction)
        requires
            old(self).wf(),
            old(self).phase == SwapPhase::Unwinding,
        ensures
            final(self).wf(),
            final(self).dlls == old(self).dlls,
            final(self).next_dll == old(self).next_dll,
            final(self).was_running == old(self).was_running,
            final(self).had_old == old(self).had_old,
            final(self).copied_new == old(self).copied_new,
            final(self).stopped == old(self).stopped,
            final(self).moved_aside == old(self).moved_aside,
            final(self).installed == old(self).installed,
            final(self).started_new == old(self).started_new,
            final(self).succeeded == old(self).succeeded,
            final(self).error == old(self).error,
            a is Finish <==> final(self).phase == SwapPhase::Finished,
            !(a is Finish) ==> final(self).phase == SwapPhase::Unwinding,
            !(a is RestartService) ==> final(self).pending_restart == old(self).pending_restart,
            final(self).restore_issued@ == (old(self).restore_issued@ || is_restore(a)),
            final(self).remove_new_issued@ == (old(self).remove_new_issued@ || a is RemoveNewCopy),
            final(self).restart_issued@ == (old(self).restart_issued@ || a is RestartService),
            old(self).pending_restore == Restore::RenameBack ==> a is RenameBackupBack
                && final(self).phase == SwapPhase::Unwinding,
            old(self).pending_restore == Restore::Reinstate ==> a is ReinstateBackup
                && final(self).phase == SwapPhase::Unwinding,
            old(self).pending_restore == Restore::Nothing && old(self).pending_remove_new
                ==> a is RemoveNewCopy && final(self).phase == SwapPhase::Unwinding,
            old(self).pending_restore == Restore::Nothing && !old(self).pending_remove_new
                && old(self).pending_restart ==> a is RestartService && final(self).phase
                == SwapPhase::Unwinding,
            old(self).pending_restore == Restore::Nothing && !old(self).pending_remove_new
                && !old(self).pending_restart ==> fails_with(a, old(self).error@) && final(self).phase == SwapPhase::Finished,
    {
        match self.pending_restore {
            Restore::RenameBack => {
                self.pending_restore = Restore::Nothing;
                self.restore_issued = Ghost(true);
                SwapAction::RenameBackupBack
            },
            Restore::Reinstate => {
                self.pending_restore = Restore::Nothing;
                self.restore_issued = Ghost(true);
                SwapAction::ReinstateBackup
            },
            Restore::Nothing => {
                if self.pending_remove_new {
                    self.pending_remove_new = false;
                    self.remove_new_issued = Ghost(true);
                    SwapAction::RemoveNewCopy
                } else if self.pending_restart {
                    self.pending_restart = false;
                    self.restart_issued = Ghost(true);
                    SwapAction::RestartService
                } else {
                    self.phase = SwapPhase::Finished;
                    let e = self.error.clone();
                    SwapAction::Finish(Err(e))
                }
            },
        }
    }

    /// Starts unwinding a failure that `error` describes.
    fn fail(&mut self, restore: Restore, remove_new: bool, restart: bool, error: String) -> (a:
        SwapAction)
        requires
            old(self).wf(),
            old(self).phase != SwapPhase::Finished,
            old(self).copied_new@,
            restart == old(self).stopped@,
            !old(self).started_new@,
            !old(self).succeeded@,
            !old(self).restore_issued@,
            !old(self).remove_new_issued@,
            !old(self).restart_issued@,
            old(self).moved_aside@ <==> restore != Restore::Nothing,
            restore == Restore::RenameBack ==> !old(self).installed@,
            restore == Restore::Reinstate ==> old(self).installed@,
            remove_new <==> old(self).copied_new@ && !old(self).installed@,
        ensures
            final(self).wf(),
            final(self).phase == SwapPhase::Unwinding || final(self).phase == SwapPhase::Finished,
            !(a is Finish) ==> final(self).phase == SwapPhase::Unwinding,
            a is Finish ==> final(self).phase == SwapPhase::Finished,
            !(a is RestartService) ==> final(self).pending_restart == restart,
            final(self).error@ == error@,
            final(self).dlls == old(self).dlls,
            final(self).next_dll == old(self).next_dll,
            final(self).was_running == old(self).was_running,
            final(self).had_old == old(self).had_old,
            final(self).copied_new == old(self).copied_new,
            final(self).stopped == old(self).stopped,
            final(self).moved_aside == old(self).moved_aside,
            final(self).installed == old(self).installed,
            final(self).started_new == old(self).started_new,
            final(self).succeeded == old(self).succeeded,
            final(self).restore_issued@ == is_restore(a),
            final(self).remove_new_issued@ == a is RemoveNewCopy,
            final(self).restart_issued@ == a is RestartService,
            restore == Restore::RenameBack ==> a is RenameBackupBack,
            restore == Restore::Reinstate ==> a is ReinstateBackup,
            restore == Restore::Nothing && remove_new ==> a is RemoveNewCopy,
            restore == Restore::Nothing && !remove_new && old(self).stopped@ ==> a is RestartService,
            restore == Restore::Nothing && !remove_new && !old(self).stopped@ ==> fails_with(
                a,
                error@,
            ),
    {
        self.phase = SwapPhase::Unwinding;
        self.pending_restore = restore;
        self.pending_remove_new = remove_new;
        self.pending_restart = restart;
        self.error = error;
        self.unwind()
    }

    /// Starts rolling back to the old core after the new one failed to run.
    fn roll_back(&mut self, error: String) -> (a: SwapAction)
        requires
            old(self).wf(),
            old(self).started_new@,
            old(self).moved_aside@ == old(self).had_old,
            !old(self).restore_issued@,
            !old(self).succeeded@,
        ensures
            final(self).wf(),
            final(self).phase == SwapPhase::RollbackStopping,
            final(self).error@ == error@,
            a is StopServiceForRollback,
            final(self).dlls == old(self).dlls,
            final(self).next_dll == old(self).next_dll,
            final(self).was_running == old(self).was_running,
            final(self).had_old == old(self).had_old,
            final(self).copied_new == old(self).copied_new,
            final(self).stopped == old(self).stopped,
            final(self).moved_aside == old(self).moved_aside,
            final(self).installed == old(self).installed,
            final(self).started_new == old(self).started_new,
            final(self).succeeded == old(self).succeeded,
            final(self).restore_issued == old(self).restore_issued,
            final(self).remove_new_issued == old(self).remove_new_issued,
            final(self).restart_issued == old(self).restart_issued,
    {
        self.phase = SwapPhase::RollbackStopping;
        self.error = error;
        SwapAction::StopServiceForRollback
    }

    /// Decides the next step from the outcome of the last one.
    #[verifier::rlimit(100)]
    #[verifier::spinoff_prover]
    pub fn step(&mut self, event: SwapEvent) -> (a: SwapAction)
        requires
            old(self).wf(),
            old(self).phase != SwapPhase::Finished,
        ensures
            final(self).wf(),
            final(self).dlls == old(self).dlls,
            // What the replacement keeps and what it records of the steps done.
            old(self).phase != SwapPhase::Querying ==> final(self).was_running == old(
                self).was_running,
            old(self).phase != SwapPhase::CheckingTarget ==> final(self).had_old == old(
                self).had_old,
            final(self).copied_new@ == (old(self).copied_new@ || (old(self).phase
                == SwapPhase::Copying && event_ok(event))),
            final(self).stopped@ == (old(self).stopped@ || (old(self).phase == SwapPhase::Stopping
                && event_ok(event))),
            final(self).moved_aside@ == (old(self).moved_aside@ || (old(self).phase
                == SwapPhase::BackingUp && event_ok(event))),
            final(self).installed@ == (old(self).installed@ || (old(self).phase
                == SwapPhase::Installing && event_ok(event))),
            final(self).started_new@ == (old(self).started_new@ || a is StartService),
            final(self).restore_issued@ == (old(self).restore_issued@ || is_restore(a)),
            final(self).remove_new_issued@ == (old(self).remove_new_issued@ || a is RemoveNewCopy),
            final(self).restart_issued@ == (old(self).restart_issued@ || a is RestartService),
            final(self).succeeded@ == (a matches SwapAction::Finish(Ok(_))),
            // Each rollback step undoes something the update did, and only once.
            a is RestartService ==> old(self).stopped@ && !old(self).restart_issued@,
            is_restore(a) ==> old(self).moved_aside@ && !old(self).restore_issued@,
            a is RenameBackupBack ==> !old(self).installed@,
            a is ReinstateBackup ==> old(self).installed@,
            a is RemoveNewCopy ==> old(self).copied_new@ && !old(self).installed@
                && !old(self).remove_new_issued@,
            final(self).pending_restart ==> final(self).stopped@,
            // The DLLs are copied in order, each once.
            old(self).phase == SwapPhase::Installing && event_ok(event) ==> final(self).next_dll
                == 0,
            old(self).phase == SwapPhase::CopyingDlls && event_ok(event) ==> final(self).next_dll
                == old(self).next_dll + 1,
            (old(self).phase == SwapPhase::Installing || old(self).phase == SwapPhase::CopyingDlls)
                && event_ok(event) && final(self).next_dll < old(self).dlls@.len() ==> final(
                self).phase == SwapPhase::CopyingDlls,
            (old(self).phase == SwapPhase::Installing || old(self).phase == SwapPhase::CopyingDlls)
                && event_ok(event) && final(self).next_dll == old(self).dlls@.len()
                && old(self).was_running ==> final(self).phase == SwapPhase::AnnouncingRestart,
            (old(self).phase == SwapPhase::Installing || old(self).phase == SwapPhase::CopyingDlls)
                && event_ok(event) && final(self).next_dll == old(self).dlls@.len()
                && !old(self).was_running ==> final(self).phase == SwapPhase::Finished,
            // A failure is unwound step by step until the error is reported.
            (old(self).phase == SwapPhase::Stopping || old(self).phase == SwapPhase::BackingUp
                || old(self).phase == SwapPhase::Installing || old(self).phase
                == SwapPhase::CopyingDlls) && !event_ok(event) && !(a is Finish) ==> final(
                self).phase == SwapPhase::Unwinding,
            old(self).phase == SwapPhase::Unwinding && !(a is Finish) ==> final(self).phase
                == SwapPhase::Unwinding,
            // The step table.
            old(self).phase == SwapPhase::Copying && event_ok(event) ==> a is QueryService
                && final(self).phase == SwapPhase::Querying,
            old(self).phase == SwapPhase::Copying && !event_ok(event) ==> fails_with(
                a,
                MSG_COPY_NEW@ + event_error(event),
            ) && final(self).phase == SwapPhase::Finished,
            old(self).phase == SwapPhase::Querying ==> a is AnnounceReplace && final(self).phase
                == SwapPhase::AnnouncingReplace && final(self).was_running == reports_running(
                event,
            ),
            old(self).phase == SwapPhase::AnnouncingReplace && old(self).was_running ==> a is StopService
                && final(self).phase == SwapPhase::Stopping,
            old(self).phase == SwapPhase::AnnouncingReplace && !old(self).was_running
                ==> a is CheckTargetExists && final(self).phase == SwapPhase::CheckingTarget,
            old(self).phase == SwapPhase::Stopping && event_ok(event) ==> a is CheckTargetExists
                && final(self).phase == SwapPhase::CheckingTarget,
            old(self).phase == SwapPhase::Stopping && !event_ok(event) ==> a is RemoveNewCopy
                && final(self).phase == SwapPhase::Unwinding && final(self).error@ == MSG_STOP@
                + event_error(event),
            old(self).phase == SwapPhase::CheckingTarget ==> final(self).had_old == (
            event matches SwapEvent::TargetExists(b) && b),
            old(self).phase == SwapPhase::CheckingTarget && final(self).had_old
                ==> a is RemoveOldBackup && final(self).phase == SwapPhase::RemovingOldBackup,
            old(self).phase == SwapPhase::CheckingTarget && !final(self).had_old
                ==> a is InstallNewCore && final(self).phase == SwapPhase::Installing,
            old(self).phase == SwapPhase::RemovingOldBackup ==> a is BackupTarget && final(self).phase == SwapPhase::BackingUp,
            old(self).phase == SwapPhase::BackingUp && event_ok(event) ==> a is InstallNewCore
                && final(self).phase == SwapPhase::Installing && final(self).moved_aside@,
            old(self).phase == SwapPhase::BackingUp && !event_ok(event) ==> a is RemoveNewCopy
                && final(self).phase == SwapPhase::Unwinding && final(self).error@ == MSG_BACKUP@
                + event_error(event) && final(self).pending_restart == old(self).was_running,
            old(self).phase == SwapPhase::Installing && event_ok(event) && old(self).dlls@.len()
                > 0 ==> (a matches SwapAction::CopyDll(d) && d == old(self).dlls@[0]),
            old(self).phase == SwapPhase::Installing && event_ok(event) && old(self).dlls@.len()
                == 0 && old(self).was_running ==> a is AnnounceRestart,
            old(self).phase == SwapPhase::Installing && event_ok(event) && old(self).dlls@.len()
                == 0 && !old(self).was_running ==> a == SwapAction::Finish(Ok(false)),
            old(self).phase == SwapPhase::Installing && !event_ok(event) && old(self).had_old
                ==> a is RenameBackupBack && final(self).error@ == MSG_REPLACE@ + event_error(
                event,
            ),
            old(self).phase == SwapPhase::Installing && !event_ok(event) && !old(self).had_old
                ==> a is RemoveNewCopy && final(self).error@ == MSG_REPLACE@ + event_error(event),
            old(self).phase == SwapPhase::CopyingDlls && event_ok(event) && old(self).next_dll
                + 1 < old(self).dlls@.len() ==> (a matches SwapAction::CopyDll(d) && d == old(
                self).dlls@[old(self).next_dll + 1]),
            old(self).phase == SwapPhase::CopyingDlls && event_ok(event) && old(self).next_dll
                + 1 == old(self).dlls@.len() && old(self).was_running ==> a is AnnounceRestart,
            old(self).phase == SwapPhase::CopyingDlls && event_ok(event) && old(self).next_dll
                + 1 == old(self).dlls@.len() && !old(self).was_running ==> a == SwapAction::Finish(
                Ok(false),
            ),
            old(self).phase == SwapPhase::CopyingDlls && !event_ok(event) ==> final(self).error@
                == MSG_DLL_BEFORE@ + old(self).dlls@[old(self).next_dll as int]@ + MSG_DLL_AFTER@
                + event_error(event),
            old(self).phase == SwapPhase::CopyingDlls && !event_ok(event) && !old(self).had_old
                && !old(self).was_running ==> fails_with(a, final(self).error@),
            old(self).phase == SwapPhase::CopyingDlls && !event_ok(event) && old(self).had_old
                ==> a is ReinstateBackup,
            old(self).phase == SwapPhase::CopyingDlls && !event_ok(event) && !old(self).had_old
                && old(self).was_running ==> a is RestartService,
            old(self).phase == SwapPhase::AnnouncingRestart ==> a is StartService && final(self).phase == SwapPhase::Starting,
            old(self).phase == SwapPhase::Starting && event_ok(event) ==> a is ConfirmServiceRunning
                && final(self).phase == SwapPhase::Confirming,
            old(self).phase == SwapPhase::Starting && !event_ok(event) ==> a is StopServiceForRollback
                && final(self).phase == SwapPhase::RollbackStopping && final(self).error@
                == event_error(event),
            old(self).phase == SwapPhase::Confirming ==> (event matches SwapEvent::ServiceState(
                Ok(s),
            ) ==> (s@ == "running"@ ==> a == SwapAction::Finish(Ok(true)))),
            old(self).phase == SwapPhase::Confirming ==> (event matches SwapEvent::ServiceState(
                Ok(s),
            ) ==> (s@ != "running"@ ==> a is StopServiceForRollback && final(self).error@
                == MSG_NOT_RUNNING_BEFORE@ + s@ + MSG_NOT_RUNNING_AFTER@)),
            old(self).phase == SwapPhase::Confirming && !(event is ServiceState && event_ok(event))
                ==> a is StopServiceForRollback && final(self).error@ == event_error(event),
            old(self).phase == SwapPhase::RollbackStopping && old(self).had_old
                ==> a is CopyBackupOver && final(self).phase == SwapPhase::RollbackCopying,
            old(self).phase == SwapPhase::RollbackStopping && !old(self).had_old ==> fails_with(
                a,
                rollback_failed_message(old(self).error@, MSG_NO_BACKUP@),
            ),
            old(self).phase == SwapPhase::RollbackCopying && event_ok(event)
                ==> a is StartServiceAfterRollback && final(self).phase
                == SwapPhase::RollbackStarting,
            old(self).phase == SwapPhase::RollbackCopying && !event_ok(event) ==> fails_with(
                a,
                rollback_failed_message(old(self).error@, event_error(event)),
            ),
            old(self).phase == SwapPhase::RollbackStarting && event_ok(event) ==> fails_with(
                a,
                MSG_ROLLED_BACK@ + old(self).error@,
            ),
            old(self).phase == SwapPhase::RollbackStarting && !event_ok(event) ==> fails_with(
                a,
                rollback_failed_message(old(self).error@, event_error(event)),
            ),
            old(self).phase == SwapPhase::Unwinding && old(self).pending_restore
                == Restore::RenameBack ==> a is RenameBackupBack,
            old(self).phase == SwapPhase::Unwinding && old(self).pending_restore
                == Restore::Reinstate ==> a is ReinstateBackup,
            old(self).phase == SwapPhase::Unwinding && old(self).pending_restore
                == Restore::Nothing && old(self).pending_remove_new ==> a is RemoveNewCopy,
            old(self).phase == SwapPhase::Unwinding && old(self).pending_restore
                == Restore::Nothing && !old(self).pending_remove_new && old(self).pending_restart
                ==> a is RestartService,
            old(self).phase == SwapPhase::Unwinding && old(self).pending_restore
                == Restore::Nothing && !old(self).pending_remove_new && !old(self).pending_restart
                ==> fails_with(a, old(self).error@),
            // A finished replacement reports success exactly when it succeeded.
            a matches SwapAction::Finish(r) ==> final(self).phase == SwapPhase::Finished && (
            r is Ok <==> final(self).succeeded@),
            a == SwapAction::Finish(Ok(true)) || a == SwapAction::Finish(Ok(false)) ==> (a
                == SwapAction::Finish(Ok(final(self).was_running))),
            !(a is Finish) ==> final(self).phase != SwapPhase::Finished,
    {
        match self.phase {
            SwapPhase::Copying => {
                if Self::ok(&event) {
                    self.phase = SwapPhase::Querying;
                    self.copied_new = Ghost(true);
                    SwapAction::QueryService
                } else {
                    self.phase = SwapPhase::Finished;
                    let e = Self::message_of(event);
                    let mut m = String::from_str(MSG_COPY_NEW);
                    m.append(e.as_str());
                    SwapAction::Finish(Err(m))
                }
            },
            SwapPhase::Querying => {
                let running = match &event {
                    SwapEvent::ServiceState(Ok(s)) => str_equal(s.as_str(), "running") || str_equal(
                        s.as_str(),
                        "starting",
                    ),
                    _ => false,
                };
                self.was_running = running;
                self.phase = SwapPhase::AnnouncingReplace;
                SwapAction::AnnounceReplace
            },
            SwapPhase::AnnouncingReplace => {
                if self.was_running {
                    self.phase = SwapPhase::Stopping;
                    SwapAction::StopService
                } else {
                    self.phase = SwapPhase::CheckingTarget;
                    SwapAction::CheckTargetExists
                }
            },
            SwapPhase::Stopping => {
                let ok = Self::ok(&event);
                if ok {
                    self.phase = SwapPhase::CheckingTarget;
                    self.stopped = Ghost(true);
                    SwapAction::CheckTargetExists
                } else {
                    let e = Self::message_of(event);
                    let mut m = String::from_str(MSG_STOP);
                    m.append(e.as_str());
                    self.fail(Restore::Nothing, true, false, m)
                }
            },
            SwapPhase::CheckingTarget => {
                let exists = match event {
                    SwapEvent::TargetExists(b) => b,
                    _ => false,
                };
                self.had_old = exists;
                if exists {
                    self.phase = SwapPhase::RemovingOldBackup;
                    SwapAction::RemoveOldBackup
                } else {
                    self.phase = SwapPhase::Installing;
                    SwapAction::InstallNewCore
                }
            },
            SwapPhase::RemovingOldBackup => {
                self.phase = SwapPhase::BackingUp;
                SwapAction::BackupTarget
            },
            SwapPhase::BackingUp => {
                if Self::ok(&event) {
                    self.phase = SwapPhase::Installing;
                    self.moved_aside = Ghost(true);
                    SwapAction::InstallNewCore
                } else {
                    let e = Self::message_of(event);
                    let mut m = String::from_str(MSG_BACKUP);
                    m.append(e.as_str());
                    let restart = self.was_running;
                    self.fail(Restore::Nothing, true, restart, m)
                }
            },
            SwapPhase::Installing => {
                if Self::ok(&event) {
                    self.installed = Ghost(true);
                    self.after_install(0)
                } else {
                    let e = Self::message_of(event);
                    let mut m = String::from_str(MSG_REPLACE);
                    m.append(e.as_str());
                    let restore = if self.had_old {
                        Restore::RenameBack
                    } else {
                        Restore::Nothing
                    };
                    let restart = self.was_running;
                    self.fail(restore, true, restart, m)
                }
            },
            SwapPhase::CopyingDlls => {
                if Self::ok(&event) {
                    let n = self.dlls.len();
                    assert(self.next_dll < n);
                    let next = self.next_dll + 1;
                    self.after_install(next)
                } else {
                    let e = Self::message_of(event);
                    let mut m = concat3(MSG_DLL_BEFORE, self.dlls[self.next_dll].as_str(), MSG_DLL_AFTER);
                    m.append(e.as_str());
                    let restore = if self.had_old {
                        Restore::Reinstate
                    } else {
                        Restore::Nothing
                    };
                    let restart = self.was_running;
                    self.fail(restore, false, restart, m)
                }
            },
            SwapPhase::AnnouncingRestart => {
                self.phase = SwapPhase::Starting;
                self.started_new = Ghost(true);
                SwapAction::StartService
            },
            SwapPhase::Starting => {
                if Self::ok(&event) {
                    self.phase = SwapPhase::Confirming;
                    SwapAction::ConfirmServiceRunning
                } else {
                    let e = Self::message_of(event);
                    self.roll_back(e)
                }
            },
            SwapPhase::Confirming => {
                match event {
                    SwapEvent::ServiceState(Ok(s)) => {
                        if str_equal(s.as_str(), "running") {
                            self.phase = SwapPhase::Finished;
                            self.succeeded = Ghost(true);
                            SwapAction::Finish(Ok(true))
                        } else {
                            let m = concat3(MSG_NOT_RUNNING_BEFORE, s.as_str(), MSG_NOT_RUNNING_AFTER);
                            self.roll_back(m)
                        }
                    },
                    other => {
                        let e = Self::message_of(other);
                        self.roll_back(e)
                    },
                }
            },
            SwapPhase::RollbackStopping => {
                if self.had_old {
                    self.phase = SwapPhase::RollbackCopying;
                    self.restore_issued = Ghost(true);
                    SwapAction::CopyBackupOver
                } else {
                    self.phase = SwapPhase::Finished;
                    let mut m = concat3(MSG_START_FAILED, self.error.as_str(), MSG_ROLLBACK_FAILED);
                    m.append(MSG_NO_BACKUP);
                    SwapAction::Finish(Err(m))
                }
            },
            SwapPhase::RollbackCopying => {
                if Self::ok(&event) {
                    self.phase = SwapPhase::RollbackStarting;
                    SwapAction::StartServiceAfterRollback
                } else {
                    self.phase = SwapPhase::Finished;
                    let e = Self::message_of(event);
                    let mut m = concat3(MSG_START_FAILED, self.error.as_str(), MSG_ROLLBACK_FAILED);
                    m.append(e.as_str());
                    SwapAction::Finish(Err(m))
                }
            },
            SwapPhase::RollbackStarting => {
                self.phase = SwapPhase::Finished;
                if Self::ok(&event) {
                    let mut m = String::from_str(MSG_ROLLED_BACK);
                    m.append(self.error.as_str());
                    SwapAction::Finish(Err(m))
                } else {
                    let e = Self::message_of(event);
                    let mut m = concat3(MSG_START_FAILED, self.error.as_str(), MSG_ROLLBACK_FAILED);
                    m.append(e.as_str());
                    SwapAction::Finish(Err(m))
                }
            },
            SwapPhase::Unwinding => self.unwind(),
            SwapPhase::Finished => SwapAction::Finish(Err(String::new())),
        }
    }

    fn ok(event: &SwapEvent) -> (b: bool)
        ensures
            b == event_ok(*event),
    {
        match event {
            SwapEvent::Done => true,
            SwapEvent::TargetExists(_) => true,
            SwapEvent::ServiceState(r) => r.is_ok(),
            SwapEvent::Failed(_) => false,
        }
    }
}

// ---------------------------------------------------------------------------
// Laws of the core replacement.
// ---------------------------------------------------------------------------

/// A replacement that fails after moving the old core aside has put it back
/// (or tried to).
pub proof fn law_failure_restores_old_core(m: CoreSwap)
    requires
        m.wf(),
        m.phase == SwapPhase::Finished,
        !m.succeeded@,
        m.moved_aside@,
    ensures
        m.restore_issued@,
{
}

/// A replacement that fails after stopping the service, before the new core
/// was started, starts the service again.
pub proof fn law_failure_restarts_stopped_service(m: CoreSwap)
    requires
        m.wf(),
        m.phase == SwapPhase::Finished,
        !m.succeeded@,
        m.stopped@,
        !m.started_new@,
    ensures
        m.restart_issued@,
{
}

/// A replacement that fails before installing the new core removes the copy
/// it placed next to the target.
pub proof fn law_failure_removes_new_copy(m: CoreSwap)
    requires
        m.wf(),
        m.phase == SwapPhase::Finished,
        !m.succeeded@,
        m.copied_new@,
        !m.installed@,
    ensures
        m.remove_new_issued@,
{
}

/// Unwinding a failure undoes only what the update did: it restarts the
/// service only if the update stopped it (so only a service that was running
/// before), puts the old core back only if it was moved aside, and removes
/// the new copy only if it was written and not installed.
pub proof fn law_rollback_undoes_only_what_was_done(m: CoreSwap)
    requires
        m.wf(),
    ensures
        m.restart_issued@ ==> m.stopped@ && m.was_running,
        m.restore_issued@ ==> m.moved_aside@ && m.had_old,
        m.remove_new_issued@ ==> m.copied_new@ && !m.installed@,
{
}

/// A replacement succeeds only with the new core installed, every DLL
/// copied and the old core left in the backup.
pub proof fn law_success_installs_everything(m: CoreSwap)
    requires
        m.wf(),
        m.phase == SwapPhase::Finished,
        m.succeeded@,
    ensures
        m.installed@,
        m.next_dll == m.dlls@.len(),
        !m.restore_issued@,
        m.moved_aside@ == m.had_old,
{
}

} // verus!
