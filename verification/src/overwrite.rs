//! Overwriting the panel executable with a downloaded one, keeping a backup
//! that is put back if the copy fails, and the retry policy of file
//! operations that a just-stopped process may still hold locked.

use vstd::prelude::*;

verus! {

pub const MSG_OVERWRITE: &'static str = "覆盖面板失败: ";

/// How many times a locked file operation is tried.
pub struct Retry {
    pub attempts: u32,
    pub tried: u32,
}

impl Retry {
    pub open spec fn wf(&self) -> bool {
        1 <= self.attempts && self.tried <= self.attempts
    }

    /// A policy of `attempts` tries; at least one try is always made.
    pub fn new(attempts: u32) -> (r: Retry)
        ensures
            r.wf(),
            r.attempts == (if attempts == 0 {
                1
            } else {
                attempts
            }),
            r.tried == 0,
    {
        Retry { attempts: if attempts == 0 {
            1
        } else {
            attempts
        }, tried: 0 }
    }

    /// Records a failed try; `true` when another try follows (after a pause).
    pub fn failed_attempt(&mut self) -> (again: bool)
        requires
            old(self).wf(),
            old(self).tried < old(self).attempts,
        ensures
            final(self).wf(),
            final(self).attempts == old(self).attempts,
            final(self).tried == old(self).tried + 1,
            again == (final(self).tried < final(self).attempts),
    {
        self.tried = self.tried + 1;
        self.tried < self.attempts
    }
}

/// A step of overwriting the panel, performed by the caller.
pub enum OverwriteAction {
    /// Tell whether the target is a file.
    CheckTargetIsFile,
    /// Copy the target to `<target>.exe.bak`.
    BackupTarget,
    /// Copy the new executable over the target (up to five tries).
    CopySource,
    /// Remove `<target>.exe.bak`; the outcome does not matter.
    RemoveBackup,
    /// Copy `<target>.exe.bak` back over the target (up to five tries); the
    /// outcome does not matter.
    RestoreBackup,
    /// The overwrite is over.
    Finish(Result<(), String>),
}

/// The outcome of the last step.
pub enum OverwriteEvent {
    Done,
    Failed(String),
    TargetIsFile(bool),
}

#[derive(Clone, Copy, PartialEq, Eq, Debug, Structural)]
pub enum OverwritePhase {
    Checking,
    BackingUp,
    Copying,
    RemovingAfterSuccess,
    Restoring,
    RemovingAfterFailure,
    Finished,
}

/// The decisions of one overwrite.
pub struct PanelOverwrite {
    pub phase: OverwritePhase,
    /// A backup of the target was made.
    pub had_backup: bool,
    /// The error that the overwrite will report.
    pub error: String,
    /// The new executable was copied over the target.
    pub copied: Ghost<bool>,
    /// The step that puts the backup back was carried out.
    pub restore_issued: Ghost<bool>,
    /// The step that removes the backup was carried out.
    pub backup_removed: Ghost<bool>,
    /// The overwrite finished successfully.
    pub succeeded: Ghost<bool>,
}

pub open spec fn overwrite_event_ok(e: OverwriteEvent) -> bool {
    !(e is Failed)
}

pub open spec fn overwrite_event_error(e: OverwriteEvent) -> Seq<char> {
    match e {
        OverwriteEvent::Failed(m) => m@,
        _ => Seq::empty(),
    }
}

impl PanelOverwrite {
    pub open spec fn wf(&self) -> bool {
        &&& self.succeeded@ ==> self.phase == OverwritePhase::Finished
        &&& (self.phase == OverwritePhase::Checking || self.phase == OverwritePhase::BackingUp)
            ==> !self.had_backup && !self.copied@ && !self.restore_issued@ && !self.backup_removed@
        &&& self.phase == OverwritePhase::Copying ==> !self.copied@ && !self.restore_issued@
            && !self.backup_removed@
        &&& self.phase == OverwritePhase::RemovingAfterSuccess ==> self.copied@ && self.had_backup
            && !self.restore_issued@ && !self.backup_removed@
        &&& self.phase == OverwritePhase::Restoring ==> !self.copied@ && self.had_backup
            && !self.restore_issued@ && !self.backup_removed@
        &&& self.phase == OverwritePhase::RemovingAfterFailure ==> !self.copied@ && self.had_backup
            && self.restore_issued@ && !self.backup_removed@
        &&& self.phase == OverwritePhase::Finished && self.succeeded@ ==> self.copied@
            && !self.restore_issued@ && (self.had_backup ==> self.backup_removed@)
        &&& self.phase == OverwritePhase::Finished && !self.succeeded@ ==> !self.copied@ && (
        self.had_backup ==> self.restore_issued@ && self.backup_removed@)
    }

    /// Begins overwriting the panel.
    pub fn start() -> (r: (PanelOverwrite, OverwriteAction))
        ensures
            r.0.wf(),
            r.0.phase == OverwritePhase::Checking,
            r.1 is CheckTargetIsFile,
    {
        (
            PanelOverwrite {
                phase: OverwritePhase::Checking,
                had_backup: false,
                error: String::new(),
                copied: Ghost(false),
                restore_issued: Ghost(false),
                backup_removed: Ghost(false),
                succeeded: Ghost(false),
            },
            OverwriteAction::CheckTargetIsFile,
        )
    }

    /// Decides the next step from the outcome of the last one.
    pub fn step(&mut self, event: OverwriteEvent) -> (a: OverwriteAction)
        requires
            old(self).wf(),
            old(self).phase != OverwritePhase::Finished,
        ensures
            final(self).wf(),
            // What the overwrite keeps and what it records of the steps done.
            old(self).phase != OverwritePhase::BackingUp && old(self).phase
                != OverwritePhase::Checking ==> final(self).had_backup == old(self).had_backup,
            old(self).phase != OverwritePhase::Copying ==> final(self).error == old(self).error,
            final(self).copied@ == (old(self).copied@ || (old(self).phase
                == OverwritePhase::Copying && overwrite_event_ok(event))),
            final(self).restore_issued@ == (old(self).restore_issued@ || old(self).phase
                == OverwritePhase::Restoring),
            final(self).backup_removed@ == (old(self).backup_removed@ || old(self).phase
                == OverwritePhase::RemovingAfterSuccess || old(self).phase
                == OverwritePhase::RemovingAfterFailure),
            final(self).succeeded@ == (a matches OverwriteAction::Finish(Ok(_))),
            // The step table.
            old(self).phase == OverwritePhase::Checking && event == OverwriteEvent::TargetIsFile(
                true,
            ) ==> a is BackupTarget && final(self).phase == OverwritePhase::BackingUp,
            old(self).phase == OverwritePhase::Checking && event != OverwriteEvent::TargetIsFile(
                true,
            ) ==> a is CopySource && !final(self).had_backup && final(self).phase
                == OverwritePhase::Copying,
            old(self).phase == OverwritePhase::BackingUp ==> a is CopySource && final(self).had_backup
                == overwrite_event_ok(event) && final(self).phase == OverwritePhase::Copying,
            old(self).phase == OverwritePhase::Copying && overwrite_event_ok(event)
                && old(self).had_backup ==> final(self).phase
                == OverwritePhase::RemovingAfterSuccess,
            old(self).phase == OverwritePhase::Copying && !overwrite_event_ok(event)
                && old(self).had_backup ==> final(self).phase == OverwritePhase::Restoring,
            old(self).phase == OverwritePhase::Restoring ==> final(self).phase
                == OverwritePhase::RemovingAfterFailure,
            old(self).phase == OverwritePhase::Copying && overwrite_event_ok(event)
                && old(self).had_backup ==> a is RemoveBackup,
            old(self).phase == OverwritePhase::Copying && overwrite_event_ok(event)
                && !old(self).had_backup ==> a == OverwriteAction::Finish(Ok(())),
            old(self).phase == OverwritePhase::Copying && !overwrite_event_ok(event) ==> final(
                self).error@ == MSG_OVERWRITE@ + overwrite_event_error(event),
            old(self).phase == OverwritePhase::Copying && !overwrite_event_ok(event)
                && old(self).had_backup ==> a is RestoreBackup,
            old(self).phase == OverwritePhase::Copying && !overwrite_event_ok(event)
                && !old(self).had_backup ==> (a matches OverwriteAction::Finish(Err(m)) && m@
                == MSG_OVERWRITE@ + overwrite_event_error(event)),
            old(self).phase == OverwritePhase::RemovingAfterSuccess ==> a == OverwriteAction::Finish(
                Ok(()),
            ),
            old(self).phase == OverwritePhase::Restoring ==> a is RemoveBackup,
            old(self).phase == OverwritePhase::RemovingAfterFailure ==> (a matches OverwriteAction::Finish(
                Err(m),
            ) && m@ == old(self).error@),
            a matches OverwriteAction::Finish(r) ==> final(self).phase == OverwritePhase::Finished
                && (r is Ok <==> final(self).succeeded@),
            !(a is Finish) ==> final(self).phase != OverwritePhase::Finished,
    {
        match self.phase {
            OverwritePhase::Checking => {
                let is_file = match event {
                    OverwriteEvent::TargetIsFile(b) => b,
                    _ => false,
                };
                if is_file {
                    self.phase = OverwritePhase::BackingUp;
                    OverwriteAction::BackupTarget
                } else {
                    self.phase = OverwritePhase::Copying;
                    OverwriteAction::CopySource
                }
            },
            OverwritePhase::BackingUp => {
                self.had_backup = match event {
                    OverwriteEvent::Failed(_) => false,
                    _ => true,
                };
                self.phase = OverwritePhase::Copying;
                OverwriteAction::CopySource
            },
            OverwritePhase::Copying => {
                match event {
                    OverwriteEvent::Failed(e) => {
                        let mut m = String::from_str(MSG_OVERWRITE);
                        m.append(e.as_str());
                        if self.had_backup {
                            self.error = m;
                            self.phase = OverwritePhase::Restoring;
                            OverwriteAction::RestoreBackup
                        } else {
                            self.error = m.clone();
                            self.phase = OverwritePhase::Finished;
                            OverwriteAction::Finish(Err(m))
                        }
                    },
                    _ => {
                        self.copied = Ghost(true);
                        if self.had_backup {
                            self.phase = OverwritePhase::RemovingAfterSuccess;
                            OverwriteAction::RemoveBackup
                        } else {
                            self.phase = OverwritePhase::Finished;
                            self.succeeded = Ghost(true);
                            OverwriteAction::Finish(Ok(()))
                        }
                    },
                }
            },
            OverwritePhase::RemovingAfterSuccess => {
                self.phase = OverwritePhase::Finished;
                self.backup_removed = Ghost(true);
                self.succeeded = Ghost(true);
                OverwriteAction::Finish(Ok(()))
            },
            OverwritePhase::Restoring => {
                self.phase = OverwritePhase::RemovingAfterFailure;
                self.restore_issued = Ghost(true);
                OverwriteAction::RemoveBackup
            },
            OverwritePhase::RemovingAfterFailure => {
                self.phase = OverwritePhase::Finished;
                self.backup_removed = Ghost(true);
                OverwriteAction::Finish(Err(self.error.clone()))
            },
            OverwritePhase::Finished => OverwriteAction::Finish(Err(self.error.clone())),
        }
    }
}

/// An overwrite that fails after backing up the target puts the backup back
/// and then removes it.
pub proof fn law_failed_overwrite_restores_target(m: PanelOverwrite)
    requires
        m.wf(),
        m.phase == OverwritePhase::Finished,
        !m.succeeded@,
        m.had_backup,
    ensures
        m.restore_issued@,
        m.backup_removed@,
{
}

/// An overwrite that succeeds has copied the new executable and leaves no
/// backup behind.
pub proof fn law_successful_overwrite_leaves_no_backup(m: PanelOverwrite)
    requires
        m.wf(),
        m.phase == OverwritePhase::Finished,
        m.succeeded@,
    ensures
        m.copied@,
        m.had_backup ==> m.backup_removed@,
        !m.restore_issued@,
{
}

} // verus!
