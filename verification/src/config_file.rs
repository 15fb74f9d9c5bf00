//! Replacing the settings file safely. The new contents are first written
//! to a temporary file; these steps decide which file operation comes next
//! so that the previous settings survive a failed replacement. The caller
//! performs each operation and reports whether it succeeded.
use vstd::prelude::*;

verus! {

/// Why the settings file could not be replaced.
#[derive(Clone, Copy, Debug, PartialEq, Eq, Structural)]
pub enum ConfigWriteError {
    /// Moving the temporary file into place (no settings file existed) failed.
    MoveFailed,
    /// Moving the existing settings file aside as a backup failed.
    BackupFailed,
    /// Moving the temporary file over the settings file failed; the backup
    /// was moved back.
    ReplaceFailed,
}

/// The next file operation of a replacement.
#[derive(Clone, Copy, Debug, PartialEq, Eq, Structural)]
pub enum ReplaceStep {
    /// Rename the temporary file to the settings file (none exists yet).
    MoveIntoPlace,
    /// Delete a backup left by an earlier run (its outcome does not matter).
    RemoveOldBackup,
    /// Rename the settings file to the backup file.
    BackUpConfig,
    /// Rename the temporary file to the settings file.
    ReplaceConfig,
    /// Delete the backup (its outcome does not matter).
    DropBackup,
    /// Rename the backup back to the settings file (its outcome does not
    /// matter).
    RestoreBackup,
    /// The replacement is over: the new settings are in place.
    Done,
    /// The replacement is over and failed.
    Failed(ConfigWriteError),
}

pub open spec fn replace_start_spec(config_exists: bool, backup_exists: bool) -> ReplaceStep {
    if !config_exists {
        ReplaceStep::MoveIntoPlace
    } else if backup_exists {
        ReplaceStep::RemoveOldBackup
    } else {
        ReplaceStep::BackUpConfig
    }
}

/// The first operation: a plain rename when there are no settings yet;
/// otherwise clear a stale backup, if any, before backing up.
pub fn replace_start(config_exists: bool, backup_exists: bool) -> (r: ReplaceStep)
    ensures
        r == replace_start_spec(config_exists, backup_exists),
{
    if !config_exists {
        ReplaceStep::MoveIntoPlace
    } else if backup_exists {
        ReplaceStep::RemoveOldBackup
    } else {
        ReplaceStep::BackUpConfig
    }
}

pub open spec fn replace_next_spec(step: ReplaceStep, succeeded: bool) -> ReplaceStep {
    match step {
        ReplaceStep::MoveIntoPlace => if succeeded {
            ReplaceStep::Done
        } else {
            ReplaceStep::Failed((ConfigWriteError::MoveFailed))
        },
        ReplaceStep::RemoveOldBackup => ReplaceStep::BackUpConfig,
        ReplaceStep::BackUpConfig => if succeeded {
            ReplaceStep::ReplaceConfig
        } else {
            ReplaceStep::Failed((ConfigWriteError::BackupFailed))
        },
        ReplaceStep::ReplaceConfig => if succeeded {
            ReplaceStep::DropBackup
        } else {
            ReplaceStep::RestoreBackup
        },
        ReplaceStep::DropBackup => ReplaceStep::Done,
        ReplaceStep::RestoreBackup => ReplaceStep::Failed((ConfigWriteError::ReplaceFailed)),
        ReplaceStep::Done => ReplaceStep::Done,
        ReplaceStep::Failed(e) => ReplaceStep::Failed(e),
    }
}

/// The operation after `step`, given whether it succeeded.
pub fn replace_next(step: ReplaceStep, succeeded: bool) -> (r: ReplaceStep)
    ensures
        r == replace_next_spec(step, succeeded),
{
    match step {
        ReplaceStep::MoveIntoPlace => if succeeded {
            ReplaceStep::Done
        } else {
            ReplaceStep::Failed((ConfigWriteError::MoveFailed))
        },
        ReplaceStep::RemoveOldBackup => ReplaceStep::BackUpConfig,
        ReplaceStep::BackUpConfig => if succeeded {
            ReplaceStep::ReplaceConfig
        } else {
            ReplaceStep::Failed((ConfigWriteError::BackupFailed))
        },
        ReplaceStep::ReplaceConfig => if succeeded {
            ReplaceStep::DropBackup
        } else {
            ReplaceStep::RestoreBackup
        },
        ReplaceStep::DropBackup => ReplaceStep::Done,
        ReplaceStep::RestoreBackup => ReplaceStep::Failed((ConfigWriteError::ReplaceFailed)),
        ReplaceStep::Done => ReplaceStep::Done,
        ReplaceStep::Failed(e) => ReplaceStep::Failed(e),
    }
}

/// The step reached after performing the operations with the given
/// outcomes, in order.
pub open spec fn replace_run(step: ReplaceStep, outcomes: Seq<bool>) -> ReplaceStep
    decreases outcomes.len(),
{
    if outcomes.len() == 0 {
        step
    } else {
        replace_run(replace_next_spec(step, outcomes[0]), outcomes.drop_first())
    }
}

/// Whatever the file operations do, a replacement is over after at most
/// four of them; it succeeds only if the temporary file was moved into
/// place, and when replacing an existing file failed the backup was moved
/// back first.
pub proof fn law_replacement_finishes(config_exists: bool, backup_exists: bool, outcomes: Seq<bool>)
    requires
        outcomes.len() == 4,
    ensures
        replace_run(replace_start_spec(config_exists, backup_exists), outcomes) is Done
            || replace_run(replace_start_spec(config_exists, backup_exists), outcomes) is Failed,
        replace_run(replace_start_spec(config_exists, backup_exists), outcomes) is Done ==> if !config_exists {
            outcomes[0]
        } else if backup_exists {
            outcomes[1] && outcomes[2]
        } else {
            outcomes[0] && outcomes[1]
        },
{
    let o1 = outcomes.drop_first();
    let o2 = o1.drop_first();
    let o3 = o2.drop_first();
    let o4 = o3.drop_first();
    assert(o4.len() == 0);
    assert(o1[0] == outcomes[1]);
    assert(o2[0] == outcomes[2]);
    assert(o3[0] == outcomes[3]);
    let s0 = replace_start_spec(config_exists, backup_exists);
    let s1 = replace_next_spec(s0, outcomes[0]);
    let s2 = replace_next_spec(s1, outcomes[1]);
    let s3 = replace_next_spec(s2, outcomes[2]);
    let s4 = replace_next_spec(s3, outcomes[3]);
    assert(replace_run(s4, o4) == s4);
    assert(replace_run(s3, o3) == s4);
    assert(replace_run(s2, o2) == s4);
    assert(replace_run(s1, o1) == s4);
    assert(replace_run(s0, outcomes) == s4);
}

/// A failed replacement of an existing settings file is followed by moving
/// the backup back.
pub proof fn law_failed_replace_restores()
    ensures
        replace_next_spec(ReplaceStep::ReplaceConfig, false) == ReplaceStep::RestoreBackup,
        replace_next_spec(ReplaceStep::RestoreBackup, true) == ReplaceStep::Failed(
            ConfigWriteError::ReplaceFailed,
        ),
        replace_next_spec(ReplaceStep::RestoreBackup, false) == ReplaceStep::Failed(
            ConfigWriteError::ReplaceFailed,
        ),
{
}

/// A replacement succeeds exactly when the renames that move files succeed:
/// with no settings file yet, moving the temporary file into place; with
/// one, backing it up and then moving the temporary file over it (the
/// outcome of deleting a stale backup does not matter). In particular a
/// replacement whose operations all succeed is done.
pub proof fn law_replacement_succeeds(config_exists: bool, backup_exists: bool, outcomes: Seq<bool>)
    requires
        outcomes.len() == 4,
    ensures
        (replace_run(replace_start_spec(config_exists, backup_exists), outcomes) == ReplaceStep::Done)
            <==> (if !config_exists {
            outcomes[0]
        } else if backup_exists {
            outcomes[1] && outcomes[2]
        } else {
            outcomes[0] && outcomes[1]
        }),
        outcomes[0] && outcomes[1] && outcomes[2] && outcomes[3] ==> replace_run(
            replace_start_spec(config_exists, backup_exists),
            outcomes,
        ) == ReplaceStep::Done,
        !config_exists && !outcomes[0] ==> replace_run(
            replace_start_spec(config_exists, backup_exists),
            outcomes,
        ) == ReplaceStep::Failed(ConfigWriteError::MoveFailed),
{
    let o1 = outcomes.drop_first();
    let o2 = o1.drop_first();
    let o3 = o2.drop_first();
    let o4 = o3.drop_first();
    assert(o4.len() == 0);
    assert(o1[0] == outcomes[1]);
    assert(o2[0] == outcomes[2]);
    assert(o3[0] == outcomes[3]);
    let s0 = replace_start_spec(config_exists, backup_exists);
    let s1 = replace_next_spec(s0, outcomes[0]);
    let s2 = replace_next_spec(s1, outcomes[1]);
    let s3 = replace_next_spec(s2, outcomes[2]);
    let s4 = replace_next_spec(s3, outcomes[3]);
    assert(replace_run(s4, o4) == s4);
    assert(replace_run(s3, o3) == s4);
    assert(replace_run(s2, o2) == s4);
    assert(replace_run(s1, o1) == s4);
    assert(replace_run(s0, outcomes) == s4);
}

} // verus!
