//! The profile substitution engine: which copies back up, swap and restore the
//! installed hypervisor executable, decided from what exists on disk.
//!
//! The files are named by role; the caller maps each role to a path inside
//! the installation and performs the copies in order.
use vstd::prelude::*;

verus! {

/// A file the engine reads or writes.
#[derive(Clone, Copy, Debug, PartialEq, Eq, Hash, Structural)]
pub enum FileRole {
    /// The hypervisor executable inside the installation.
    Installed,
    /// The one-time copy of the vendor executable, beside the installed one.
    Backup,
    /// The profile's custom executable.
    Custom,
}

/// Copy the content of `from` over `to`.
#[derive(Clone, Copy, Debug, PartialEq, Eq, Structural)]
pub struct CopyStep {
    pub from: FileRole,
    pub to: FileRole,
}

/// What exists on disk before a swap.
#[derive(Clone, Copy, Debug, PartialEq, Eq, Structural)]
pub struct SwapProbe {
    pub resource_dir_exists: bool,
    pub installed_exists: bool,
    pub custom_exists: bool,
    pub backup_exists: bool,
}

/// Why a swap or a restore did not complete.
#[derive(Clone, Debug, PartialEq, Eq)]
pub enum EngineError {
    /// The installation has no executable-resource directory.
    ResourceDirMissing,
    /// The installed executable is not where it is expected.
    InstalledMissing,
    /// The profile's custom executable does not exist.
    CustomMissing,
    /// No backup exists to restore from.
    BackupMissing,
    /// A copy failed; the step and the system's message.
    CopyFailed { step: CopyStep, message: String },
}

impl EngineError {
    /// A copy of this error.
    pub fn duplicate(&self) -> (r: EngineError)
        ensures
            r == *self,
    {
        match self {
            EngineError::ResourceDirMissing => EngineError::ResourceDirMissing,
            EngineError::InstalledMissing => EngineError::InstalledMissing,
            EngineError::CustomMissing => EngineError::CustomMissing,
            EngineError::BackupMissing => EngineError::BackupMissing,
            EngineError::CopyFailed { step, message } => EngineError::CopyFailed {
                step: *step,
                message: message.clone(),
            },
        }
    }
}

pub open spec fn copy(from: FileRole, to: FileRole) -> CopyStep {
    CopyStep { from, to }
}

/// The precondition that a swap finds missing first, if any.
pub open spec fn swap_failure(p: SwapProbe) -> Option<EngineError> {
    if !p.resource_dir_exists {
        Some(EngineError::ResourceDirMissing)
    } else if !p.installed_exists {
        Some(EngineError::InstalledMissing)
    } else if !p.custom_exists {
        Some(EngineError::CustomMissing)
    } else {
        None
    }
}

/// The copies of a swap: a backup only where none exists yet, then the
/// custom executable over the installed one.
pub open spec fn swap_steps(backup_exists: bool) -> Seq<CopyStep> {
    if backup_exists {
        seq![copy(FileRole::Custom, FileRole::Installed)]
    } else {
        seq![copy(FileRole::Installed, FileRole::Backup), copy(FileRole::Custom, FileRole::Installed)]
    }
}

/// The copies of a restore: the backup over the installed executable.
pub open spec fn restore_steps() -> Seq<CopyStep> {
    seq![copy(FileRole::Backup, FileRole::Installed)]
}

/// Plans a swap. Fails, with nothing to copy, where a precondition is missing.
pub fn plan_swap(p: SwapProbe) -> (r: Result<Vec<CopyStep>, EngineError>)
    ensures
        match r {
            Ok(steps) => swap_failure(p) is None && steps@ == swap_steps(p.backup_exists),
            Err(e) => swap_failure(p) == Some(e),
        },
{
    if !p.resource_dir_exists {
        return Err(EngineError::ResourceDirMissing);
    }
    if !p.installed_exists {
        return Err(EngineError::InstalledMissing);
    }
    if !p.custom_exists {
        return Err(EngineError::CustomMissing);
    }
    let mut steps: Vec<CopyStep> = Vec::new();
    if !p.backup_exists {
        steps.push(CopyStep { from: FileRole::Installed, to: FileRole::Backup });
    }
    steps.push(CopyStep { from: FileRole::Custom, to: FileRole::Installed });
    proof {
        assert(steps@ =~= swap_steps(p.backup_exists));
    }
    Ok(steps)
}

/// Plans a restore. Fails where no backup exists; the backup is kept.
pub fn plan_restore(backup_exists: bool) -> (r: Result<Vec<CopyStep>, EngineError>)
    ensures
        match r {
            Ok(steps) => backup_exists && steps@ == restore_steps(),
            Err(e) => !backup_exists && e == EngineError::BackupMissing,
        },
{
    if !backup_exists {
        return Err(EngineError::BackupMissing);
    }
    let steps = vec![CopyStep { from: FileRole::Backup, to: FileRole::Installed }];
    proof {
        assert(steps@ =~= restore_steps());
    }
    Ok(steps)
}

/// The error reported when the copy `step` fails with `message`.
pub fn copy_failure(step: CopyStep, message: String) -> (r: EngineError)
    ensures
        r == (EngineError::CopyFailed { step, message }),
{
    EngineError::CopyFailed { step, message }
}

// The files of an installation, by role: a role is present where it is in the
// domain, and maps to the file's content.

/// The files after one copy; a copy from a missing file changes nothing.
pub open spec fn apply_copy(fs: Map<FileRole, Seq<u8>>, s: CopyStep) -> Map<FileRole, Seq<u8>> {
    if fs.contains_key(s.from) {
        fs.insert(s.to, fs[s.from])
    } else {
        fs
    }
}

/// The files after the copies of `steps`, in order.
pub open spec fn apply_steps(fs: Map<FileRole, Seq<u8>>, steps: Seq<CopyStep>) -> Map<
    FileRole,
    Seq<u8>,
>
    decreases steps.len(),
{
    if steps.len() == 0 {
        fs
    } else {
        apply_steps(apply_copy(fs, steps[0]), steps.drop_first())
    }
}

/// What a swap finds on disk, given the files and whether the resource
/// directory exists.
pub open spec fn probe_of(dir_exists: bool, fs: Map<FileRole, Seq<u8>>) -> SwapProbe {
    SwapProbe {
        resource_dir_exists: dir_exists,
        installed_exists: fs.contains_key(FileRole::Installed),
        custom_exists: fs.contains_key(FileRole::Custom),
        backup_exists: fs.contains_key(FileRole::Backup),
    }
}

/// The files after a swap; unchanged where the swap fails.
pub open spec fn after_swap(dir_exists: bool, fs: Map<FileRole, Seq<u8>>) -> Map<FileRole, Seq<u8>> {
    let p = probe_of(dir_exists, fs);
    if swap_failure(p) is None {
        apply_steps(fs, swap_steps(p.backup_exists))
    } else {
        fs
    }
}

/// The files after a restore; unchanged where no backup exists.
pub open spec fn after_restore(fs: Map<FileRole, Seq<u8>>) -> Map<FileRole, Seq<u8>> {
    if fs.contains_key(FileRole::Backup) {
        apply_steps(fs, restore_steps())
    } else {
        fs
    }
}

/// A backup that exists holds what the installed executable holds: the state
/// before any swap, or after a restore.
pub open spec fn backup_consistent(fs: Map<FileRole, Seq<u8>>) -> bool {
    fs.contains_key(FileRole::Backup) ==> fs.contains_key(FileRole::Installed) && fs[FileRole::Backup]
        == fs[FileRole::Installed]
}

proof fn lemma_swap_effect(dir_exists: bool, fs: Map<FileRole, Seq<u8>>)
    requires
        swap_failure(probe_of(dir_exists, fs)) is None,
    ensures
        after_swap(dir_exists, fs) == (if fs.contains_key(FileRole::Backup) {
            fs.insert(FileRole::Installed, fs[FileRole::Custom])
        } else {
            fs.insert(FileRole::Backup, fs[FileRole::Installed]).insert(
                FileRole::Installed,
                fs[FileRole::Custom],
            )
        }),
{
    let steps = swap_steps(fs.contains_key(FileRole::Backup));
    let empty = Seq::<CopyStep>::empty();
    let replace = copy(FileRole::Custom, FileRole::Installed);
    if fs.contains_key(FileRole::Backup) {
        assert(steps.drop_first() =~= empty);
        assert(apply_steps(fs, steps) == apply_steps(apply_copy(fs, replace), empty));
    } else {
        let fs1 = apply_copy(fs, copy(FileRole::Installed, FileRole::Backup));
        assert(steps.drop_first() =~= seq![replace]);
        assert(steps.drop_first().drop_first() =~= empty);
        assert(apply_steps(fs, steps) == apply_steps(fs1, seq![replace]));
        assert(apply_steps(fs1, seq![replace]) == apply_steps(apply_copy(fs1, replace), empty));
    }
}

/// Two swaps in a row keep exactly one backup, holding what the installed
/// executable held before the first swap.
pub proof fn lemma_backup_once(dir_exists: bool, fs: Map<FileRole, Seq<u8>>)
    requires
        swap_failure(probe_of(dir_exists, fs)) is None,
        backup_consistent(fs),
    ensures
        after_swap(dir_exists, after_swap(dir_exists, fs)).dom() == fs.dom().insert(
            FileRole::Backup,
        ),
        after_swap(dir_exists, after_swap(dir_exists, fs))[FileRole::Backup]
            == fs[FileRole::Installed],
{
    lemma_swap_effect(dir_exists, fs);
    let fs1 = after_swap(dir_exists, fs);
    lemma_swap_effect(dir_exists, fs1);
    let fs2 = after_swap(dir_exists, fs1);
    assert(fs2.dom() =~= fs.dom().insert(FileRole::Backup));
}

/// A swap followed by a restore gives the installed executable back its
/// content from before the swap, and keeps the backup.
pub proof fn lemma_restore_undoes_swap(dir_exists: bool, fs: Map<FileRole, Seq<u8>>)
    requires
        swap_failure(probe_of(dir_exists, fs)) is None,
        backup_consistent(fs),
    ensures
        after_restore(after_swap(dir_exists, fs))[FileRole::Installed] == fs[FileRole::Installed],
        after_restore(after_swap(dir_exists, fs)).contains_key(FileRole::Backup),
        backup_consistent(after_restore(after_swap(dir_exists, fs))),
{
    lemma_swap_effect(dir_exists, fs);
    let fs1 = after_swap(dir_exists, fs);
    assert(restore_steps().drop_first() =~= Seq::<CopyStep>::empty());
    assert(apply_steps(fs1, restore_steps()) == apply_steps(
        apply_copy(fs1, copy(FileRole::Backup, FileRole::Installed)),
        Seq::<CopyStep>::empty(),
    ));
}

} // verus!
