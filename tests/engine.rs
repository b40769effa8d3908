use std::collections::HashMap;
use vmware_manager::engine::{
    copy_failure, plan_restore, plan_swap, CopyStep, EngineError, FileRole, SwapProbe,
};

type Files = HashMap<FileRole, Vec<u8>>;

fn probe(dir: bool, files: &Files) -> SwapProbe {
    SwapProbe {
        resource_dir_exists: dir,
        installed_exists: files.contains_key(&FileRole::Installed),
        custom_exists: files.contains_key(&FileRole::Custom),
        backup_exists: files.contains_key(&FileRole::Backup),
    }
}

fn run(files: &mut Files, steps: &[CopyStep]) {
    for s in steps {
        let content = files[&s.from].clone();
        files.insert(s.to, content);
    }
}

fn swap(files: &mut Files) -> Result<(), EngineError> {
    let steps = plan_swap(probe(true, files))?;
    run(files, &steps);
    Ok(())
}

fn restore(files: &mut Files) -> Result<(), EngineError> {
    let steps = plan_restore(files.contains_key(&FileRole::Backup))?;
    run(files, &steps);
    Ok(())
}

fn fresh_installation() -> Files {
    let mut f = HashMap::new();
    f.insert(FileRole::Installed, b"vendor".to_vec());
    f.insert(FileRole::Custom, b"custom".to_vec());
    f
}

#[test]
fn swap_without_backup_backs_up_first() {
    let p = SwapProbe {
        resource_dir_exists: true,
        installed_exists: true,
        custom_exists: true,
        backup_exists: false,
    };
    let steps = plan_swap(p).unwrap();
    assert_eq!(
        steps,
        vec![
            CopyStep { from: FileRole::Installed, to: FileRole::Backup },
            CopyStep { from: FileRole::Custom, to: FileRole::Installed },
        ]
    );
}

#[test]
fn swap_with_backup_keeps_it() {
    let p = SwapProbe {
        resource_dir_exists: true,
        installed_exists: true,
        custom_exists: true,
        backup_exists: true,
    };
    let steps = plan_swap(p).unwrap();
    assert_eq!(steps, vec![CopyStep { from: FileRole::Custom, to: FileRole::Installed }]);
}

#[test]
fn swap_refuses_missing_preconditions() {
    let all = SwapProbe {
        resource_dir_exists: true,
        installed_exists: true,
        custom_exists: true,
        backup_exists: false,
    };
    assert_eq!(
        plan_swap(SwapProbe { resource_dir_exists: false, installed_exists: false, ..all }),
        Err(EngineError::ResourceDirMissing)
    );
    assert_eq!(
        plan_swap(SwapProbe { installed_exists: false, ..all }),
        Err(EngineError::InstalledMissing)
    );
    assert_eq!(
        plan_swap(SwapProbe { custom_exists: false, ..all }),
        Err(EngineError::CustomMissing)
    );
}

#[test]
fn restore_needs_backup() {
    assert_eq!(plan_restore(false), Err(EngineError::BackupMissing));
    assert_eq!(
        plan_restore(true),
        Ok(vec![CopyStep { from: FileRole::Backup, to: FileRole::Installed }])
    );
}

#[test]
fn two_swaps_keep_one_original_backup() {
    let mut files = fresh_installation();
    swap(&mut files).unwrap();
    files.insert(FileRole::Custom, b"other custom".to_vec());
    swap(&mut files).unwrap();
    assert_eq!(files.len(), 3);
    assert_eq!(files[&FileRole::Backup], b"vendor".to_vec());
    assert_eq!(files[&FileRole::Installed], b"other custom".to_vec());
}

#[test]
fn restore_after_swap_gives_back_the_original() {
    let mut files = fresh_installation();
    swap(&mut files).unwrap();
    assert_eq!(files[&FileRole::Installed], b"custom".to_vec());
    restore(&mut files).unwrap();
    assert_eq!(files[&FileRole::Installed], b"vendor".to_vec());
    assert_eq!(files[&FileRole::Backup], b"vendor".to_vec());
}

#[test]
fn failed_swap_changes_nothing() {
    let mut files = fresh_installation();
    files.remove(&FileRole::Custom);
    let before = files.clone();
    assert_eq!(swap(&mut files), Err(EngineError::CustomMissing));
    assert_eq!(files, before);
}

#[test]
fn copy_failure_keeps_step_and_message() {
    let step = CopyStep { from: FileRole::Backup, to: FileRole::Installed };
    let e = copy_failure(step, "denied".to_string());
    assert_eq!(e, EngineError::CopyFailed { step, message: "denied".to_string() });
    assert_eq!(e.duplicate(), e);
}
