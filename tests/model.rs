use vmware_manager::layout::{
    installation_components, normalize_install_path, validate_installation, InstallationError,
};
use vmware_manager::engine::FileRole;
use vmware_manager::model::{
    add_container, add_hardware, find_profile, installed_profile, make_profile, scan_hardware,
    HardwareProfile, ProfileError,
};

fn profile(id: &str) -> HardwareProfile {
    HardwareProfile {
        id: id.to_string(),
        name: id.to_string(),
        bios_path: "b".to_string(),
        executable_path: "e".to_string(),
        created_at: "t".to_string(),
    }
}

#[test]
fn find_profile_takes_the_first_match() {
    let ps = vec![profile("a"), profile("b"), profile("b")];
    assert_eq!(find_profile(&ps, &"b".to_string()), Some(1));
    assert_eq!(find_profile(&ps, &"a".to_string()), Some(0));
    assert_eq!(find_profile(&ps, &"c".to_string()), None);
    assert_eq!(find_profile(&Vec::new(), &"a".to_string()), None);
}

#[test]
fn make_profile_checks_files() {
    let mk = |b: bool, e: bool| {
        make_profile(
            "id".to_string(),
            "t".to_string(),
            "n".to_string(),
            "C:\\b.rom".to_string(),
            "C:\\v.exe".to_string(),
            b,
            e,
        )
    };
    assert_eq!(mk(false, true), Err(ProfileError::BiosMissing));
    assert_eq!(mk(false, false), Err(ProfileError::BiosMissing));
    assert_eq!(mk(true, false), Err(ProfileError::ExecutableMissing));
    assert_eq!(
        mk(true, true),
        Ok(HardwareProfile {
            id: "id".to_string(),
            name: "n".to_string(),
            bios_path: "C:\\b.rom".to_string(),
            executable_path: "C:\\v.exe".to_string(),
            created_at: "t".to_string(),
        })
    );
    assert_eq!(ProfileError::BiosMissing.message(), "BIOS file does not exist");
    assert_eq!(ProfileError::ExecutableMissing.message(), "executable file does not exist");
}

#[test]
fn add_hardware_gives_fresh_ids() {
    let a = add_hardware("n".to_string(), "b".to_string(), "e".to_string(), true, true).unwrap();
    let b = add_hardware("n".to_string(), "b".to_string(), "e".to_string(), true, true).unwrap();
    assert_eq!(a.id.len(), 36);
    assert_ne!(a.id, b.id);
    assert_eq!(a.name, "n");
    assert!(!a.created_at.is_empty());
    assert_eq!(
        add_hardware("n".to_string(), "b".to_string(), "e".to_string(), true, false),
        Err(ProfileError::ExecutableMissing)
    );
}

#[test]
fn add_container_has_no_profile() {
    let c = add_container("C:\\a.vmx".to_string(), "a".to_string());
    assert_eq!(c.vm_definition_path, "C:\\a.vmx");
    assert_eq!(c.name, "a");
    assert_eq!(c.hardware_profile_id, None);
    assert_eq!(c.id.len(), 36);
    assert!(c.created_at.contains('T'));
}

#[test]
fn installed_profile_needs_both_files() {
    let r = installed_profile("b".to_string(), "e".to_string(), true, true, "t".to_string());
    assert_eq!(r.len(), 1);
    assert_eq!(r[0].id, "default");
    assert_eq!(r[0].name, "默认硬件配置");
    assert_eq!(r[0].created_at, "t");
    assert!(installed_profile("b".to_string(), "e".to_string(), false, true, "t".to_string())
        .is_empty());
    assert!(scan_hardware("b".to_string(), "e".to_string(), true, false).is_empty());
    assert_eq!(scan_hardware("b".to_string(), "e".to_string(), true, true)[0].executable_path, "e");
}

#[test]
fn install_path_ends_with_separator() {
    assert_eq!(normalize_install_path("C:\\VMware".to_string()), "C:\\VMware\\");
    assert_eq!(normalize_install_path("C:\\VMware\\".to_string()), "C:\\VMware\\");
    assert_eq!(normalize_install_path(String::new()), "\\");
}

#[test]
fn installation_needs_control_tool() {
    assert_eq!(validate_installation(true), Ok(()));
    assert_eq!(validate_installation(false), Err(InstallationError::ControlToolMissing));
}

#[test]
fn role_paths() {
    assert_eq!(installation_components(FileRole::Installed), vec!["x64", "vmware-vmx.exe"]);
    assert_eq!(installation_components(FileRole::Backup), vec!["x64", "vmware-vmx.exe.backup"]);
    assert!(installation_components(FileRole::Custom).is_empty());
}
