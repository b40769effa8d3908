use vmware_manager::scan::{definition_entry, entry_from_parts, VmDefinitionEntry};

#[test]
fn definition_entry_keeps_vmx_files() {
    let e = definition_entry("/vms/win10/Windows 10.vmx".to_string(), Some("a = 1".to_string()));
    assert_eq!(
        e,
        Some(VmDefinitionEntry {
            path: "/vms/win10/Windows 10.vmx".to_string(),
            name: "Windows 10".to_string(),
            raw_config: Some("a = 1".to_string()),
        })
    );
}

#[test]
fn definition_entry_skips_other_files() {
    assert_eq!(definition_entry("/vms/win10/disk.vmdk".to_string(), None), None);
    assert_eq!(definition_entry("/vms/win10/notes".to_string(), None), None);
    assert_eq!(definition_entry("/vms/win10/a.VMX".to_string(), None), None);
}

#[test]
fn entry_without_stem_is_unknown() {
    let e = entry_from_parts("x".to_string(), Some("vmx".to_string()), None, None).unwrap();
    assert_eq!(e.name, "Unknown");
    assert_eq!(entry_from_parts("x".to_string(), None, Some("x".to_string()), None), None);
}
