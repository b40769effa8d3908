use vmware_manager::control::{
    list_args, running_vms, running_vms_from_bytes, same_text, skip_header, Verb,
};

#[test]
fn parse_known_verbs() {
    assert_eq!(Verb::parse("start"), Some(Verb::Start));
    assert_eq!(Verb::parse("stop"), Some(Verb::Stop));
    assert_eq!(Verb::parse("pause"), Some(Verb::Pause));
    assert_eq!(Verb::parse("reset"), Some(Verb::Reset));
}

#[test]
fn parse_refuses_other_text() {
    assert_eq!(Verb::parse("explode"), None);
    assert_eq!(Verb::parse("Start"), None);
    assert_eq!(Verb::parse(""), None);
    assert_eq!(Verb::parse("starts"), None);
}

#[test]
fn tool_args_per_verb() {
    let p = "C:\\vms\\a.vmx".to_string();
    assert_eq!(Verb::Start.tool_args(&p), vec!["start", "C:\\vms\\a.vmx", "gui"]);
    assert_eq!(Verb::Stop.tool_args(&p), vec!["stop", "C:\\vms\\a.vmx", "soft"]);
    assert_eq!(Verb::Pause.tool_args(&p), vec!["pause", "C:\\vms\\a.vmx"]);
    assert_eq!(Verb::Reset.tool_args(&p), vec!["reset", "C:\\vms\\a.vmx", "soft"]);
    assert_eq!(Verb::Reset.word(), "reset");
}

#[test]
fn list_has_one_argument() {
    assert_eq!(list_args(), vec!["list"]);
}

#[test]
fn running_vms_skip_the_header() {
    let out = "Total running VMs: 2\r\nC:\\vms\\a.vmx\r\nC:\\vms\\b.vmx\r\n";
    assert_eq!(running_vms(out), vec!["C:\\vms\\a.vmx", "C:\\vms\\b.vmx"]);
    assert_eq!(running_vms("Total running VMs: 0\n"), Vec::<String>::new());
    assert_eq!(running_vms(""), Vec::<String>::new());
}

#[test]
fn skip_header_drops_only_the_first() {
    let lines = vec!["h".to_string(), "a".to_string(), "b".to_string()];
    assert_eq!(skip_header(lines), vec!["a", "b"]);
    assert_eq!(skip_header(Vec::new()), Vec::<String>::new());
}

#[test]
fn running_vms_from_bytes_decodes() {
    let out = b"Total running VMs: 1\nC:\\vms\\a.vmx\n".to_vec();
    assert_eq!(running_vms_from_bytes(out), Ok(vec!["C:\\vms\\a.vmx".to_string()]));
    assert!(running_vms_from_bytes(vec![0xff, 0xfe, b'\n']).is_err());
}

#[test]
fn same_text_compares_characters() {
    assert!(same_text("abc", "abc"));
    assert!(!same_text("abc", "abd"));
    assert!(!same_text("abc", "ab"));
    assert!(same_text("", ""));
}
