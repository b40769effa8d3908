//! The layout of an installation: where the engine's files and the control
//! tool lie, relative to the installation root.
use vstd::prelude::*;
use crate::engine::FileRole;

verus! {

/// The directory of the hypervisor executable, under the root.
pub const RESOURCE_DIR: &'static str = "x64";

/// The hypervisor executable, in the resource directory.
pub const EXECUTABLE_FILE: &'static str = "vmware-vmx.exe";

/// The backup of the hypervisor executable, beside it.
pub const BACKUP_FILE: &'static str = "vmware-vmx.exe.backup";

/// The firmware image, under the root.
pub const BIOS_FILE: &'static str = "BIOS.440.ROM";

/// The control tool, under the root; an installation without it is invalid.
pub const CONTROL_TOOL_FILE: &'static str = "vmrun.exe";

/// The path separator of installation paths.
pub const SEPARATOR: char = '\\';

/// The path of a role's file below the installation root, component by
/// component; the custom executable lies elsewhere.
pub open spec fn components_of(r: FileRole) -> Seq<Seq<char>> {
    match r {
        FileRole::Installed => seq![RESOURCE_DIR@, EXECUTABLE_FILE@],
        FileRole::Backup => seq![RESOURCE_DIR@, BACKUP_FILE@],
        FileRole::Custom => seq![],
    }
}

/// The components, below the installation root, of a role's file.
pub fn installation_components(r: FileRole) -> (c: Vec<&'static str>)
    ensures
        c@.map_values(|s: &'static str| s@) == components_of(r),
{
    let c = match r {
        FileRole::Installed => vec![RESOURCE_DIR, EXECUTABLE_FILE],
        FileRole::Backup => vec![RESOURCE_DIR, BACKUP_FILE],
        FileRole::Custom => Vec::new(),
    };
    assert(c@.map_values(|s: &'static str| s@) =~= components_of(r));
    c
}

/// The installation path with a separator at its end.
pub open spec fn with_separator(p: Seq<char>) -> Seq<char> {
    if p.len() > 0 && p.last() == SEPARATOR {
        p
    } else {
        p.push(SEPARATOR)
    }
}

/// Ends an installation path with the separator, as the installation
/// discovery reports it.
pub fn normalize_install_path(p: String) -> (r: String)
    ensures
        r@ == with_separator(p@),
{
    let n = p.as_str().unicode_len();
    if n > 0 && p.as_str().get_char(n - 1) == SEPARATOR {
        return p;
    }
    let mut r = p;
    r.append("\\");
    proof {
        reveal_strlit("\\");
        assert(r@ =~= with_separator(p@));
    }
    r
}

/// Why an installation path was refused.
#[derive(Clone, Copy, Debug, PartialEq, Eq, Structural)]
pub enum InstallationError {
    /// The control tool is not under the root.
    ControlToolMissing,
}

/// Accepts an installation root exactly where the control tool lies under it.
pub fn validate_installation(control_tool_exists: bool) -> (r: Result<(), InstallationError>)
    ensures
        r is Ok <==> control_tool_exists,
        r is Err ==> r->Err_0 == InstallationError::ControlToolMissing,
{
    if control_tool_exists {
        Ok(())
    } else {
        Err(InstallationError::ControlToolMissing)
    }
}

} // verus!
