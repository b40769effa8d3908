//! The persisted records: hardware profiles, containers and settings.
use vstd::prelude::*;

verus! {

/// A named pairing of an alternate firmware image and hypervisor executable.
#[derive(Clone, Debug, PartialEq, Eq)]
pub struct HardwareProfile {
    pub id: String,
    pub name: String,
    pub bios_path: String,
    pub executable_path: String,
    pub created_at: String,
}

/// A saved association between a VM definition and an optional profile.
#[derive(Clone, Debug, PartialEq, Eq)]
pub struct Container {
    pub id: String,
    pub name: String,
    pub vm_definition_path: String,
    pub created_at: String,
    pub hardware_profile_id: Option<String>,
}

/// The singleton settings document.
#[derive(Clone, Debug, PartialEq, Eq)]
pub struct Settings {
    pub installation_path: Option<String>,
    pub original_bios_path: Option<String>,
    pub original_executable_path: Option<String>,
}

impl Settings {
    /// The document in force before anything was saved: every entry unset.
    pub fn defaults() -> (r: Settings)
        ensures
            r.installation_path is None,
            r.original_bios_path is None,
            r.original_executable_path is None,
    {
        Settings { installation_path: None, original_bios_path: None, original_executable_path: None }
    }
}

/// The index of the first profile in `ps` whose id is `id`, if any.
pub open spec fn first_with_id(ps: Seq<HardwareProfile>, id: Seq<char>) -> Option<int> {
    if exists|i: int| is_first_with_id(ps, id, i) {
        Some(choose|i: int| is_first_with_id(ps, id, i))
    } else {
        None
    }
}

pub open spec fn is_first_with_id(ps: Seq<HardwareProfile>, id: Seq<char>, i: int) -> bool {
    &&& 0 <= i < ps.len()
    &&& ps[i].id@ == id
    &&& forall|j: int| 0 <= j < i ==> ps[j].id@ != id
}

/// Finds the first profile of the collection with the given id.
pub fn find_profile(ps: &Vec<HardwareProfile>, id: &String) -> (r: Option<usize>)
    ensures
        match r {
            Some(i) => first_with_id(ps@, id@) == Some(i as int),
            None => first_with_id(ps@, id@) is None,
        },
{
    let mut i: usize = 0;
    while i < ps.len()
        invariant
            i <= ps@.len(),
            forall|j: int| 0 <= j < i ==> ps@[j].id@ != id@,
        decreases ps@.len() - i,
    {
        if ps[i].id == *id {
            assert(is_first_with_id(ps@, id@, i as int));
            assert forall|k: int| is_first_with_id(ps@, id@, k) implies k == i by {
                if k < i {
                } else if k > i {
                    assert(ps@[i as int].id@ == id@);
                }
            }
            return Some(i);
        }
        i += 1;
    }
    None
}

/// Why a profile could not be created.
#[derive(Clone, Copy, Debug, PartialEq, Eq, Structural)]
pub enum ProfileError {
    /// The firmware image does not exist.
    BiosMissing,
    /// The hypervisor executable does not exist.
    ExecutableMissing,
}

/// The message of each profile error.
pub open spec fn profile_message(e: ProfileError) -> Seq<char> {
    match e {
        ProfileError::BiosMissing => "BIOS file does not exist"@,
        ProfileError::ExecutableMissing => "executable file does not exist"@,
    }
}

impl ProfileError {
    /// The message shown to the user.
    pub fn message(self) -> (r: String)
        ensures
            r@ == profile_message(self),
    {
        match self {
            ProfileError::BiosMissing => String::from_str("BIOS file does not exist"),
            ProfileError::ExecutableMissing => String::from_str("executable file does not exist"),
        }
    }
}

/// The id of the profile found in the installation itself.
pub const DEFAULT_PROFILE_ID: &'static str = "default";

/// The name of the profile found in the installation itself.
pub const DEFAULT_PROFILE_NAME: &'static str = "默认硬件配置";

/// Relies on `uuid::Uuid::new_v4` and its `Display`: a fresh random id in the
/// hyphenated form, 36 characters.
#[verifier::external_body]
fn fresh_id() -> (r: String)
    ensures
        r@.len() == 36,
{
    uuid::Uuid::new_v4().to_string()
}

/// Relies on `chrono::Local::now` and `DateTime::to_rfc3339`: the current
/// local time as an RFC 3339 timestamp.
#[verifier::external_body]
fn now_rfc3339() -> (r: String) {
    chrono::Local::now().to_rfc3339()
}

/// The error of creating a profile whose files exist as given, if any.
pub open spec fn profile_failure(bios_exists: bool, executable_exists: bool) -> Option<ProfileError> {
    if !bios_exists {
        Some(ProfileError::BiosMissing)
    } else if !executable_exists {
        Some(ProfileError::ExecutableMissing)
    } else {
        None
    }
}

/// Builds a profile from its id and timestamp, where both of its files exist.
pub fn make_profile(
    id: String,
    created_at: String,
    name: String,
    bios_path: String,
    executable_path: String,
    bios_exists: bool,
    executable_exists: bool,
) -> (r: Result<HardwareProfile, ProfileError>)
    ensures
        match r {
            Ok(p) => profile_failure(bios_exists, executable_exists) is None && p == (
            HardwareProfile { id, name, bios_path, executable_path, created_at }),
            Err(e) => profile_failure(bios_exists, executable_exists) == Some(e),
        },
{
    if !bios_exists {
        return Err(ProfileError::BiosMissing);
    }
    if !executable_exists {
        return Err(ProfileError::ExecutableMissing);
    }
    Ok(HardwareProfile { id, name, bios_path, executable_path, created_at })
}

/// Creates a profile with a fresh id, stamped now, where both of its files
/// exist.
pub fn add_hardware(
    name: String,
    bios_path: String,
    executable_path: String,
    bios_exists: bool,
    executable_exists: bool,
) -> (r: Result<HardwareProfile, ProfileError>)
    ensures
        match r {
            Ok(p) => profile_failure(bios_exists, executable_exists) is None && p.name == name
                && p.bios_path == bios_path && p.executable_path == executable_path && p.id@.len()
                == 36,
            Err(e) => profile_failure(bios_exists, executable_exists) == Some(e),
        },
{
    let id = fresh_id();
    let created_at = now_rfc3339();
    make_profile(id, created_at, name, bios_path, executable_path, bios_exists, executable_exists)
}

/// Creates a container for a VM definition, with a fresh id, stamped now, and
/// no profile.
pub fn add_container(vm_definition_path: String, name: String) -> (r: Container)
    ensures
        r.vm_definition_path == vm_definition_path,
        r.name == name,
        r.hardware_profile_id is None,
        r.id@.len() == 36,
{
    Container {
        id: fresh_id(),
        name,
        vm_definition_path,
        created_at: now_rfc3339(),
        hardware_profile_id: None,
    }
}

/// The profile found in the installation itself: present only where both the
/// firmware image and the executable exist there.
pub fn installed_profile(
    bios_path: String,
    executable_path: String,
    bios_exists: bool,
    executable_exists: bool,
    created_at: String,
) -> (r: Vec<HardwareProfile>)
    ensures
        bios_exists && executable_exists ==> r@.len() == 1 && r@[0].id@ == DEFAULT_PROFILE_ID@
            && r@[0].name@ == DEFAULT_PROFILE_NAME@ && r@[0].bios_path == bios_path
            && r@[0].executable_path == executable_path && r@[0].created_at == created_at,
        !(bios_exists && executable_exists) ==> r@.len() == 0,
{
    let mut r: Vec<HardwareProfile> = Vec::new();
    if bios_exists && executable_exists {
        r.push(
            HardwareProfile {
                id: String::from_str(DEFAULT_PROFILE_ID),
                name: String::from_str(DEFAULT_PROFILE_NAME),
                bios_path,
                executable_path,
                created_at,
            },
        );
    }
    r
}

/// The profiles found in the installation itself, stamped now.
pub fn scan_hardware(
    bios_path: String,
    executable_path: String,
    bios_exists: bool,
    executable_exists: bool,
) -> (r: Vec<HardwareProfile>)
    ensures
        bios_exists && executable_exists ==> r@.len() == 1 && r@[0].id@ == DEFAULT_PROFILE_ID@
            && r@[0].name@ == DEFAULT_PROFILE_NAME@ && r@[0].bios_path == bios_path
            && r@[0].executable_path == executable_path,
        !(bios_exists && executable_exists) ==> r@.len() == 0,
{
    installed_profile(bios_path, executable_path, bios_exists, executable_exists, now_rfc3339())
}

} // verus!
