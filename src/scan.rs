//! The entries of a directory scan for VM definitions: which files are VM
//! definitions, and the name each is shown under.
use vstd::prelude::*;
use crate::control::same_text;

verus! {

/// A VM definition file found by a scan.
#[derive(Clone, Debug, PartialEq, Eq)]
pub struct VmDefinitionEntry {
    pub path: String,
    pub name: String,
    /// The file's text, where it could be read.
    pub raw_config: Option<String>,
}

/// The extension of VM definition files.
pub const DEFINITION_EXTENSION: &'static str = "vmx";

/// The name of an entry whose file name has no readable stem.
pub const UNKNOWN_NAME: &'static str = "Unknown";

/// The extension of a path, as `Path::extension` gives it.
pub uninterp spec fn extension_of(path: Seq<char>) -> Option<Seq<char>>;

/// The file name of a path without its extension, as `Path::file_stem` gives it.
pub uninterp spec fn stem_of(path: Seq<char>) -> Option<Seq<char>>;

/// Relies on `std::path::Path::extension`: the extension of the path's file
/// name, depending on the path alone.
#[verifier::external_body]
fn path_extension(path: &str) -> (r: Option<String>)
    ensures
        match r {
            Some(e) => extension_of(path@) == Some(e@),
            None => extension_of(path@) is None,
        },
{
    std::path::Path::new(path).extension().and_then(|s| s.to_str()).map(|s| s.to_string())
}

/// Relies on `std::path::Path::file_stem`: the path's file name without its
/// extension, depending on the path alone.
#[verifier::external_body]
fn path_stem(path: &str) -> (r: Option<String>)
    ensures
        match r {
            Some(s) => stem_of(path@) == Some(s@),
            None => stem_of(path@) is None,
        },
{
    std::path::Path::new(path).file_stem().and_then(|s| s.to_str()).map(|s| s.to_string())
}

/// The name of the entry for a file whose stem is `stem`.
pub open spec fn entry_name(stem: Option<Seq<char>>) -> Seq<char> {
    match stem {
        Some(s) => s,
        None => UNKNOWN_NAME@,
    }
}

/// The entry for the file at `path`, given its extension and stem: present
/// exactly where the extension is that of VM definitions.
pub fn entry_from_parts(
    path: String,
    extension: Option<String>,
    stem: Option<String>,
    raw_config: Option<String>,
) -> (r: Option<VmDefinitionEntry>)
    ensures
        match r {
            Some(e) => extension is Some && extension->Some_0@ == DEFINITION_EXTENSION@ && e.path
                == path && e.name@ == entry_name(
                match stem {
                    Some(s) => Some(s@),
                    None => None,
                },
            ) && e.raw_config == raw_config,
            None => !(extension is Some && extension->Some_0@ == DEFINITION_EXTENSION@),
        },
{
    let is_definition = match &extension {
        Some(e) => same_text(e.as_str(), DEFINITION_EXTENSION),
        None => false,
    };
    if !is_definition {
        return None;
    }
    let name = match stem {
        Some(s) => s,
        None => String::from_str(UNKNOWN_NAME),
    };
    Some(VmDefinitionEntry { path, name, raw_config })
}

/// The entry for the file at `path`, if it is a VM definition.
pub fn definition_entry(path: String, raw_config: Option<String>) -> (r: Option<
    VmDefinitionEntry,
>)
    ensures
        match r {
            Some(e) => extension_of(path@) == Some(DEFINITION_EXTENSION@) && e.path == path
                && e.name@ == entry_name(stem_of(path@)) && e.raw_config == raw_config,
            None => extension_of(path@) != Some(DEFINITION_EXTENSION@),
        },
{
    let extension = path_extension(path.as_str());
    let stem = path_stem(path.as_str());
    entry_from_parts(path, extension, stem, raw_config)
}

} // verus!
