//! The decisions of the configuration store: which save is written, and which
//! stored text is handed to the decoder on load.
//!
//! Each collection is one document, replaced whole on save. Reading, writing
//! and the JSON codec are the caller's; the store decides.
use vstd::prelude::*;
use crate::model::Settings;

verus! {

/// The three independent documents of the store.
#[derive(Clone, Copy, Debug, PartialEq, Eq, Structural)]
pub enum Collection {
    HardwareProfiles,
    Containers,
    Settings,
}

/// The application's directory under the user's configuration directory.
pub const CONFIG_DIR_NAME: &'static str = "vmware-manager";

/// The file name of each document.
pub open spec fn file_name_of(c: Collection) -> Seq<char> {
    match c {
        Collection::HardwareProfiles => "hardware_config.json"@,
        Collection::Containers => "container_config.json"@,
        Collection::Settings => "settings.json"@,
    }
}

impl Collection {
    /// The file name of the collection's document.
    pub fn file_name(self) -> (r: &'static str)
        ensures
            r@ == file_name_of(self),
    {
        match self {
            Collection::HardwareProfiles => "hardware_config.json",
            Collection::Containers => "container_config.json",
            Collection::Settings => "settings.json",
        }
    }
}

/// Whether saving `count` records of `c` writes the document: an empty
/// profile collection is taken for an unintended clear and not written.
pub open spec fn writes(c: Collection, count: nat) -> bool {
    !(c == Collection::HardwareProfiles && count == 0)
}

/// Decides whether a save of `count` records of `c` is written.
pub fn should_write(c: Collection, count: usize) -> (r: bool)
    ensures
        r == writes(c, count as nat),
{
    match c {
        Collection::HardwareProfiles => count > 0,
        _ => true,
    }
}

/// The Unicode White_Space characters, which `char::is_whitespace` accepts.
pub open spec fn white_space(c: char) -> bool {
    let u = c as u32;
    ||| 0x9 <= u <= 0xd
    ||| u == 0x20 || u == 0x85 || u == 0xa0 || u == 0x1680
    ||| 0x2000 <= u <= 0x200a
    ||| u == 0x2028 || u == 0x2029 || u == 0x202f || u == 0x205f || u == 0x3000
}

/// Whether `c` is a white-space character.
pub fn is_white_space(c: char) -> (r: bool)
    ensures
        r == white_space(c),
{
    let u = c as u32;
    (0x9 <= u && u <= 0xd) || u == 0x20 || u == 0x85 || u == 0xa0 || u == 0x1680 || (0x2000 <= u
        && u <= 0x200a) || u == 0x2028 || u == 0x2029 || u == 0x202f || u == 0x205f || u == 0x3000
}

/// A text of white space alone, the empty text included.
pub open spec fn blank(s: Seq<char>) -> bool {
    forall|i: int| 0 <= i < s.len() ==> white_space(#[trigger] s[i])
}

/// Whether the text holds nothing but white space.
pub fn is_blank(s: &str) -> (r: bool)
    ensures
        r == blank(s@),
{
    let n = s.unicode_len();
    let mut i: usize = 0;
    while i < n
        invariant
            n == s@.len(),
            i <= n,
            forall|j: int| 0 <= j < i ==> white_space(#[trigger] s@[j]),
        decreases n - i,
    {
        if !is_white_space(s.get_char(i)) {
            return false;
        }
        i += 1;
    }
    true
}

/// The text to decode from a stored document: none where no document could
/// be read or where it is blank, which both mean "no records".
pub open spec fn body_of(stored: Option<Seq<char>>) -> Option<Seq<char>> {
    match stored {
        Some(t) => if blank(t) {
            None
        } else {
            Some(t)
        },
        None => None,
    }
}

/// The text of an optional string.
pub open spec fn texts_of(o: Option<String>) -> Option<Seq<char>> {
    match o {
        Some(s) => Some(s@),
        None => None,
    }
}

/// Picks the text to decode out of what was read of a document (`None` where
/// it does not exist or could not be read).
pub fn document_body(stored: Option<String>) -> (r: Option<String>)
    ensures
        match r {
            Some(t) => body_of(texts_of(stored)) == Some(t@),
            None => body_of(texts_of(stored)) is None,
        },
{
    match stored {
        Some(t) => if is_blank(t.as_str()) {
            None
        } else {
            Some(t)
        },
        None => None,
    }
}

/// The settings to use: the decoded document, or the defaults where there is
/// none.
pub fn settings_or_defaults(decoded: Option<Settings>) -> (r: Settings)
    ensures
        match decoded {
            Some(st) => r == st,
            None => r.installation_path is None && r.original_bios_path is None
                && r.original_executable_path is None,
        },
{
    match decoded {
        Some(st) => st,
        None => Settings::defaults(),
    }
}

/// The stored text of a document after a save of `count` records, encoded as
/// `written`, over the text `before`.
pub open spec fn stored_after_save(
    c: Collection,
    before: Option<Seq<char>>,
    count: nat,
    written: Seq<char>,
) -> Option<Seq<char>> {
    if writes(c, count) {
        Some(written)
    } else {
        before
    }
}

/// Saving an empty profile collection leaves the stored document as it was;
/// saving an empty container collection replaces it.
pub proof fn lemma_empty_save_guard(before: Option<Seq<char>>, written: Seq<char>)
    ensures
        stored_after_save(Collection::HardwareProfiles, before, 0, written) == before,
        stored_after_save(Collection::Containers, before, 0, written) == Some(written),
{
}

/// Once a non-empty collection is saved, a load hands the decoder exactly the
/// text that the save wrote, whatever was stored before.
pub proof fn lemma_saved_text_is_loaded(
    c: Collection,
    before: Option<Seq<char>>,
    count: nat,
    written: Seq<char>,
)
    requires
        count >= 1,
        !blank(written),
    ensures
        body_of(stored_after_save(c, before, count, written)) == Some(written),
{
}

} // verus!
