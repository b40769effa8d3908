//! The VM process controller: the verbs of the external control tool, the
//! arguments of each invocation, and the reading of its `list` output.
use vstd::prelude::*;
use vstd::utf8::{valid_utf8, decode_utf8};

verus! {

/// A lifecycle operation on one VM.
#[derive(Clone, Copy, Debug, PartialEq, Eq, Structural)]
pub enum Verb {
    /// Launch attached to an interactive console.
    Start,
    /// Soft shutdown.
    Stop,
    Pause,
    /// Soft reset.
    Reset,
}

/// The verb that `s` names, if it names one.
pub open spec fn verb_of(s: Seq<char>) -> Option<Verb> {
    if s == "start"@ {
        Some(Verb::Start)
    } else if s == "stop"@ {
        Some(Verb::Stop)
    } else if s == "pause"@ {
        Some(Verb::Pause)
    } else if s == "reset"@ {
        Some(Verb::Reset)
    } else {
        None
    }
}

/// The word of the control tool for `v`.
pub open spec fn word_of(v: Verb) -> Seq<char> {
    match v {
        Verb::Start => "start"@,
        Verb::Stop => "stop"@,
        Verb::Pause => "pause"@,
        Verb::Reset => "reset"@,
    }
}

/// The arguments of the control tool for `v` on the VM definition at `path`.
pub open spec fn tool_args_of(v: Verb, path: Seq<char>) -> Seq<Seq<char>> {
    match v {
        Verb::Start => seq![word_of(v), path, "gui"@],
        Verb::Stop => seq![word_of(v), path, "soft"@],
        Verb::Pause => seq![word_of(v), path],
        Verb::Reset => seq![word_of(v), path, "soft"@],
    }
}

/// The texts of a vector of strings.
pub open spec fn texts(v: Seq<String>) -> Seq<Seq<char>> {
    v.map_values(|s: String| s@)
}

/// Whether two texts are equal, character by character.
pub fn same_text(a: &str, b: &str) -> (r: bool)
    ensures
        r == (a@ == b@),
{
    let n = a.unicode_len();
    if n != b.unicode_len() {
        return false;
    }
    let mut i: usize = 0;
    while i < n
        invariant
            n == a@.len(),
            n == b@.len(),
            i <= n,
            forall|j: int| 0 <= j < i ==> a@[j] == b@[j],
        decreases n - i,
    {
        if a.get_char(i) != b.get_char(i) {
            return false;
        }
        i += 1;
    }
    assert(a@ =~= b@);
    true
}

impl Verb {
    /// The verb named by `text`; `None` for any other text, which the
    /// controller refuses as unsupported.
    pub fn parse(text: &str) -> (r: Option<Verb>)
        ensures
            r == verb_of(text@),
    {
        if same_text(text, "start") {
            Some(Verb::Start)
        } else if same_text(text, "stop") {
            Some(Verb::Stop)
        } else if same_text(text, "pause") {
            Some(Verb::Pause)
        } else if same_text(text, "reset") {
            Some(Verb::Reset)
        } else {
            None
        }
    }

    /// The word of the control tool for this verb.
    pub fn word(self) -> (r: &'static str)
        ensures
            r@ == word_of(self),
    {
        match self {
            Verb::Start => "start",
            Verb::Stop => "stop",
            Verb::Pause => "pause",
            Verb::Reset => "reset",
        }
    }

    /// The arguments of one invocation of the control tool: the verb, the VM
    /// definition path and the verb's mode, if it has one.
    pub fn tool_args(self, vm_path: &String) -> (r: Vec<String>)
        ensures
            texts(r@) == tool_args_of(self, vm_path@),
    {
        let mut r: Vec<String> = Vec::new();
        r.push(String::from_str(self.word()));
        r.push(vm_path.clone());
        match self {
            Verb::Start => r.push(String::from_str("gui")),
            Verb::Stop | Verb::Reset => r.push(String::from_str("soft")),
            Verb::Pause => {},
        }
        assert(texts(r@) =~= tool_args_of(self, vm_path@));
        r
    }
}

/// The arguments that ask the control tool for the running VMs.
pub fn list_args() -> (r: Vec<String>)
    ensures
        texts(r@) == seq!["list"@],
{
    let r = vec![String::from_str("list")];
    assert(texts(r@) =~= seq!["list"@]);
    r
}

/// The lines of a text, as `str::lines` splits them.
pub uninterp spec fn lines_of(s: Seq<char>) -> Seq<Seq<char>>;

/// Relies on `str::lines`: the lines of the text, in order, depending on the
/// text alone; an empty text has none.
#[verifier::external_body]
fn split_lines(s: &str) -> (r: Vec<String>)
    ensures
        texts(r@) == lines_of(s@),
        s@.len() == 0 ==> r@.len() == 0,
{
    s.lines().map(|l| l.to_string()).collect()
}

/// Relies on `String::from_utf8`: the decoded text where the bytes are valid
/// UTF-8, an error with the decoder's message otherwise.
#[verifier::external_body]
fn decode_text(bytes: Vec<u8>) -> (r: Result<String, String>)
    ensures
        match r {
            Ok(s) => valid_utf8(bytes@) && s@ == decode_utf8(bytes@),
            Err(_) => !valid_utf8(bytes@),
        },
{
    String::from_utf8(bytes).map_err(|e| e.to_string())
}

/// The lines after the header line, which the `list` output begins with.
pub open spec fn after_header(lines: Seq<Seq<char>>) -> Seq<Seq<char>> {
    if lines.len() == 0 {
        lines
    } else {
        lines.drop_first()
    }
}

/// Drops the header line of the `list` output.
pub fn skip_header(lines: Vec<String>) -> (r: Vec<String>)
    ensures
        texts(r@) == after_header(texts(lines@)),
{
    let mut r: Vec<String> = Vec::new();
    if lines.len() == 0 {
        assert(texts(r@) =~= after_header(texts(lines@)));
        return r;
    }
    let mut i: usize = 1;
    while i < lines.len()
        invariant
            1 <= i <= lines@.len(),
            texts(r@) =~= texts(lines@).subrange(1, i as int),
        decreases lines@.len() - i,
    {
        let ghost before = r@;
        r.push(lines[i].clone());
        assert(r@ =~= before.push(lines@[i as int]));
        assert(texts(r@) =~= texts(before).push(lines@[i as int]@));
        i += 1;
    }
    assert(texts(r@) =~= texts(lines@).drop_first());
    r
}

/// The running VMs that the `list` output names: one per line after the
/// header.
pub fn running_vms(output: &str) -> (r: Vec<String>)
    ensures
        texts(r@) == after_header(lines_of(output@)),
{
    let lines = split_lines(output);
    skip_header(lines)
}

/// The running VMs from the raw bytes of the `list` output; an error where
/// they are not UTF-8.
pub fn running_vms_from_bytes(stdout: Vec<u8>) -> (r: Result<Vec<String>, String>)
    ensures
        match r {
            Ok(vms) => valid_utf8(stdout@) && texts(vms@) == after_header(
                lines_of(decode_utf8(stdout@)),
            ),
            Err(_) => !valid_utf8(stdout@),
        },
{
    match decode_text(stdout) {
        Ok(text) => Ok(running_vms(text.as_str())),
        Err(e) => Err(e),
    }
}

} // verus!
