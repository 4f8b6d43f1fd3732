//! Locating the interpreter bundled inside a DCC installation.
//!
//! Installations keep release-specific tooling under a version directory:
//! a child of the installation root whose name begins with an ASCII digit
//! and which contains the expected runtime subpath (for Blender,
//! `python/bin`). Within that directory the bundled interpreter is probed
//! by an ordered candidate list of binary names, most specific first.
//! When no version directory or no candidate binary is found, resolution
//! falls back to a documented system-wide interpreter name and leaves any
//! failure to the eventual process spawn.
//!
//! Directory listing and existence checks happen in the host layer; the
//! resolver works on a snapshot of what was found on disk.

use vstd::prelude::*;
use crate::environment::OperatingSystem;

verus! {

/// What the host layer observed about one child of the installation root:
/// its name, whether it contains the expected runtime subpath, and which
/// file names are present inside that subpath's binary directory.
#[derive(Clone, Debug)]
pub struct VersionEntry {
    pub name: String,
    pub has_runtime_subpath: bool,
    pub binaries: Vec<String>,
}

/// Where the interpreter was found: inside a version directory of the
/// installation, or nowhere — in which case a bare fallback name is
/// returned and resolving it is left to the process spawn.
#[derive(Clone, Debug)]
pub enum InterpreterLocation {
    Vendored { version_dir: String, binary: String },
    Fallback { binary: String },
}

pub open spec fn is_ascii_digit_char(c: char) -> bool {
    48 <= c as u32 && c as u32 <= 57
}

/// A directory name that starts with an ASCII digit, the naming scheme of
/// release directories such as `4.2`.
pub open spec fn has_digit_prefix(name: Seq<char>) -> bool {
    name.len() > 0 && is_ascii_digit_char(name[0])
}

/// An entry that counts as a version directory: digit-prefixed name and
/// the expected runtime subpath present.
pub open spec fn is_version_dir(e: VersionEntry) -> bool {
    has_digit_prefix(e.name@) && e.has_runtime_subpath
}

/// No child of the installation root is a version directory.
pub open spec fn no_version_dir(entries: Seq<VersionEntry>) -> bool {
    forall|j: int| 0 <= j < entries.len() ==> !is_version_dir(#[trigger] entries[j])
}

/// `i` is the first version directory in listing order.
pub open spec fn is_first_version_dir(entries: Seq<VersionEntry>, i: int) -> bool {
    &&& 0 <= i < entries.len()
    &&& is_version_dir(entries[i])
    &&& forall|j: int| 0 <= j < i ==> !is_version_dir(#[trigger] entries[j])
}

/// The ordered interpreter candidate list for `os`, most specific first.
pub open spec fn candidate_names(os: OperatingSystem) -> Seq<Seq<char>> {
    if os is Windows {
        seq!["python.exe"@]
    } else {
        seq!["python3.11"@, "python3.10"@, "python3.9"@, "python3"@]
    }
}

/// The documented fallback interpreter name for `os`.
pub open spec fn fallback_name(os: OperatingSystem) -> Seq<char> {
    if os is Windows {
        "python.exe"@
    } else {
        "python3"@
    }
}

/// `name` occurs among the observed binary file names `avail`.
pub open spec fn contains_name(avail: Seq<String>, name: Seq<char>) -> bool {
    exists|i: int| 0 <= i < avail.len() && (#[trigger] avail[i])@ == name
}

/// None of the candidate binaries for `os` is present in `avail`.
pub open spec fn no_candidate(avail: Seq<String>, os: OperatingSystem) -> bool {
    forall|k: int| 0 <= k < candidate_names(os).len() ==> !contains_name(
        avail,
        #[trigger] candidate_names(os)[k],
    )
}

/// `k` is the position of the first candidate for `os` present in `avail`.
pub open spec fn is_first_candidate(avail: Seq<String>, os: OperatingSystem, k: int) -> bool {
    &&& 0 <= k < candidate_names(os).len()
    &&& contains_name(avail, candidate_names(os)[k])
    &&& forall|j: int| 0 <= j < k ==> !contains_name(avail, #[trigger] candidate_names(os)[j])
}

/// The result is the bare fallback interpreter name for `os`.
pub open spec fn is_fallback(r: InterpreterLocation, os: OperatingSystem) -> bool {
    r matches InterpreterLocation::Fallback { binary } && binary@ == fallback_name(os)
}

/// What resolution yields once the version directory `e` is selected:
/// the first present candidate binary inside it, or the fallback when
/// none of the candidates exists.
pub open spec fn resolved_from_entry(
    e: VersionEntry,
    os: OperatingSystem,
    r: InterpreterLocation,
) -> bool {
    &&& (no_candidate(e.binaries@, os) ==> is_fallback(r, os))
    &&& forall|k: int| #[trigger] is_first_candidate(e.binaries@, os, k) ==> (r matches InterpreterLocation::Vendored { version_dir, binary }
        && version_dir@ == e.name@
        && binary@ == candidate_names(os)[k])
}

/// Returns true when `e` is a version directory: digit-prefixed name and
/// runtime subpath present.
pub fn is_version_dir_entry(e: &VersionEntry) -> (r: bool)
    ensures
        r == is_version_dir(*e),
{
    if !e.has_runtime_subpath {
        return false;
    }
    let s: &str = e.name.as_str();
    if s.is_empty() {
        return false;
    }
    let c: char = s.get_char(0);
    let u: u32 = c as u32;
    48 <= u && u <= 57
}

/// Returns the index of the first version directory among `entries`, or
/// `None` when there is none.
pub fn find_version_dir(entries: &Vec<VersionEntry>) -> (r: Option<usize>)
    ensures
        match r {
            Some(i) => is_first_version_dir(entries@, i as int),
            None => no_version_dir(entries@),
        },
{
    let mut i: usize = 0;
    while i < entries.len()
        invariant
            i <= entries@.len(),
            forall|j: int| 0 <= j < i ==> !is_version_dir(#[trigger] entries@[j]),
        decreases entries@.len() - i,
    {
        if is_version_dir_entry(&entries[i]) {
            return Some(i);
        }
        i = i + 1;
    }
    None
}

/// Returns true when some observed file name equals `name`.
fn contains_name_exec(avail: &Vec<String>, name: &String) -> (r: bool)
    ensures
        r == contains_name(avail@, name@),
{
    let mut j: usize = 0;
    while j < avail.len()
        invariant
            j <= avail@.len(),
            forall|m: int| 0 <= m < j ==> (#[trigger] avail@[m])@ != name@,
        decreases avail@.len() - j,
    {
        if avail[j] == *name {
            assert(0 <= j < avail@.len() && avail@[j as int]@ == name@);
            return true;
        }
        j = j + 1;
    }
    false
}

/// Builds the executable candidate list matching `candidate_names(os)`.
fn candidate_list(os: OperatingSystem) -> (r: Vec<String>)
    ensures
        r@.len() == candidate_names(os).len(),
        forall|k: int| 0 <= k < r@.len() ==> (#[trigger] r@[k])@ == candidate_names(os)[k],
{
    let mut v: Vec<String> = Vec::new();
    match os {
        OperatingSystem::Windows => {
            v.push(String::from_str("python.exe"));
        },
        OperatingSystem::Unix => {
            v.push(String::from_str("python3.11"));
            v.push(String::from_str("python3.10"));
            v.push(String::from_str("python3.9"));
            v.push(String::from_str("python3"));
        },
    }
    v
}

/// Builds the fallback result for `os`.
fn fallback_interpreter(os: OperatingSystem) -> (r: InterpreterLocation)
    ensures
        is_fallback(r, os),
{
    match os {
        OperatingSystem::Windows => InterpreterLocation::Fallback {
            binary: String::from_str("python.exe"),
        },
        OperatingSystem::Unix => InterpreterLocation::Fallback {
            binary: String::from_str("python3"),
        },
    }
}

/// Resolves the interpreter bundled in an installation whose root lists
/// `entries`: picks the first version directory, probes the ordered
/// candidate binaries inside it, and falls back to the documented
/// system-wide name when either step finds nothing. Resolution itself
/// never fails; a missing interpreter surfaces only when the fallback is
/// eventually spawned.
pub fn resolve_interpreter(entries: &Vec<VersionEntry>, os: OperatingSystem) -> (r:
    InterpreterLocation)
    ensures
        no_version_dir(entries@) ==> is_fallback(r, os),
        forall|i: int| #[trigger] is_first_version_dir(entries@, i) ==> resolved_from_entry(
            entries@[i],
            os,
            r,
        ),
{
    let sel: Option<usize> = find_version_dir(entries);
    match sel {
        None => fallback_interpreter(os),
        Some(i) => {
            let cands: Vec<String> = candidate_list(os);
            let mut k: usize = 0;
            while k < cands.len()
                invariant
                    k <= cands@.len(),
                    cands@.len() == candidate_names(os).len(),
                    forall|m: int| 0 <= m < cands@.len() ==> (#[trigger] cands@[m])@
                        == candidate_names(os)[m],
                    is_first_version_dir(entries@, i as int),
                    forall|j: int| 0 <= j < k ==> !contains_name(
                        entries@[i as int].binaries@,
                        #[trigger] candidate_names(os)[j],
                    ),
                decreases cands@.len() - k,
            {
                if contains_name_exec(&entries[i].binaries, &cands[k]) {
                    proof {
                        let ii = i as int;
                        let kk = k as int;
                        assert forall|i2: int| #[trigger] is_first_version_dir(entries@, i2)
                            implies i2 == ii by {
                            if i2 < ii {
                                assert(!is_version_dir(entries@[i2]));
                            } else if i2 > ii {
                                assert(!is_version_dir(entries@[ii]));
                            }
                        }
                        assert forall|k2: int| #[trigger] is_first_candidate(
                            entries@[ii].binaries@,
                            os,
                            k2,
                        ) implies k2 == kk by {
                            if k2 < kk {
                                assert(!contains_name(
                                    entries@[ii].binaries@,
                                    candidate_names(os)[k2],
                                ));
                            } else if k2 > kk {
                                assert(!contains_name(
                                    entries@[ii].binaries@,
                                    candidate_names(os)[kk],
                                ));
                            }
                        }
                        assert(is_version_dir(entries@[ii]));
                        assert(is_first_candidate(entries@[ii].binaries@, os, kk));
                    }
                    return InterpreterLocation::Vendored {
                        version_dir: entries[i].name.clone(),
                        binary: cands[k].clone(),
                    };
                }
                k = k + 1;
            }
            proof {
                let ii = i as int;
                assert forall|i2: int| #[trigger] is_first_version_dir(entries@, i2) implies i2
                    == ii by {
                    if i2 < ii {
                        assert(!is_version_dir(entries@[i2]));
                    } else if i2 > ii {
                        assert(!is_version_dir(entries@[ii]));
                    }
                }
                assert(is_version_dir(entries@[ii]));
            }
            fallback_interpreter(os)
        },
    }
}

/// Joins a resolution result into the path to hand to the process
/// spawn: `<root>/<version-dir>/python/bin/<binary>` for a vendored
/// interpreter, and the bare binary name for the fallback, which is left
/// to the system search path.
pub fn interpreter_path(root: &str, loc: &InterpreterLocation) -> (r: String)
    ensures
        (loc matches InterpreterLocation::Vendored { version_dir, binary } ==> r@ == root@ + "/"@
            + version_dir@ + "/python/bin/"@ + binary@),
        (loc matches InterpreterLocation::Fallback { binary } ==> r@ == binary@),
{
    match loc {
        InterpreterLocation::Vendored { version_dir, binary } => {
            let mut r: String = root.to_owned();
            r.append("/");
            r.append(version_dir.as_str());
            r.append("/python/bin/");
            r.append(binary.as_str());
            r
        },
        InterpreterLocation::Fallback { binary } => binary.clone(),
    }
}

/// An installation root none of whose children is digit-prefixed has no
/// version directory at all, so resolution returns the documented
/// fallback name rather than failing.
pub proof fn lemma_no_digit_prefix_no_version_dir(entries: Seq<VersionEntry>)
    requires
        forall|j: int| 0 <= j < entries.len() ==> !has_digit_prefix((#[trigger] entries[j]).name@),
    ensures
        no_version_dir(entries),
{
}

/// When exactly one child of the installation root is a version
/// directory, it is the one selected, wherever the directory listing
/// placed it: it is the first version directory, and no other index is.
pub proof fn lemma_unique_version_dir_selected(entries: Seq<VersionEntry>, i: int)
    requires
        0 <= i < entries.len(),
        is_version_dir(entries[i]),
        forall|j: int| 0 <= j < entries.len() && j != i ==> !is_version_dir(#[trigger] entries[j]),
    ensures
        is_first_version_dir(entries, i),
        forall|k: int| #[trigger] is_first_version_dir(entries, k) ==> k == i,
{
    assert forall|k: int| #[trigger] is_first_version_dir(entries, k) implies k == i by {
        if k < i {
            assert(!is_version_dir(entries[k]));
        } else if k > i {
            assert(!is_version_dir(entries[i]));
        }
    }
}

} // verus!
