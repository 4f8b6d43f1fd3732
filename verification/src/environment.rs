//! Model of the host environment that launch configuration depends on: the
//! operating-system family (which decides path-list separators and binary
//! names) and a snapshot of the parent process's environment variables.
//!
//! Environment overlays for a child process are computed functionally from
//! such a snapshot; the parent's environment is never mutated.

use vstd::prelude::*;

verus! {

/// The operating-system family a launch is prepared for.
#[derive(Clone, Copy, PartialEq, Eq, Structural, Debug)]
pub enum OperatingSystem {
    Windows,
    Unix,
}

/// The separator placed between entries of a path-list environment
/// variable: `;` on Windows, `:` elsewhere.
pub open spec fn path_list_sep(os: OperatingSystem) -> Seq<char> {
    if os is Windows {
        ";"@
    } else {
        ":"@
    }
}

/// Returns the path-list separator for `os` as a string slice.
pub fn path_list_sep_str(os: OperatingSystem) -> (r: &'static str)
    ensures
        r@ == path_list_sep(os),
{
    match os {
        OperatingSystem::Windows => ";",
        OperatingSystem::Unix => ":",
    }
}

/// One environment variable: a name and its value.
#[derive(Clone, Debug)]
pub struct EnvVar {
    pub key: String,
    pub value: String,
}

/// The value of the first variable named `key` in the snapshot `env`, or
/// `None` when no variable of that name is present.
pub open spec fn lookup_env(env: Seq<EnvVar>, key: Seq<char>) -> Option<Seq<char>>
    decreases env.len(),
{
    if env.len() == 0 {
        None
    } else if env[0].key@ == key {
        Some(env[0].value@)
    } else {
        lookup_env(env.skip(1), key)
    }
}

/// Returns the index of the first variable named `key` in `env`, if any.
pub fn env_lookup(env: &Vec<EnvVar>, key: &str) -> (r: Option<usize>)
    ensures
        match r {
            Some(i) => {
                &&& i < env@.len()
                &&& env@[i as int].key@ == key@
                &&& lookup_env(env@, key@) == Some(env@[i as int].value@)
            },
            None => lookup_env(env@, key@) is None,
        },
{
    let key_owned: String = key.to_owned();
    let mut i: usize = 0;
    assert(env@.skip(0) =~= env@);
    while i < env.len()
        invariant
            i <= env@.len(),
            key_owned@ == key@,
            lookup_env(env@.skip(i as int), key@) == lookup_env(env@, key@),
        decreases env@.len() - i,
    {
        assert(env@.skip(i as int)[0] == env@[i as int]);
        if env[i].key == key_owned {
            return Some(i);
        }
        assert(env@.skip(i as int).skip(1) =~= env@.skip(i as int + 1));
        i = i + 1;
    }
    assert(env@.skip(i as int).len() == 0);
    None
}

/// What appending `value` onto the variable `key` yields: the existing
/// value, the OS path-list separator, then `value` — or just `value` when
/// the variable is unset or empty.
pub open spec fn appended_env_value(
    env: Seq<EnvVar>,
    key: Seq<char>,
    value: Seq<char>,
    os: OperatingSystem,
) -> Seq<char> {
    match lookup_env(env, key) {
        Some(existing) => {
            if existing.len() == 0 {
                value
            } else {
                existing + path_list_sep(os) + value
            }
        },
        None => value,
    }
}

/// Computes the value a path-list variable should take in a child process
/// when `value` is appended onto whatever `key` holds in the snapshot
/// `env`.
///
/// A variable that is unset (or set to the empty string) yields exactly
/// `value`; a variable holding a non-empty value yields that value, the
/// OS path-list separator, then `value`.
pub fn append_env_var(env: &Vec<EnvVar>, key: &str, value: &str, os: OperatingSystem) -> (r: String)
    ensures
        r@ == appended_env_value(env@, key@, value@, os),
        lookup_env(env@, key@) is None ==> r@ == value@,
        (match lookup_env(env@, key@) {
            Some(existing) => existing.len() > 0 ==> r@ == existing + path_list_sep(os) + value@,
            None => true,
        }),
{
    match env_lookup(env, key) {
        None => value.to_owned(),
        Some(i) => {
            if env[i].value.as_str().is_empty() {
                value.to_owned()
            } else {
                let mut r: String = env[i].value.clone();
                r.append(path_list_sep_str(os));
                r.append(value);
                r
            }
        },
    }
}

} // verus!
