//! Composing the launch plan for one application identifier: the
//! bootstrap processes to run first, the main processes to spawn, and the
//! environment overlay each child receives.
//!
//! Each identifier selects a launch profile. A profile's required
//! companion files (load script, requirements file) must already have
//! been resolved by the host layer; a missing one fails planning with an
//! error naming the path, before any process exists. The overlays are
//! computed from a snapshot of the parent environment and never touch the
//! parent process. Children are described as program plus argument array,
//! never as a shell command string.

use vstd::prelude::*;
use crate::environment::{appended_env_value, append_env_var, path_list_sep, path_list_sep_str,
    EnvVar, OperatingSystem};

verus! {

/// The application family a launch request addresses. Unrecognized
/// identifiers fall through to `Generic`, which executes the given
/// executable directly.
#[derive(Clone, Copy, PartialEq, Eq, Structural, Debug)]
pub enum AppId {
    Blender,
    Houdini,
    UsdView,
    Generic,
}

/// One launch request: which profile, which executable, which content
/// file to open.
#[derive(Clone, Debug)]
pub struct LaunchRequest {
    pub id: AppId,
    pub executable: String,
    pub content: String,
}

/// One child process to spawn: program, argument array and the
/// environment overlay laid over the inherited parent environment.
#[derive(Clone, Debug)]
pub struct ChildProcessSpec {
    pub program: String,
    pub args: Vec<String>,
    pub env: Vec<EnvVar>,
}

/// A complete launch plan: bootstrap processes, run to completion one by
/// one before the main processes are spawned.
#[derive(Clone, Debug)]
pub struct LaunchPlan {
    pub bootstrap: Vec<ChildProcessSpec>,
    pub main: Vec<ChildProcessSpec>,
}

/// Why planning failed. Planning fails only when a required companion
/// file is missing; the error names the path that did not resolve.
#[derive(Clone, Debug)]
pub enum LaunchError {
    MissingFile { path: String },
}

/// What the host layer established before planning: the
/// operating-system family, a snapshot of the parent environment
/// variables, the interpreter for the profile's bootstrap or pre-launch
/// script runs, and the companion files that resolved to an existing
/// path (`None` marks a missing file).
#[derive(Clone, Debug)]
pub struct HostFacts {
    pub os: OperatingSystem,
    pub env: Vec<EnvVar>,
    pub interpreter: String,
    pub blender_load_script: Option<String>,
    pub blender_requirements: Option<String>,
    pub houdini_load_script: Option<String>,
}

impl LaunchError {
    /// A message naming the path that failed to resolve, for the host
    /// layer to report.
    pub fn message(&self) -> (r: String)
        ensures
            self matches LaunchError::MissingFile { path } ==> r@ == "missing required file: "@
                + path@,
    {
        match self {
            LaunchError::MissingFile { path } => {
                let mut r: String = String::from_str("missing required file: ");
                r.append(path.as_str());
                r
            },
        }
    }
}

/// The identifier an application-id string parses to.
pub open spec fn parsed_app_id(id: Seq<char>) -> AppId {
    if id == "blender"@ {
        AppId::Blender
    } else if id == "houdini"@ {
        AppId::Houdini
    } else if id == "usdview"@ {
        AppId::UsdView
    } else {
        AppId::Generic
    }
}

/// Parses an application-id string; anything unrecognized is `Generic`.
pub fn parse_app_id(id: &str) -> (r: AppId)
    ensures
        r == parsed_app_id(id@),
{
    let owned: String = id.to_owned();
    if owned == String::from_str("blender") {
        AppId::Blender
    } else if owned == String::from_str("houdini") {
        AppId::Houdini
    } else if owned == String::from_str("usdview") {
        AppId::UsdView
    } else {
        AppId::Generic
    }
}

pub open spec fn blender_load_script_rel() -> Seq<char> {
    "./tools/blender_studiotools/load.py"@
}

pub open spec fn blender_requirements_rel() -> Seq<char> {
    "./tools/blender_studiotools/requirements.txt"@
}

pub open spec fn houdini_load_script_rel() -> Seq<char> {
    "./tools/houdini_studiotools/load.py"@
}

pub open spec fn usdview_windows_binary() -> Seq<char> {
    "c:/Program Files/Side Effects Software/Houdini 20.5.332/bin/usdview"@
}

pub open spec fn usdview_windows_bin_dir() -> Seq<char> {
    "c:/Program Files/Side Effects Software/Houdini 20.5.332/bin"@
}

/// A value appended onto one of Houdini's search-path variables: the
/// tool subpath, then the path-list separator and `&`, Houdini's marker
/// for "also search the rest of the default path".
pub open spec fn houdini_marker_value(sub: Seq<char>, os: OperatingSystem) -> Seq<char> {
    sub + path_list_sep(os) + "&"@
}

/// The generic profile: the executable itself, the content path as sole
/// argument, no bootstrap and no environment overlay.
pub open spec fn generic_plan_ok(req: LaunchRequest, plan: LaunchPlan) -> bool {
    &&& plan.bootstrap@.len() == 0
    &&& plan.main@.len() == 1
    &&& plan.main@[0].program@ == req.executable@
    &&& plan.main@[0].args@.len() == 1
    &&& plan.main@[0].args@[0]@ == req.content@
    &&& plan.main@[0].env@.len() == 0
}

/// The usdview profile: a fixed installation path and a `PATH` overlay on
/// Windows, the bare command name and no overlay elsewhere; the content
/// path is the sole argument.
pub open spec fn usdview_plan_ok(req: LaunchRequest, os: OperatingSystem, plan: LaunchPlan) -> bool {
    &&& plan.bootstrap@.len() == 0
    &&& plan.main@.len() == 1
    &&& plan.main@[0].program@ == (if os is Windows {
        usdview_windows_binary()
    } else {
        "usdview"@
    })
    &&& plan.main@[0].args@.len() == 1
    &&& plan.main@[0].args@[0]@ == req.content@
    &&& (if os is Windows {
        &&& plan.main@[0].env@.len() == 1
        &&& plan.main@[0].env@[0].key@ == "PATH"@
        &&& plan.main@[0].env@[0].value@ == usdview_windows_bin_dir()
    } else {
        plan.main@[0].env@.len() == 0
    })
}

/// The Blender main process's environment overlay: `PYTHONPATH` with
/// `./tools` appended onto the parent's value, and `INPIPE=true`.
pub open spec fn blender_env_ok(parent: Seq<EnvVar>, os: OperatingSystem, out: Seq<EnvVar>) -> bool {
    &&& out.len() == 2
    &&& out[0].key@ == "PYTHONPATH"@
    &&& out[0].value@ == appended_env_value(parent, "PYTHONPATH"@, "./tools"@, os)
    &&& out[1].key@ == "INPIPE"@
    &&& out[1].value@ == "true"@
}

/// The Blender profile: two bootstrap runs of the resolved interpreter
/// (`-m ensurepip`, then `-m pip install -r <requirements>`), then the
/// executable with the content path, `--python-use-system-env` and the
/// load script, under the Blender environment overlay.
pub open spec fn blender_plan_ok(
    req: LaunchRequest,
    facts: HostFacts,
    load: Seq<char>,
    reqs: Seq<char>,
    plan: LaunchPlan,
) -> bool {
    &&& plan.bootstrap@.len() == 2
    &&& plan.bootstrap@[0].program@ == facts.interpreter@
    &&& plan.bootstrap@[0].args@.len() == 2
    &&& plan.bootstrap@[0].args@[0]@ == "-m"@
    &&& plan.bootstrap@[0].args@[1]@ == "ensurepip"@
    &&& plan.bootstrap@[0].env@.len() == 0
    &&& plan.bootstrap@[1].program@ == facts.interpreter@
    &&& plan.bootstrap@[1].args@.len() == 5
    &&& plan.bootstrap@[1].args@[0]@ == "-m"@
    &&& plan.bootstrap@[1].args@[1]@ == "pip"@
    &&& plan.bootstrap@[1].args@[2]@ == "install"@
    &&& plan.bootstrap@[1].args@[3]@ == "-r"@
    &&& plan.bootstrap@[1].args@[4]@ == reqs
    &&& plan.bootstrap@[1].env@.len() == 0
    &&& plan.main@.len() == 1
    &&& plan.main@[0].program@ == req.executable@
    &&& plan.main@[0].args@.len() == 4
    &&& plan.main@[0].args@[0]@ == req.content@
    &&& plan.main@[0].args@[1]@ == "--python-use-system-env"@
    &&& plan.main@[0].args@[2]@ == "--python"@
    &&& plan.main@[0].args@[3]@ == load
    &&& blender_env_ok(facts.env@, facts.os, plan.main@[0].env@)
}

/// The environment overlay both Houdini spawns receive: `PYTHONPATH`
/// with `./tools` appended, and the three Houdini search-path variables
/// with the tool subpaths appended, each terminated by the separator and
/// Houdini's `&` marker.
pub open spec fn houdini_env_ok(parent: Seq<EnvVar>, os: OperatingSystem, out: Seq<EnvVar>) -> bool {
    &&& out.len() == 4
    &&& out[0].key@ == "PYTHONPATH"@
    &&& out[0].value@ == appended_env_value(parent, "PYTHONPATH"@, "./tools"@, os)
    &&& out[1].key@ == "HOUDINI_TOOLBAR_PATH"@
    &&& out[1].value@ == appended_env_value(
        parent,
        "HOUDINI_TOOLBAR_PATH"@,
        houdini_marker_value("./tools/houdini_studiotools/houdini/toolbar"@, os),
        os,
    )
    &&& out[2].key@ == "HOUDINI_OTLSCAN_PATH"@
    &&& out[2].value@ == appended_env_value(
        parent,
        "HOUDINI_OTLSCAN_PATH"@,
        houdini_marker_value("./tools/houdini_studiotools/houdini/otls"@, os),
        os,
    )
    &&& out[3].key@ == "HOUDINI_MENU_PATH"@
    &&& out[3].value@ == appended_env_value(
        parent,
        "HOUDINI_MENU_PATH"@,
        houdini_marker_value("./tools/houdini_studiotools/houdini"@, os),
        os,
    )
}

/// The Houdini profile: no bootstrap; a pre-launch run of the bundled
/// interpreter with the load script and the content path, then the
/// executable with the content path, both under the Houdini overlay.
pub open spec fn houdini_plan_ok(
    req: LaunchRequest,
    facts: HostFacts,
    load: Seq<char>,
    plan: LaunchPlan,
) -> bool {
    &&& plan.bootstrap@.len() == 0
    &&& plan.main@.len() == 2
    &&& plan.main@[0].program@ == facts.interpreter@
    &&& plan.main@[0].args@.len() == 2
    &&& plan.main@[0].args@[0]@ == load
    &&& plan.main@[0].args@[1]@ == req.content@
    &&& houdini_env_ok(facts.env@, facts.os, plan.main@[0].env@)
    &&& plan.main@[1].program@ == req.executable@
    &&& plan.main@[1].args@.len() == 1
    &&& plan.main@[1].args@[0]@ == req.content@
    &&& houdini_env_ok(facts.env@, facts.os, plan.main@[1].env@)
}

/// What `plan_launch` returns, for every request and every set of host
/// facts: the profile's exact plan when its companion files resolved, and
/// otherwise an error naming the first missing path.
pub open spec fn planned(req: LaunchRequest, facts: HostFacts, r: Result<
    LaunchPlan,
    LaunchError,
>) -> bool {
    match req.id {
        AppId::Generic => r matches Ok(plan) && generic_plan_ok(req, plan),
        AppId::UsdView => r matches Ok(plan) && usdview_plan_ok(req, facts.os, plan),
        AppId::Blender => match (facts.blender_load_script, facts.blender_requirements) {
            (Some(load), Some(reqs)) => r matches Ok(plan) && blender_plan_ok(
                req,
                facts,
                load@,
                reqs@,
                plan,
            ),
            (None, _) => r matches Err(LaunchError::MissingFile { path })
                && path@ == blender_load_script_rel(),
            (Some(_), None) => r matches Err(LaunchError::MissingFile { path })
                && path@ == blender_requirements_rel(),
        },
        AppId::Houdini => match facts.houdini_load_script {
            Some(load) => r matches Ok(plan) && houdini_plan_ok(req, facts, load@, plan),
            None => r matches Err(LaunchError::MissingFile { path })
                && path@ == houdini_load_script_rel(),
        },
    }
}

/// Builds the value appended onto a Houdini search-path variable: the
/// tool subpath, the path-list separator, then the `&` marker.
fn houdini_marker(sub: &str, os: OperatingSystem) -> (r: String)
    ensures
        r@ == houdini_marker_value(sub@, os),
{
    let mut r: String = sub.to_owned();
    r.append(path_list_sep_str(os));
    r.append("&");
    r
}

/// Builds the Blender main process's environment overlay.
fn blender_env(parent: &Vec<EnvVar>, os: OperatingSystem) -> (r: Vec<EnvVar>)
    ensures
        blender_env_ok(parent@, os, r@),
{
    let mut out: Vec<EnvVar> = Vec::new();
    out.push(
        EnvVar {
            key: String::from_str("PYTHONPATH"),
            value: append_env_var(parent, "PYTHONPATH", "./tools", os),
        },
    );
    out.push(EnvVar { key: String::from_str("INPIPE"), value: String::from_str("true") });
    out
}

/// Builds the environment overlay shared by both Houdini spawns.
fn houdini_env(parent: &Vec<EnvVar>, os: OperatingSystem) -> (r: Vec<EnvVar>)
    ensures
        houdini_env_ok(parent@, os, r@),
{
    let toolbar: String = houdini_marker("./tools/houdini_studiotools/houdini/toolbar", os);
    let otls: String = houdini_marker("./tools/houdini_studiotools/houdini/otls", os);
    let menu: String = houdini_marker("./tools/houdini_studiotools/houdini", os);
    let mut out: Vec<EnvVar> = Vec::new();
    out.push(
        EnvVar {
            key: String::from_str("PYTHONPATH"),
            value: append_env_var(parent, "PYTHONPATH", "./tools", os),
        },
    );
    out.push(
        EnvVar {
            key: String::from_str("HOUDINI_TOOLBAR_PATH"),
            value: append_env_var(parent, "HOUDINI_TOOLBAR_PATH", toolbar.as_str(), os),
        },
    );
    out.push(
        EnvVar {
            key: String::from_str("HOUDINI_OTLSCAN_PATH"),
            value: append_env_var(parent, "HOUDINI_OTLSCAN_PATH", otls.as_str(), os),
        },
    );
    out.push(
        EnvVar {
            key: String::from_str("HOUDINI_MENU_PATH"),
            value: append_env_var(parent, "HOUDINI_MENU_PATH", menu.as_str(), os),
        },
    );
    out
}

/// Composes the launch plan for `req` under the host facts `facts`: the
/// profile's bootstrap processes, main processes and environment
/// overlays, exactly as `planned` describes. A profile whose companion
/// file did not resolve yields an error naming that path, and no plan —
/// so nothing is ever spawned for it.
pub fn plan_launch(req: &LaunchRequest, facts: &HostFacts) -> (r: Result<LaunchPlan, LaunchError>)
    ensures
        planned(*req, *facts, r),
{
    match req.id {
        AppId::Generic => {
            let mut args: Vec<String> = Vec::new();
            args.push(req.content.clone());
            let main_spec = ChildProcessSpec {
                program: req.executable.clone(),
                args,
                env: Vec::new(),
            };
            let mut main: Vec<ChildProcessSpec> = Vec::new();
            main.push(main_spec);
            Ok(LaunchPlan { bootstrap: Vec::new(), main })
        },
        AppId::UsdView => {
            let program: String = match facts.os {
                OperatingSystem::Windows => String::from_str(
                    "c:/Program Files/Side Effects Software/Houdini 20.5.332/bin/usdview",
                ),
                OperatingSystem::Unix => String::from_str("usdview"),
            };
            let mut env: Vec<EnvVar> = Vec::new();
            if let OperatingSystem::Windows = facts.os {
                env.push(
                    EnvVar {
                        key: String::from_str("PATH"),
                        value: String::from_str(
                            "c:/Program Files/Side Effects Software/Houdini 20.5.332/bin",
                        ),
                    },
                );
            }
            let mut args: Vec<String> = Vec::new();
            args.push(req.content.clone());
            let mut main: Vec<ChildProcessSpec> = Vec::new();
            main.push(ChildProcessSpec { program, args, env });
            Ok(LaunchPlan { bootstrap: Vec::new(), main })
        },
        AppId::Blender => {
            let load: String = match &facts.blender_load_script {
                Some(l) => l.clone(),
                None => {
                    return Err(
                        LaunchError::MissingFile {
                            path: String::from_str("./tools/blender_studiotools/load.py"),
                        },
                    );
                },
            };
            let reqs: String = match &facts.blender_requirements {
                Some(q) => q.clone(),
                None => {
                    return Err(
                        LaunchError::MissingFile {
                            path: String::from_str("./tools/blender_studiotools/requirements.txt"),
                        },
                    );
                },
            };
            let mut ensurepip_args: Vec<String> = Vec::new();
            ensurepip_args.push(String::from_str("-m"));
            ensurepip_args.push(String::from_str("ensurepip"));
            let mut pip_args: Vec<String> = Vec::new();
            pip_args.push(String::from_str("-m"));
            pip_args.push(String::from_str("pip"));
            pip_args.push(String::from_str("install"));
            pip_args.push(String::from_str("-r"));
            pip_args.push(reqs);
            let mut bootstrap: Vec<ChildProcessSpec> = Vec::new();
            bootstrap.push(
                ChildProcessSpec {
                    program: facts.interpreter.clone(),
                    args: ensurepip_args,
                    env: Vec::new(),
                },
            );
            bootstrap.push(
                ChildProcessSpec {
                    program: facts.interpreter.clone(),
                    args: pip_args,
                    env: Vec::new(),
                },
            );
            let mut main_args: Vec<String> = Vec::new();
            main_args.push(req.content.clone());
            main_args.push(String::from_str("--python-use-system-env"));
            main_args.push(String::from_str("--python"));
            main_args.push(load);
            let mut main: Vec<ChildProcessSpec> = Vec::new();
            main.push(
                ChildProcessSpec {
                    program: req.executable.clone(),
                    args: main_args,
                    env: blender_env(&facts.env, facts.os),
                },
            );
            Ok(LaunchPlan { bootstrap, main })
        },
        AppId::Houdini => {
            let load: String = match &facts.houdini_load_script {
                Some(l) => l.clone(),
                None => {
                    return Err(
                        LaunchError::MissingFile {
                            path: String::from_str("./tools/houdini_studiotools/load.py"),
                        },
                    );
                },
            };
            let mut pre_args: Vec<String> = Vec::new();
            pre_args.push(load);
            pre_args.push(req.content.clone());
            let mut main_args: Vec<String> = Vec::new();
            main_args.push(req.content.clone());
            let mut main: Vec<ChildProcessSpec> = Vec::new();
            main.push(
                ChildProcessSpec {
                    program: facts.interpreter.clone(),
                    args: pre_args,
                    env: houdini_env(&facts.env, facts.os),
                },
            );
            main.push(
                ChildProcessSpec {
                    program: req.executable.clone(),
                    args: main_args,
                    env: houdini_env(&facts.env, facts.os),
                },
            );
            Ok(LaunchPlan { bootstrap: Vec::new(), main })
        },
    }
}

} // verus!
