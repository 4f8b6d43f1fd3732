use dcc_launcher::environment::{EnvVar, OperatingSystem};
use dcc_launcher::plan::{parse_app_id, plan_launch, AppId, HostFacts, LaunchError, LaunchPlan,
    LaunchRequest};

fn var(key: &str, value: &str) -> EnvVar {
    EnvVar { key: key.to_string(), value: value.to_string() }
}

fn facts(os: OperatingSystem) -> HostFacts {
    HostFacts {
        os,
        env: Vec::new(),
        interpreter: "/opt/blender/4.2/python/bin/python3.11".to_string(),
        blender_load_script: Some("/abs/tools/blender_studiotools/load.py".to_string()),
        blender_requirements: Some("/abs/tools/blender_studiotools/requirements.txt".to_string()),
        houdini_load_script: Some("/abs/tools/houdini_studiotools/load.py".to_string()),
    }
}

fn request(id: AppId) -> LaunchRequest {
    LaunchRequest {
        id,
        executable: "/opt/app/bin/app".to_string(),
        content: "/work/scene file.blend".to_string(),
    }
}

fn ok_plan(r: Result<LaunchPlan, LaunchError>) -> LaunchPlan {
    match r {
        Ok(p) => p,
        Err(e) => panic!("expected a plan, got error: {}", e.message()),
    }
}

#[test]
fn parse_known_and_unknown_ids() {
    assert_eq!(parse_app_id("blender"), AppId::Blender);
    assert_eq!(parse_app_id("houdini"), AppId::Houdini);
    assert_eq!(parse_app_id("usdview"), AppId::UsdView);
    assert_eq!(parse_app_id("maya"), AppId::Generic);
    assert_eq!(parse_app_id(""), AppId::Generic);
    assert_eq!(parse_app_id("Blender"), AppId::Generic);
}

#[test]
fn generic_runs_executable_with_content_only() {
    let plan = ok_plan(plan_launch(&request(AppId::Generic), &facts(OperatingSystem::Unix)));
    assert!(plan.bootstrap.is_empty());
    assert_eq!(plan.main.len(), 1);
    assert_eq!(plan.main[0].program, "/opt/app/bin/app");
    assert_eq!(plan.main[0].args, vec!["/work/scene file.blend".to_string()]);
    assert!(plan.main[0].env.is_empty());
}

#[test]
fn usdview_on_unix_uses_bare_command_and_no_overlay() {
    let plan = ok_plan(plan_launch(&request(AppId::UsdView), &facts(OperatingSystem::Unix)));
    assert!(plan.bootstrap.is_empty());
    assert_eq!(plan.main.len(), 1);
    assert_eq!(plan.main[0].program, "usdview");
    assert_eq!(plan.main[0].args, vec!["/work/scene file.blend".to_string()]);
    assert!(plan.main[0].env.is_empty());
}

#[test]
fn usdview_on_windows_uses_fixed_path_and_path_overlay() {
    let plan = ok_plan(plan_launch(&request(AppId::UsdView), &facts(OperatingSystem::Windows)));
    assert_eq!(
        plan.main[0].program,
        "c:/Program Files/Side Effects Software/Houdini 20.5.332/bin/usdview"
    );
    assert_eq!(plan.main[0].env.len(), 1);
    assert_eq!(plan.main[0].env[0].key, "PATH");
    assert_eq!(
        plan.main[0].env[0].value,
        "c:/Program Files/Side Effects Software/Houdini 20.5.332/bin"
    );
}

#[test]
fn blender_plan_bootstraps_pip_then_launches() {
    let mut f = facts(OperatingSystem::Unix);
    f.env = vec![var("PYTHONPATH", "/site")];
    let plan = ok_plan(plan_launch(&request(AppId::Blender), &f));

    assert_eq!(plan.bootstrap.len(), 2);
    assert_eq!(plan.bootstrap[0].program, "/opt/blender/4.2/python/bin/python3.11");
    assert_eq!(plan.bootstrap[0].args, vec!["-m".to_string(), "ensurepip".to_string()]);
    assert!(plan.bootstrap[0].env.is_empty());
    assert_eq!(plan.bootstrap[1].program, "/opt/blender/4.2/python/bin/python3.11");
    assert_eq!(
        plan.bootstrap[1].args,
        vec![
            "-m".to_string(),
            "pip".to_string(),
            "install".to_string(),
            "-r".to_string(),
            "/abs/tools/blender_studiotools/requirements.txt".to_string(),
        ]
    );

    assert_eq!(plan.main.len(), 1);
    assert_eq!(plan.main[0].program, "/opt/app/bin/app");
    assert_eq!(
        plan.main[0].args,
        vec![
            "/work/scene file.blend".to_string(),
            "--python-use-system-env".to_string(),
            "--python".to_string(),
            "/abs/tools/blender_studiotools/load.py".to_string(),
        ]
    );
    assert_eq!(plan.main[0].env.len(), 2);
    assert_eq!(plan.main[0].env[0].key, "PYTHONPATH");
    assert_eq!(plan.main[0].env[0].value, "/site:./tools");
    assert_eq!(plan.main[0].env[1].key, "INPIPE");
    assert_eq!(plan.main[0].env[1].value, "true");
}

#[test]
fn blender_missing_load_script_fails_with_its_path() {
    let mut f = facts(OperatingSystem::Unix);
    f.blender_load_script = None;
    match plan_launch(&request(AppId::Blender), &f) {
        Err(LaunchError::MissingFile { path }) => {
            assert_eq!(path, "./tools/blender_studiotools/load.py");
        },
        Ok(_) => panic!("expected planning to fail"),
    }
}

#[test]
fn blender_missing_requirements_fails_with_its_path() {
    let mut f = facts(OperatingSystem::Unix);
    f.blender_requirements = None;
    match plan_launch(&request(AppId::Blender), &f) {
        Err(LaunchError::MissingFile { path }) => {
            assert_eq!(path, "./tools/blender_studiotools/requirements.txt");
        },
        Ok(_) => panic!("expected planning to fail"),
    }
}

#[test]
fn houdini_plan_prelaunches_script_then_executable() {
    let mut f = facts(OperatingSystem::Unix);
    f.interpreter = "/opt/hfs/bin/hython".to_string();
    f.env = vec![var("HOUDINI_MENU_PATH", "/custom")];
    let plan = ok_plan(plan_launch(&request(AppId::Houdini), &f));

    assert!(plan.bootstrap.is_empty());
    assert_eq!(plan.main.len(), 2);
    assert_eq!(plan.main[0].program, "/opt/hfs/bin/hython");
    assert_eq!(
        plan.main[0].args,
        vec![
            "/abs/tools/houdini_studiotools/load.py".to_string(),
            "/work/scene file.blend".to_string(),
        ]
    );
    assert_eq!(plan.main[1].program, "/opt/app/bin/app");
    assert_eq!(plan.main[1].args, vec!["/work/scene file.blend".to_string()]);

    for spawn in &plan.main {
        assert_eq!(spawn.env.len(), 4);
        assert_eq!(spawn.env[0].key, "PYTHONPATH");
        assert_eq!(spawn.env[0].value, "./tools");
        assert_eq!(spawn.env[1].key, "HOUDINI_TOOLBAR_PATH");
        assert_eq!(spawn.env[1].value, "./tools/houdini_studiotools/houdini/toolbar:&");
        assert_eq!(spawn.env[2].key, "HOUDINI_OTLSCAN_PATH");
        assert_eq!(spawn.env[2].value, "./tools/houdini_studiotools/houdini/otls:&");
        assert_eq!(spawn.env[3].key, "HOUDINI_MENU_PATH");
        assert_eq!(spawn.env[3].value, "/custom:./tools/houdini_studiotools/houdini:&");
    }
}

#[test]
fn houdini_missing_load_script_fails_with_its_path() {
    let mut f = facts(OperatingSystem::Unix);
    f.houdini_load_script = None;
    match plan_launch(&request(AppId::Houdini), &f) {
        Err(LaunchError::MissingFile { path }) => {
            assert_eq!(path, "./tools/houdini_studiotools/load.py");
        },
        Ok(_) => panic!("expected planning to fail"),
    }
}

#[test]
fn error_message_names_the_path() {
    let e = LaunchError::MissingFile { path: "./tools/blender_studiotools/load.py".to_string() };
    assert_eq!(e.message(), "missing required file: ./tools/blender_studiotools/load.py");
}
