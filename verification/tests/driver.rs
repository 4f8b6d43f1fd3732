use dcc_launcher::driver::{LaunchRun, StepStatus};
use dcc_launcher::environment::OperatingSystem;
use dcc_launcher::plan::{plan_launch, AppId, HostFacts, LaunchRequest};

fn blender_plan_run() -> LaunchRun {
    let req = LaunchRequest {
        id: AppId::Blender,
        executable: "/opt/blender/blender".to_string(),
        content: "/work/shot.blend".to_string(),
    };
    let facts = HostFacts {
        os: OperatingSystem::Unix,
        env: Vec::new(),
        interpreter: "/opt/blender/4.2/python/bin/python3.11".to_string(),
        blender_load_script: Some("/abs/load.py".to_string()),
        blender_requirements: Some("/abs/requirements.txt".to_string()),
        houdini_load_script: None,
    };
    let plan = plan_launch(&req, &facts).expect("blender plan");
    LaunchRun::new(plan)
}

#[test]
fn steps_come_out_in_plan_order() {
    let mut run = blender_plan_run();
    let first = run.next_step().expect("first step").program.clone();
    assert_eq!(first, "/opt/blender/4.2/python/bin/python3.11");
    run.record(StepStatus::Succeeded);
    let second = run.next_step().expect("second step").args.clone();
    assert_eq!(second[1], "pip");
    run.record(StepStatus::Succeeded);
    let third = run.next_step().expect("main step").program.clone();
    assert_eq!(third, "/opt/blender/blender");
    run.record(StepStatus::Succeeded);
    assert!(run.is_finished());
    assert!(run.next_step().is_none());
    assert!(run.succeeded());
}

#[test]
fn failing_bootstrap_does_not_prevent_main_spawn() {
    // Simulate a failing "pip install": the run must still hand out the
    // main executable with its planned arguments.
    let mut run = blender_plan_run();
    run.record(StepStatus::NonZeroExit);
    run.record(StepStatus::NonZeroExit);
    let main = run.next_step().expect("main step after failed bootstrap");
    assert_eq!(main.program, "/opt/blender/blender");
    assert_eq!(main.args[0], "/work/shot.blend");
    assert_eq!(main.args[1], "--python-use-system-env");
    let status = StepStatus::Succeeded;
    run.record(status);
    assert!(run.is_finished());
    assert!(run.succeeded());
}

#[test]
fn failed_main_spawn_is_terminal_failure() {
    let mut run = blender_plan_run();
    run.record(StepStatus::Succeeded);
    run.record(StepStatus::Succeeded);
    run.record(StepStatus::SpawnFailed);
    assert!(run.is_finished());
    assert!(!run.succeeded());
}

#[test]
fn unfinished_run_has_not_succeeded() {
    let mut run = blender_plan_run();
    run.record(StepStatus::Succeeded);
    assert!(!run.is_finished());
    assert!(!run.succeeded());
}
