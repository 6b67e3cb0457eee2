use worker_host::event::WorkerError;
use worker_host::launcher::{
    bootstrap_script, launch_begin, launch_step, stdio_resources, thread_name, LaunchAction,
    LaunchPhase, RunWorkerThreadArgs, StdStream, StepOutcome,
};

fn args() -> RunWorkerThreadArgs {
    RunWorkerThreadArgs {
        worker_id: 7,
        name: "helper".to_string(),
        specifier: "file:///worker.js".to_string(),
        has_deno_namespace: false,
        maybe_source_code: None,
        import_map: None,
    }
}

fn failure(text: &str) -> WorkerError {
    WorkerError::Opaque { message: text.to_string() }
}

/// Runs a launch in which every piece of work succeeds.
fn run_to_end(args: &RunWorkerThreadArgs) -> Vec<LaunchAction> {
    let (mut phase, first) = launch_begin(args);
    let mut actions = vec![first];
    while phase != LaunchPhase::Exited {
        let (next, action) = launch_step(args, phase, StepOutcome::Done);
        phase = next;
        actions.push(action);
    }
    actions
}

#[test]
fn thread_is_named_after_the_worker() {
    assert_eq!(thread_name(0), "deno-worker-0");
    assert_eq!(thread_name(12), "deno-worker-12");
    assert_eq!(thread_name(u32::MAX), "deno-worker-4294967295");
}

#[test]
fn bootstrap_script_names_the_worker() {
    assert_eq!(
        bootstrap_script("helper", false, 3),
        "bootstrap.workerRuntime(\"helper\", false, \"worker-3\")"
    );
    assert_eq!(
        bootstrap_script("", true, 41),
        "bootstrap.workerRuntime(\"\", true, \"worker-41\")"
    );
}

#[test]
fn plain_launch_runs_in_order() {
    assert_eq!(
        run_to_end(&args()),
        vec![
            LaunchAction::Construct,
            LaunchAction::Bootstrap(
                "bootstrap.workerRuntime(\"helper\", false, \"worker-7\")".to_string()
            ),
            LaunchAction::SendHandle,
            LaunchAction::LoadModule("file:///worker.js".to_string()),
            LaunchAction::RunEventLoop,
            LaunchAction::Exit,
        ]
    );
}

#[test]
fn full_launch_runs_in_order() {
    let mut full = args();
    full.has_deno_namespace = true;
    full.maybe_source_code = Some("postMessage(1)".to_string());
    full.import_map = Some("map.json".to_string());
    assert_eq!(
        run_to_end(&full),
        vec![
            LaunchAction::CheckReadPermission("map.json".to_string()),
            LaunchAction::LoadImportMap("map.json".to_string()),
            LaunchAction::Construct,
            LaunchAction::AttachStdio,
            LaunchAction::Bootstrap(
                "bootstrap.workerRuntime(\"helper\", true, \"worker-7\")".to_string()
            ),
            LaunchAction::SendHandle,
            LaunchAction::ExecuteSource("postMessage(1)".to_string()),
            LaunchAction::RunEventLoop,
            LaunchAction::Exit,
        ]
    );
}

#[test]
fn failure_before_the_handshake_is_a_creation_error() {
    let mut full = args();
    full.has_deno_namespace = true;
    full.import_map = Some("map.json".to_string());
    for phase in [
        LaunchPhase::CheckingImportMap,
        LaunchPhase::LoadingImportMap,
        LaunchPhase::Constructing,
        LaunchPhase::AttachingStdio,
        LaunchPhase::Bootstrapping,
    ] {
        assert_eq!(
            launch_step(&full, phase, StepOutcome::Failed(failure("denied"))),
            (LaunchPhase::Exited, LaunchAction::SendCreationError(failure("denied")))
        );
    }
}

#[test]
fn failed_handshake_just_returns() {
    assert_eq!(
        launch_step(&args(), LaunchPhase::Handshaking, StepOutcome::Failed(failure("gone"))),
        (LaunchPhase::Exited, LaunchAction::Exit)
    );
}

#[test]
fn failed_evaluation_posts_one_terminal_error() {
    let args = args();
    let (phase, action) = launch_step(
        &args,
        LaunchPhase::Evaluating,
        StepOutcome::Failed(failure("Cannot resolve module")),
    );
    assert_eq!(action, LaunchAction::PostTerminalError(failure("Cannot resolve module")));
    assert_eq!(phase, LaunchPhase::Exited);
    for outcome in [StepOutcome::Done, StepOutcome::Failed(failure("again"))] {
        assert_eq!(
            launch_step(&args, phase, outcome),
            (LaunchPhase::Exited, LaunchAction::Exit)
        );
    }
}

#[test]
fn unresolvable_module_yields_one_terminal_error_and_no_event_loop() {
    let args = args();
    let (mut phase, first) = launch_begin(&args);
    let mut actions = vec![first];
    while phase != LaunchPhase::Exited {
        let outcome = if phase == LaunchPhase::Evaluating {
            StepOutcome::Failed(failure("not found"))
        } else {
            StepOutcome::Done
        };
        let (next, action) = launch_step(&args, phase, outcome);
        phase = next;
        actions.push(action);
    }
    assert_eq!(
        actions,
        vec![
            LaunchAction::Construct,
            LaunchAction::Bootstrap(
                "bootstrap.workerRuntime(\"helper\", false, \"worker-7\")".to_string()
            ),
            LaunchAction::SendHandle,
            LaunchAction::LoadModule("file:///worker.js".to_string()),
            LaunchAction::PostTerminalError(failure("not found")),
        ]
    );
}

#[test]
fn failure_in_the_event_loop_is_a_terminal_error() {
    assert_eq!(
        launch_step(&args(), LaunchPhase::Running, StepOutcome::Failed(failure("fatal"))),
        (LaunchPhase::Exited, LaunchAction::PostTerminalError(failure("fatal")))
    );
}

#[test]
fn drained_event_loop_returns() {
    assert_eq!(
        launch_step(&args(), LaunchPhase::Running, StepOutcome::Done),
        (LaunchPhase::Exited, LaunchAction::Exit)
    );
}

#[test]
fn import_map_is_checked_before_it_is_loaded() {
    let mut with_map = args();
    with_map.import_map = Some("maps/import.json".to_string());
    assert_eq!(
        launch_begin(&with_map),
        (
            LaunchPhase::CheckingImportMap,
            LaunchAction::CheckReadPermission("maps/import.json".to_string())
        )
    );
    assert_eq!(
        launch_step(&with_map, LaunchPhase::CheckingImportMap, StepOutcome::Done),
        (LaunchPhase::LoadingImportMap, LaunchAction::LoadImportMap("maps/import.json".to_string()))
    );
}

#[test]
fn stdio_is_attached_only_to_a_privileged_worker() {
    let plain = args();
    let (_, action) = launch_step(&plain, LaunchPhase::Constructing, StepOutcome::Done);
    assert!(matches!(action, LaunchAction::Bootstrap(_)));
    let mut privileged = args();
    privileged.has_deno_namespace = true;
    assert_eq!(
        launch_step(&privileged, LaunchPhase::Constructing, StepOutcome::Done),
        (LaunchPhase::AttachingStdio, LaunchAction::AttachStdio)
    );
}

#[test]
fn stdio_resources_lists_the_streams_that_are_there() {
    assert_eq!(
        stdio_resources(true, true, true),
        vec![StdStream::Stdin, StdStream::Stdout, StdStream::Stderr]
    );
    assert_eq!(stdio_resources(false, true, false), vec![StdStream::Stdout]);
    assert_eq!(stdio_resources(true, false, true), vec![StdStream::Stdin, StdStream::Stderr]);
    assert_eq!(stdio_resources(false, false, false), Vec::<StdStream>::new());
}

#[test]
fn streams_have_their_resource_names() {
    assert_eq!(StdStream::Stdin.resource_name(), "stdin");
    assert_eq!(StdStream::Stdout.resource_name(), "stdout");
    assert_eq!(StdStream::Stderr.resource_name(), "stderr");
}
