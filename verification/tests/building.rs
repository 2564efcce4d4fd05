use marlin::build_library::{
    build_library, BuildAction, BuildEvent, BuildPhase, BuildRequest,
};
use marlin::config::{VerilatedModelConfig, VerilatorRuntimeOptions};
use marlin::dpi::{build_dpi, DpiFunction, DpiParameter};
use marlin::error::{ErrorKind, IoOperation, RuntimeError};
use marlin::freshness::{needs_verilator_rebuild, Probe};
use marlin::glue::build_ffi;
use marlin::paths::{
    dpi_directory, dpi_file, ffi_directory, ffi_file, library_name, library_path, lock_file,
    object_directory,
};
use marlin::port::{PortDescriptor, PortDirection};

fn request() -> BuildRequest {
    BuildRequest {
        source_files: vec!["src/main.sv".to_string(), "src/util.sv".to_string()],
        include_directories: vec!["include".to_string()],
        dpi_functions: vec![],
        top_module: "main".to_string(),
        ports: vec![
            PortDescriptor::new("a", 7, 0, PortDirection::Input),
            PortDescriptor::new("b", 7, 0, PortDirection::Output),
        ],
        artifact_directory: "artifacts/main_x_1".to_string(),
        options: VerilatorRuntimeOptions::default(),
        config: VerilatedModelConfig::default(),
    }
}

fn modified(at: i128) -> Probe {
    Probe::Modified { at }
}

fn strings(items: &[&str]) -> Vec<String> {
    items.iter().map(|s| s.to_string()).collect()
}

/// Runs a build against scripted reports and hands back every action.
fn drive(request: &BuildRequest, reports: Vec<BuildEvent>) -> Vec<BuildAction> {
    let mut phase = BuildPhase::Start;
    let mut actions = vec![];
    let (next, action) = build_library(request, phase, BuildEvent::Begin);
    phase = next;
    actions.push(action);
    for report in reports {
        let (next, action) = build_library(request, phase, report);
        phase = next;
        actions.push(action);
    }
    actions
}

#[test]
fn paths_inside_the_artifact_directory() {
    assert_eq!(ffi_directory("artifacts/x"), "artifacts/x/ffi");
    assert_eq!(object_directory("artifacts/x"), "artifacts/x/obj_dir");
    assert_eq!(dpi_directory("artifacts/x"), "artifacts/x/dpi");
    assert_eq!(ffi_file("artifacts/x"), "artifacts/x/ffi/ffi.cpp");
    assert_eq!(dpi_file("artifacts/x"), "artifacts/x/dpi/dpi.cpp");
    assert_eq!(library_name("main"), "marlin_Vmain");
    assert_eq!(library_path("artifacts/x", "main"), "artifacts/x/obj_dir/libmarlin_Vmain.so");
    assert_eq!(lock_file("artifacts/main_x_1", "main_x_1"), "artifacts/main_x_1/main_x_1.lock");
    assert_eq!(ffi_directory("artifacts/"), "artifacts/ffi");
}

#[test]
fn paths_are_joined_as_on_unix() {
    assert_eq!(lock_file("artifacts", "n"), "artifacts/n.lock");
    assert_eq!(lock_file("artifacts/", "n"), "artifacts/n.lock");
    assert_eq!(lock_file("", "n"), "n.lock");
    assert_eq!(lock_file("artifacts", ""), "artifacts/.lock");
    assert_eq!(lock_file("artifacts", "/abs"), "/abs.lock");
    assert_eq!(lock_file("/", "n"), "/n.lock");
    assert_eq!(lock_file("a//", "n"), "a//n.lock");
    assert_eq!(lock_file("a/b", "c/d"), "a/b/c/d.lock");
    assert_eq!(ffi_directory(""), "ffi");
    assert_eq!(ffi_directory("/"), "/ffi");
    assert_eq!(ffi_directory("./x"), "./x/ffi");
    assert_eq!(library_path("", "m"), "obj_dir/libmarlin_Vm.so");
}

#[test]
fn rebuild_when_library_is_missing() {
    let sources = strings(&["a.sv"]);
    assert_eq!(
        needs_verilator_rebuild(&sources, &vec![modified(5)], "lib.so", &Probe::Missing).unwrap(),
        true
    );
    assert_eq!(
        needs_verilator_rebuild(&sources, &vec![Probe::Missing], "lib.so", &Probe::Missing)
            .unwrap(),
        true
    );
}

#[test]
fn rebuild_when_a_source_is_newer() {
    let sources = strings(&["a.sv", "b.sv", "c.sv"]);
    let probes = vec![modified(10), modified(21), modified(5)];
    assert!(needs_verilator_rebuild(&sources, &probes, "lib.so", &modified(20)).unwrap());
    assert!(!needs_verilator_rebuild(&sources, &probes, "lib.so", &modified(21)).unwrap());
    assert!(!needs_verilator_rebuild(&sources, &probes, "lib.so", &modified(22)).unwrap());
    assert!(!needs_verilator_rebuild(&vec![], &vec![], "lib.so", &modified(0)).unwrap());
    let old = vec![modified(-5), modified(-100), modified(-6)];
    assert!(needs_verilator_rebuild(&sources, &old, "lib.so", &modified(-6)).unwrap());
    assert!(!needs_verilator_rebuild(&sources, &old, "lib.so", &modified(-5)).unwrap());
}

#[test]
fn touching_a_source_rebuilds_once() {
    let sources = strings(&["a.sv", "b.sv"]);
    let built = modified(100);
    let before = vec![modified(10), modified(20)];
    assert!(!needs_verilator_rebuild(&sources, &before, "lib.so", &built).unwrap());
    let touched = vec![modified(10), modified(150)];
    assert!(needs_verilator_rebuild(&sources, &touched, "lib.so", &built).unwrap());
    let rebuilt = modified(160);
    assert!(!needs_verilator_rebuild(&sources, &touched, "lib.so", &rebuilt).unwrap());
}

#[test]
fn unreadable_files_are_errors_in_order() {
    let sources = strings(&["a.sv", "b.sv", "c.sv"]);
    let library = Probe::Unreadable { detail: "denied".to_string() };
    match needs_verilator_rebuild(&sources, &vec![modified(1)], "lib.so", &library) {
        Err(RuntimeError::Io { operation, path, detail }) => {
            assert_eq!(operation, IoOperation::ReadMetadata);
            assert_eq!(path, "lib.so");
            assert_eq!(detail, "denied");
        }
        other => panic!("unexpected {:?}", other),
    }
    let probes =
        vec![modified(1), Probe::Unreadable { detail: "denied".to_string() }, modified(99)];
    match needs_verilator_rebuild(&sources, &probes, "lib.so", &modified(50)) {
        Err(RuntimeError::Io { path, detail, .. }) => {
            assert_eq!(path, "b.sv");
            assert_eq!(detail, "denied");
        }
        other => panic!("unexpected {:?}", other),
    }
    let probes = vec![modified(1), Probe::Missing, modified(99)];
    match needs_verilator_rebuild(&sources, &probes, "lib.so", &modified(50)) {
        Err(RuntimeError::SourceMissing { path }) => assert_eq!(path, "b.sv"),
        other => panic!("unexpected {:?}", other),
    }
    let probes = vec![modified(60), Probe::Missing, modified(99)];
    assert!(needs_verilator_rebuild(&sources, &probes, "lib.so", &modified(50)).unwrap());
}

#[test]
fn first_build_compiles_after_writing_glue() {
    let request = request();
    let actions = drive(
        &request,
        vec![
            BuildEvent::Completed,
            BuildEvent::Completed,
            BuildEvent::Modified {
                library: Probe::Missing,
                sources: vec![modified(1), modified(2)],
            },
            BuildEvent::Completed,
            BuildEvent::Completed,
            BuildEvent::Exited {
                success: true,
                status: "exit status: 0".to_string(),
                stdout: String::new(),
                stderr: String::new(),
            },
        ],
    );
    assert_eq!(actions.len(), 7);
    match &actions[0] {
        BuildAction::CreateDirectory { path } => assert_eq!(path, "artifacts/main_x_1/ffi"),
        other => panic!("unexpected {:?}", other),
    }
    match &actions[1] {
        BuildAction::CreateDirectory { path } => assert_eq!(path, "artifacts/main_x_1/dpi"),
        other => panic!("unexpected {:?}", other),
    }
    match &actions[2] {
        BuildAction::ProbeModified { library, sources } => {
            assert_eq!(library, "artifacts/main_x_1/obj_dir/libmarlin_Vmain.so");
            assert_eq!(sources, &strings(&["src/main.sv", "src/util.sv"]));
        }
        other => panic!("unexpected {:?}", other),
    }
    assert!(matches!(actions[3], BuildAction::Announce));
    match &actions[4] {
        BuildAction::WriteText { path, contents } => {
            assert_eq!(path, "artifacts/main_x_1/ffi/ffi.cpp");
            assert_eq!(contents, &build_ffi("main", &request.ports, false).unwrap());
        }
        other => panic!("unexpected {:?}", other),
    }
    match &actions[5] {
        BuildAction::RunCompiler { program, arguments } => {
            assert_eq!(program, "verilator");
            assert_eq!(
                arguments,
                &strings(&[
                    "--cc",
                    "-sv",
                    "-j",
                    "0",
                    "--build",
                    "-CFLAGS",
                    "-shared -fpic",
                    "--lib-create",
                    "marlin_Vmain",
                    "--Mdir",
                    "artifacts/main_x_1/obj_dir",
                    "--top-module",
                    "main",
                    "src/main.sv",
                    "src/util.sv",
                    "../ffi/ffi.cpp",
                    "-Iinclude",
                ])
            );
        }
        other => panic!("unexpected {:?}", other),
    }
    match &actions[6] {
        BuildAction::Done { library_path, rebuilt } => {
            assert_eq!(library_path, "artifacts/main_x_1/obj_dir/libmarlin_Vmain.so");
            assert!(*rebuilt);
        }
        other => panic!("unexpected {:?}", other),
    }
}

#[test]
fn fresh_library_is_kept_without_compiling() {
    let request = request();
    let actions = drive(
        &request,
        vec![
            BuildEvent::Completed,
            BuildEvent::Completed,
            BuildEvent::Modified {
                library: modified(100),
                sources: vec![modified(1), modified(100)],
            },
        ],
    );
    assert_eq!(actions.len(), 4);
    match &actions[3] {
        BuildAction::Done { library_path, rebuilt } => {
            assert_eq!(library_path, "artifacts/main_x_1/obj_dir/libmarlin_Vmain.so");
            assert!(!*rebuilt);
        }
        other => panic!("unexpected {:?}", other),
    }
    assert!(!actions.iter().any(|a| matches!(a, BuildAction::RunCompiler { .. })));
    assert!(!actions.iter().any(|a| matches!(a, BuildAction::WriteText { .. })));
}

#[test]
fn touched_source_triggers_a_rebuild_and_unrelated_files_are_not_asked_about() {
    let request = request();
    let actions = drive(
        &request,
        vec![
            BuildEvent::Completed,
            BuildEvent::Completed,
            BuildEvent::Modified {
                library: modified(100),
                sources: vec![modified(1), modified(101)],
            },
        ],
    );
    assert!(matches!(actions[3], BuildAction::Announce));
    match &actions[2] {
        BuildAction::ProbeModified { sources, .. } => {
            assert_eq!(sources, &request.source_files);
        }
        other => panic!("unexpected {:?}", other),
    }
}

#[test]
fn forced_rebuild_skips_the_probe() {
    let mut request = request();
    request.options.force_verilator_rebuild = true;
    let actions = drive(&request, vec![BuildEvent::Completed, BuildEvent::Completed]);
    assert_eq!(actions.len(), 3);
    assert!(matches!(actions[2], BuildAction::Announce));
}

#[test]
fn compiler_flags_follow_the_configuration() {
    let mut request = request();
    request.dpi_functions = vec![DpiFunction::new(
        "three",
        vec![DpiParameter { name: "out".to_string(), c_type: "uint32_t*".to_string() }],
    )];
    request.include_directories = strings(&["inc", "/abs/inc"]);
    request.config = VerilatedModelConfig {
        verilator_optimization: 3,
        ignored_warnings: strings(&["WIDTH", "UNUSED"]),
        enable_tracing: true,
    };
    request.options.verilator_executable = "verilator_bin".to_string();
    assert_eq!(
        request.compiler_arguments(),
        strings(&[
            "--cc",
            "-sv",
            "-j",
            "0",
            "--build",
            "-CFLAGS",
            "-shared -fpic",
            "--lib-create",
            "marlin_Vmain",
            "--Mdir",
            "artifacts/main_x_1/obj_dir",
            "--top-module",
            "main",
            "src/main.sv",
            "src/util.sv",
            "../ffi/ffi.cpp",
            "-Iinc",
            "-I/abs/inc",
            "../dpi/dpi.cpp",
            "-O3",
            "-Wno-WIDTH",
            "-Wno-UNUSED",
            "--trace",
        ])
    );
}

#[test]
fn callback_glue_is_written_when_it_differs() {
    let mut request = request();
    request.dpi_functions = vec![DpiFunction::new(
        "three",
        vec![DpiParameter { name: "out".to_string(), c_type: "uint32_t*".to_string() }],
    )];
    let generated = build_dpi("main", &request.dpi_functions);
    let actions = drive(
        &request,
        vec![
            BuildEvent::Completed,
            BuildEvent::Completed,
            BuildEvent::Text { contents: Some("stale".to_string()) },
            BuildEvent::Completed,
            BuildEvent::Modified {
                library: modified(100),
                sources: vec![modified(1), modified(2)],
            },
        ],
    );
    match &actions[2] {
        BuildAction::ReadText { path } => assert_eq!(path, "artifacts/main_x_1/dpi/dpi.cpp"),
        other => panic!("unexpected {:?}", other),
    }
    match &actions[3] {
        BuildAction::WriteText { path, contents } => {
            assert_eq!(path, "artifacts/main_x_1/dpi/dpi.cpp");
            assert_eq!(contents, &generated);
        }
        other => panic!("unexpected {:?}", other),
    }
    assert!(matches!(actions[4], BuildAction::ProbeModified { .. }));
    assert!(matches!(actions[5], BuildAction::Announce));
}

#[test]
fn callback_glue_is_left_alone_when_it_is_equal() {
    let mut request = request();
    request.dpi_functions = vec![DpiFunction::new("tick", vec![])];
    let generated = build_dpi("main", &request.dpi_functions);
    let actions = drive(
        &request,
        vec![
            BuildEvent::Completed,
            BuildEvent::Completed,
            BuildEvent::Text { contents: Some(generated) },
            BuildEvent::Modified {
                library: modified(100),
                sources: vec![modified(1), modified(2)],
            },
        ],
    );
    assert!(matches!(actions[3], BuildAction::ProbeModified { .. }));
    match &actions[4] {
        BuildAction::Done { rebuilt, .. } => assert!(!*rebuilt),
        other => panic!("unexpected {:?}", other),
    }
    let unreadable = drive(
        &request,
        vec![BuildEvent::Completed, BuildEvent::Completed, BuildEvent::Text { contents: None }],
    );
    assert!(matches!(unreadable[3], BuildAction::WriteText { .. }));
}

#[test]
fn compiler_failure_keeps_its_output() {
    let request = request();
    let actions = drive(
        &request,
        vec![
            BuildEvent::Completed,
            BuildEvent::Completed,
            BuildEvent::Modified { library: Probe::Missing, sources: vec![modified(1), modified(2)] },
            BuildEvent::Completed,
            BuildEvent::Completed,
            BuildEvent::Exited {
                success: false,
                status: "exit status: 1".to_string(),
                stdout: "- V e r i l a t i o n\n".to_string(),
                stderr: "%Error: src/main.sv:3:1: syntax error\n".to_string(),
            },
        ],
    );
    match &actions[6] {
        BuildAction::Fail { error } => {
            assert_eq!(error.kind(), ErrorKind::BuildTool);
            match error {
                RuntimeError::BuildTool { status, stdout, stderr } => {
                    assert_eq!(status, "exit status: 1");
                    assert_eq!(stdout, "- V e r i l a t i o n\n");
                    assert_eq!(stderr, "%Error: src/main.sv:3:1: syntax error\n");
                }
                other => panic!("unexpected {:?}", other),
            }
            let message = error.message();
            assert!(message.contains("- V e r i l a t i o n\n"));
            assert!(message.contains("%Error: src/main.sv:3:1: syntax error\n"));
        }
        other => panic!("unexpected {:?}", other),
    }
}

#[test]
fn failures_of_steps_name_the_path() {
    let request = request();
    let actions = drive(&request, vec![BuildEvent::Failed { detail: "denied".to_string() }]);
    match &actions[1] {
        BuildAction::Fail { error: RuntimeError::Io { operation, path, detail } } => {
            assert_eq!(*operation, IoOperation::CreateDirectory);
            assert_eq!(path, "artifacts/main_x_1/ffi");
            assert_eq!(detail, "denied");
        }
        other => panic!("unexpected {:?}", other),
    }
    let actions = drive(
        &request,
        vec![
            BuildEvent::Completed,
            BuildEvent::Completed,
            BuildEvent::Modified { library: Probe::Missing, sources: vec![modified(1), modified(2)] },
            BuildEvent::Completed,
            BuildEvent::Completed,
            BuildEvent::Failed { detail: "not found".to_string() },
        ],
    );
    match &actions[6] {
        BuildAction::Fail { error: RuntimeError::Io { operation, path, detail } } => {
            assert_eq!(*operation, IoOperation::RunCompiler);
            assert_eq!(path, "verilator");
            assert_eq!(detail, "not found");
        }
        other => panic!("unexpected {:?}", other),
    }
}

#[test]
fn invalid_requests_fail_before_anything_is_touched() {
    let mut wide = request();
    wide.ports.push(PortDescriptor::new("w", 64, 0, PortDirection::Output));
    let actions = drive(&wide, vec![BuildEvent::Completed]);
    match &actions[0] {
        BuildAction::Fail { error: RuntimeError::PortTooWide { port, module } } => {
            assert_eq!(port, "w");
            assert_eq!(module, "main");
        }
        other => panic!("unexpected {:?}", other),
    }
    assert!(matches!(
        actions[1],
        BuildAction::Fail { error: RuntimeError::UnexpectedEvent }
    ));
    let mut level = request();
    level.config.verilator_optimization = 4;
    match &drive(&level, vec![])[0] {
        BuildAction::Fail { error: RuntimeError::InvalidOptimizationLevel { level } } => {
            assert_eq!(*level, 4)
        }
        other => panic!("unexpected {:?}", other),
    }
}

#[test]
fn reports_out_of_order_end_the_build() {
    let request = request();
    let (phase, action) = build_library(&request, BuildPhase::Start, BuildEvent::Completed);
    assert_eq!(phase, BuildPhase::Finished);
    assert!(matches!(action, BuildAction::Fail { error: RuntimeError::UnexpectedEvent }));
    let (phase, action) = build_library(
        &request,
        BuildPhase::Probing { dpi_rebuilt: false },
        BuildEvent::Modified { library: modified(1), sources: vec![modified(1)] },
    );
    assert_eq!(phase, BuildPhase::Finished);
    assert!(matches!(action, BuildAction::Fail { error: RuntimeError::UnexpectedEvent }));
    let (_, action) = build_library(&request, BuildPhase::Finished, BuildEvent::Begin);
    assert!(matches!(action, BuildAction::Fail { error: RuntimeError::UnexpectedEvent }));
}
