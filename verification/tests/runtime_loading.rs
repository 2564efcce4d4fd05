use marlin::build_library::{BuildAction, BuildEvent};
use marlin::config::{VerilatedModelConfig, VerilatorRuntimeOptions};
use marlin::dpi::{DpiFunction, DpiParameter};
use marlin::error::{ErrorKind, IoOperation, RuntimeError};
use marlin::freshness::Probe;
use marlin::native::NativeCall;
use marlin::port::{PortDescriptor, PortDirection};
use marlin::progress::{compiling_notice, finished_notice, profile_name};
use marlin::runtime::{
    is_source_provided, HeldLocks, LibraryArenaKey, LibraryLoad, LoadAction, LoadEvent, LoadPhase,
    SourceFile, VerilatorRuntime,
};
use marlin::signature::cache_key;

fn ports() -> Vec<PortDescriptor> {
    vec![
        PortDescriptor::new("a", 7, 0, PortDirection::Input),
        PortDescriptor::new("b", 7, 0, PortDirection::Output),
    ]
}

fn source(path: &str, is_file: bool) -> SourceFile {
    SourceFile { path: path.to_string(), is_file }
}

fn runtime_with(dpi: Vec<DpiFunction>, options: VerilatorRuntimeOptions) -> VerilatorRuntime {
    VerilatorRuntime::new(
        "artifacts",
        &vec![source("src/main.sv", true)],
        &vec!["include".to_string()],
        dpi,
        options,
    )
    .unwrap()
}

fn runtime() -> VerilatorRuntime {
    runtime_with(vec![], VerilatorRuntimeOptions::default())
}

/// What the outside world looks like to a load.
struct World {
    built: Vec<(String, i128)>,
    probed: String,
    source_edited_at: i128,
    compiler_runs: usize,
    libraries_opened: usize,
    thread_locks: usize,
    file_locks: usize,
    locks_held: HeldLocks,
    compile_fails: bool,
    log: Vec<String>,
}

impl World {
    fn new() -> World {
        World {
            built: vec![],
            probed: String::new(),
            source_edited_at: 10,
            compiler_runs: 0,
            libraries_opened: 0,
            thread_locks: 0,
            file_locks: 0,
            locks_held: HeldLocks::Neither,
            compile_fails: false,
            log: vec![],
        }
    }

    fn build(&mut self, action: BuildAction) -> BuildEvent {
        match action {
            BuildAction::CreateDirectory { path } => {
                self.log.push(format!("mkdir {}", path));
                BuildEvent::Completed
            }
            BuildAction::ReadText { path } => {
                self.log.push(format!("read {}", path));
                BuildEvent::Text { contents: None }
            }
            BuildAction::WriteText { path, .. } => {
                self.log.push(format!("write {}", path));
                BuildEvent::Completed
            }
            BuildAction::ProbeModified { library, sources } => {
                self.log.push("probe".to_string());
                self.probed = library;
                BuildEvent::Modified {
                    library: match self.built.iter().find(|(path, _)| *path == self.probed) {
                        Some((_, at)) => Probe::Modified { at: *at },
                        None => Probe::Missing,
                    },
                    sources: sources
                        .iter()
                        .map(|_| Probe::Modified { at: self.source_edited_at })
                        .collect(),
                }
            }
            BuildAction::Announce => {
                self.log.push("announce".to_string());
                BuildEvent::Completed
            }
            BuildAction::RunCompiler { .. } => {
                self.log.push("compile".to_string());
                self.compiler_runs += 1;
                if self.compile_fails {
                    BuildEvent::Exited {
                        success: false,
                        status: "exit status: 1".to_string(),
                        stdout: "out".to_string(),
                        stderr: "err".to_string(),
                    }
                } else {
                    let at = self.source_edited_at + 1;
                    self.built.retain(|(path, _)| *path != self.probed);
                    self.built.push((self.probed.clone(), at));
                    BuildEvent::Exited {
                        success: true,
                        status: "exit status: 0".to_string(),
                        stdout: String::new(),
                        stderr: String::new(),
                    }
                }
            }
            BuildAction::Done { .. } | BuildAction::Fail { .. } => {
                panic!("the end of a build is not handed to the driver")
            }
        }
    }

    /// Drives one load to its end and hands back its last action.
    fn load(&mut self, runtime: &mut VerilatorRuntime, load: &LibraryLoad) -> LoadAction {
        let mut phase = LoadPhase::Start;
        let mut event = LoadEvent::Begin;
        loop {
            let (next, action) = runtime.build_or_retrieve_library(load, phase, event);
            phase = next;
            event = match action {
                LoadAction::CheckSource { source_path, source_files } => LoadEvent::SourceChecked {
                    source: canonical(&source_path),
                    files: source_files.iter().map(|file| canonical(file)).collect(),
                },
                LoadAction::CreateDirectory { path } => {
                    self.log.push(format!("mkdir {}", path));
                    LoadEvent::Completed
                }
                LoadAction::LockThread { directory } => {
                    assert_eq!(self.locks_held, HeldLocks::Neither);
                    self.log.push(format!("lock thread {}", directory));
                    self.thread_locks += 1;
                    self.locks_held = HeldLocks::Thread;
                    LoadEvent::Completed
                }
                LoadAction::LockFile { path } => {
                    assert_eq!(self.locks_held, HeldLocks::Thread);
                    self.log.push(format!("lock file {}", path));
                    self.file_locks += 1;
                    self.locks_held = HeldLocks::ThreadAndFile;
                    LoadEvent::Completed
                }
                LoadAction::Build { action } => {
                    assert_eq!(self.locks_held, HeldLocks::ThreadAndFile);
                    LoadEvent::Build { event: self.build(action) }
                }
                LoadAction::OpenLibrary { path } => {
                    assert_eq!(self.locks_held, HeldLocks::ThreadAndFile);
                    self.log.push(format!("open {}", path));
                    self.libraries_opened += 1;
                    LoadEvent::Completed
                }
                LoadAction::Call { call } => {
                    assert_eq!(self.locks_held, HeldLocks::ThreadAndFile);
                    match call {
                        NativeCall::InitializeCallbacks { symbol, count } => {
                            self.log.push(format!("call {} with {}", symbol, count))
                        }
                        NativeCall::TraceEverOn { symbol } => self.log.push(format!("call {}", symbol)),
                        other => panic!("unexpected {:?}", other),
                    }
                    LoadEvent::Completed
                }
                LoadAction::Done { library, newly_loaded, rebuilt, release } => {
                    assert_eq!(release, self.locks_held);
                    self.locks_held = HeldLocks::Neither;
                    assert_eq!(phase, LoadPhase::Finished);
                    return LoadAction::Done { library, newly_loaded, rebuilt, release };
                }
                LoadAction::Fail { error, release } => {
                    assert_eq!(release, self.locks_held);
                    self.locks_held = HeldLocks::Neither;
                    assert_eq!(phase, LoadPhase::Finished);
                    return LoadAction::Fail { error, release };
                }
            };
        }
    }
}

/// The canonical form of a path in the world of these tests: a leading
/// `./` is dropped, and paths under `nowhere/` do not exist.
fn canonical(path: &str) -> Option<String> {
    if path.starts_with("nowhere/") {
        None
    } else {
        Some(path.strip_prefix("./").unwrap_or(path).to_string())
    }
}

fn provided() -> LoadEvent {
    LoadEvent::SourceChecked {
        source: Some("src/main.sv".to_string()),
        files: vec![Some("src/main.sv".to_string())],
    }
}

fn prepare(runtime: &VerilatorRuntime) -> LibraryLoad {
    runtime
        .prepare_library("main", "src/main.sv", &ports(), &VerilatedModelConfig::default())
        .unwrap()
}

#[test]
fn runtime_needs_its_sources_to_be_files() {
    let sources =
        vec![source("a.sv", true), source("missing.sv", false), source("also.sv", false)];
    match VerilatorRuntime::new(
        "artifacts",
        &sources,
        &vec![],
        vec![],
        VerilatorRuntimeOptions::default(),
    ) {
        Err(RuntimeError::SourceMissing { path }) => assert_eq!(path, "missing.sv"),
        Err(other) => panic!("unexpected {:?}", other),
        Ok(_) => panic!("accepted"),
    }
    let runtime = runtime();
    assert_eq!(runtime.library_count(), 0);
    assert_eq!(runtime.outstanding_models(), 0);
}

#[test]
fn prepared_load_names_key_and_directories() {
    let runtime = runtime();
    let load = prepare(&runtime);
    let key = cache_key(&ports(), &VerilatedModelConfig::default());
    assert_eq!(load.key.name, "main");
    assert_eq!(load.key.source_path, "src/main.sv");
    assert_eq!(load.key.hash, key);
    assert_eq!(load.build.artifact_directory, format!("artifacts/main_.src_-main.sv_.{}", key));
    assert_eq!(load.build.top_module, "main");
    assert_eq!(load.build.source_files, vec!["src/main.sv".to_string()]);
    assert_eq!(load.build.include_directories, vec!["include".to_string()]);
    assert_eq!(load.build.ports.len(), 2);
    assert_eq!(load.build.ports[1].name, "b");
    assert!(load.validate().is_ok());
}

#[test]
fn validation_comes_before_everything() {
    let mut runtime = runtime();
    let wide = vec![PortDescriptor::new("w", 64, 0, PortDirection::Input)];
    let config = VerilatedModelConfig::default();
    match runtime.prepare_library("main", "src/main.sv", &wide, &config) {
        Err(e) => {
            assert_eq!(e.kind(), ErrorKind::Validation);
            assert!(matches!(e, RuntimeError::PortTooWide { .. }));
        }
        Ok(_) => panic!("accepted"),
    }
    assert!(matches!(
        runtime.prepare_library("my main", "src/main.sv", &ports(), &config),
        Err(RuntimeError::EscapedModuleName { .. })
    ));
    let level = VerilatedModelConfig {
        verilator_optimization: 7,
        ignored_warnings: vec![],
        enable_tracing: false,
    };
    assert!(matches!(
        runtime.prepare_library("main", "src/main.sv", &ports(), &level),
        Err(RuntimeError::InvalidOptimizationLevel { level: 7 })
    ));
    let mut load = prepare(&runtime);
    load.build.ports.push(PortDescriptor::new("bad", 0, 1, PortDirection::Input));
    let mut world = World::new();
    match world.load(&mut runtime, &load) {
        LoadAction::Fail { error, release } => {
            assert!(matches!(error, RuntimeError::InvertedPortRange { .. }));
            assert_eq!(release, HeldLocks::Neither);
        }
        other => panic!("unexpected {:?}", other),
    }
    assert!(world.log.is_empty());
}

#[test]
fn first_load_builds_under_both_locks() {
    let mut runtime = runtime();
    let load = prepare(&runtime);
    let mut world = World::new();
    match world.load(&mut runtime, &load) {
        LoadAction::Done { library, newly_loaded, rebuilt, release } => {
            assert_eq!(library, 0);
            assert!(newly_loaded);
            assert!(rebuilt);
            assert_eq!(release, HeldLocks::ThreadAndFile);
        }
        other => panic!("unexpected {:?}", other),
    }
    let directory = load.build.artifact_directory.clone();
    assert_eq!(
        world.log,
        vec![
            format!("mkdir {}", directory),
            format!("lock thread {}", directory),
            format!("lock file {}/{}.lock", directory, directory.strip_prefix("artifacts/").unwrap()),
            format!("mkdir {}/ffi", directory),
            format!("mkdir {}/dpi", directory),
            "probe".to_string(),
            "announce".to_string(),
            format!("write {}/ffi/ffi.cpp", directory),
            "compile".to_string(),
            format!("open {}/obj_dir/libmarlin_Vmain.so", directory),
        ]
    );
    assert_eq!(runtime.library_count(), 1);
}

#[test]
fn repeated_loads_share_one_library_and_compile_once() {
    let mut runtime = runtime();
    let mut world = World::new();
    let mut places = vec![];
    for round in 0..5 {
        let load = prepare(&runtime);
        match world.load(&mut runtime, &load) {
            LoadAction::Done { library, newly_loaded, rebuilt, release } => {
                places.push(library);
                assert_eq!(newly_loaded, round == 0);
                assert_eq!(rebuilt, round == 0);
                if round > 0 {
                    assert_eq!(release, HeldLocks::Neither);
                }
            }
            other => panic!("unexpected {:?}", other),
        }
    }
    assert_eq!(places, vec![0, 0, 0, 0, 0]);
    assert_eq!(world.compiler_runs, 1);
    assert_eq!(world.libraries_opened, 1);
    assert_eq!(world.thread_locks, 1);
    assert_eq!(world.file_locks, 1);
    assert_eq!(runtime.library_count(), 1);
}

#[test]
fn another_runtime_finds_the_artifact_fresh() {
    let mut world = World::new();
    let mut first = runtime();
    let load = prepare(&first);
    world.load(&mut first, &load);
    assert_eq!(world.compiler_runs, 1);
    let mut second = runtime();
    let load = prepare(&second);
    match world.load(&mut second, &load) {
        LoadAction::Done { library, newly_loaded, rebuilt, .. } => {
            assert_eq!(library, 0);
            assert!(newly_loaded);
            assert!(!rebuilt);
        }
        other => panic!("unexpected {:?}", other),
    }
    assert_eq!(world.compiler_runs, 1);
    assert_eq!(world.libraries_opened, 2);
    world.source_edited_at = 1000;
    let mut third = runtime();
    let load = prepare(&third);
    match world.load(&mut third, &load) {
        LoadAction::Done { rebuilt, .. } => assert!(rebuilt),
        other => panic!("unexpected {:?}", other),
    }
    assert_eq!(world.compiler_runs, 2);
    let mut fourth = runtime();
    let load = prepare(&fourth);
    match world.load(&mut fourth, &load) {
        LoadAction::Done { rebuilt, .. } => assert!(!rebuilt),
        other => panic!("unexpected {:?}", other),
    }
    assert_eq!(world.compiler_runs, 2);
}

#[test]
fn different_signatures_get_different_libraries() {
    let mut runtime = runtime();
    let mut world = World::new();
    let config = VerilatedModelConfig::default();
    let traced = VerilatedModelConfig {
        verilator_optimization: 0,
        ignored_warnings: vec![],
        enable_tracing: true,
    };
    let plain = runtime.prepare_library("main", "src/main.sv", &ports(), &config).unwrap();
    let with_tracing = runtime.prepare_library("main", "src/main.sv", &ports(), &traced).unwrap();
    assert_ne!(plain.build.artifact_directory, with_tracing.build.artifact_directory);
    let first = world.load(&mut runtime, &plain);
    let second = world.load(&mut runtime, &with_tracing);
    let again = world.load(&mut runtime, &plain);
    assert!(matches!(first, LoadAction::Done { library: 0, newly_loaded: true, .. }));
    assert!(matches!(second, LoadAction::Done { library: 1, newly_loaded: true, .. }));
    assert!(matches!(again, LoadAction::Done { library: 0, newly_loaded: false, .. }));
    assert_eq!(runtime.library_count(), 2);
    assert_eq!(world.compiler_runs, 2);
    assert_eq!(runtime.find_library(&plain.key), Some(0));
    assert_eq!(runtime.find_library(&with_tracing.key), Some(1));
    let unknown = LibraryArenaKey {
        name: "main".to_string(),
        source_path: "src/other.sv".to_string(),
        hash: plain.key.hash,
    };
    assert_eq!(runtime.find_library(&unknown), None);
    assert!(plain.key.same(&plain.key));
    assert!(!plain.key.same(&unknown));
}

#[test]
fn one_time_setup_runs_on_load_only() {
    let dpi = vec![
        DpiFunction::new(
            "three",
            vec![DpiParameter { name: "out".to_string(), c_type: "uint32_t*".to_string() }],
        ),
        DpiFunction::new("tick", vec![]),
    ];
    let mut runtime = runtime_with(dpi, VerilatorRuntimeOptions::default());
    let traced = VerilatedModelConfig {
        verilator_optimization: 1,
        ignored_warnings: vec![],
        enable_tracing: true,
    };
    let load = runtime.prepare_library("main", "src/main.sv", &ports(), &traced).unwrap();
    let mut world = World::new();
    world.load(&mut runtime, &load);
    let calls: Vec<&String> = world.log.iter().filter(|l| l.starts_with("call")).collect();
    assert_eq!(calls, vec!["call dpi_init_callback with 2", "call ffi_Verilated_traceEverOn"]);
    let last_open = world.log.iter().position(|l| l.starts_with("open")).unwrap();
    let first_call = world.log.iter().position(|l| l.starts_with("call")).unwrap();
    assert!(last_open < first_call);
    world.log.clear();
    world.load(&mut runtime, &load);
    assert!(world.log.is_empty());
}

#[test]
fn source_that_was_not_provided_is_refused() {
    let mut runtime = runtime();
    let load = runtime
        .prepare_library("other", "src/other.sv", &ports(), &VerilatedModelConfig::default())
        .unwrap();
    let mut world = World::new();
    match world.load(&mut runtime, &load) {
        LoadAction::Fail { error, release } => {
            assert_eq!(error.kind(), ErrorKind::SourceMissing);
            match error {
                RuntimeError::SourceNotProvided { module, source_path } => {
                    assert_eq!(module, "other");
                    assert_eq!(source_path, "src/other.sv");
                }
                other => panic!("unexpected {:?}", other),
            }
            assert_eq!(release, HeldLocks::Neither);
        }
        other => panic!("unexpected {:?}", other),
    }
    assert!(world.log.is_empty());
}

#[test]
fn failed_build_gives_locks_back_and_leaves_no_entry() {
    let mut runtime = runtime();
    let load = prepare(&runtime);
    let mut world = World::new();
    world.compile_fails = true;
    match world.load(&mut runtime, &load) {
        LoadAction::Fail { error, release } => {
            assert_eq!(error.kind(), ErrorKind::BuildTool);
            assert_eq!(release, HeldLocks::ThreadAndFile);
        }
        other => panic!("unexpected {:?}", other),
    }
    assert_eq!(runtime.library_count(), 0);
    world.compile_fails = false;
    match world.load(&mut runtime, &load) {
        LoadAction::Done { library, newly_loaded, rebuilt, .. } => {
            assert_eq!(library, 0);
            assert!(newly_loaded);
            assert!(rebuilt);
        }
        other => panic!("unexpected {:?}", other),
    }
    assert_eq!(world.compiler_runs, 2);
}

#[test]
fn failures_while_locking_name_what_is_held() {
    let mut runtime = runtime();
    let load = prepare(&runtime);
    let directory = load.build.artifact_directory.clone();
    let (phase, _) = runtime.build_or_retrieve_library(&load, LoadPhase::Start, LoadEvent::Begin);
    let (phase, _) = runtime.build_or_retrieve_library(&load, phase, provided());
    assert_eq!(phase, LoadPhase::CreatingDirectory);
    let (_, action) = runtime.build_or_retrieve_library(
        &load,
        phase,
        LoadEvent::Failed { detail: "denied".to_string() },
    );
    match action {
        LoadAction::Fail { error: RuntimeError::Io { operation, path, detail }, release } => {
            assert_eq!(operation, IoOperation::CreateDirectory);
            assert_eq!(path, directory);
            assert_eq!(detail, "denied");
            assert_eq!(release, HeldLocks::Neither);
        }
        other => panic!("unexpected {:?}", other),
    }
    let (phase, action) =
        runtime.build_or_retrieve_library(&load, LoadPhase::CreatingDirectory, LoadEvent::Completed);
    assert!(matches!(action, LoadAction::LockThread { .. }));
    let (_, action) = runtime.build_or_retrieve_library(
        &load,
        phase,
        LoadEvent::Failed { detail: "poisoned".to_string() },
    );
    match action {
        LoadAction::Fail { error, release } => {
            assert_eq!(error.kind(), ErrorKind::LockAcquisition);
            assert_eq!(release, HeldLocks::Neither);
        }
        other => panic!("unexpected {:?}", other),
    }
    let (phase, action) =
        runtime.build_or_retrieve_library(&load, LoadPhase::LockingThread, LoadEvent::Completed);
    match &action {
        LoadAction::LockFile { path } => assert_eq!(
            path,
            &format!("{}/{}.lock", directory, directory.strip_prefix("artifacts/").unwrap())
        ),
        other => panic!("unexpected {:?}", other),
    }
    assert_eq!(phase.locks(), HeldLocks::Thread);
    let (_, action) = runtime.build_or_retrieve_library(
        &load,
        phase,
        LoadEvent::Failed { detail: "would block".to_string() },
    );
    match action {
        LoadAction::Fail { error: RuntimeError::LockAcquisition { path, detail }, release } => {
            assert_eq!(
                path,
                format!("{}/{}.lock", directory, directory.strip_prefix("artifacts/").unwrap())
            );
            assert_eq!(detail, "would block");
            assert_eq!(release, HeldLocks::Thread);
        }
        other => panic!("unexpected {:?}", other),
    }
}

#[test]
fn failures_after_the_build_give_both_locks_back() {
    let mut runtime = runtime_with(
        vec![DpiFunction::new("tick", vec![])],
        VerilatorRuntimeOptions::default(),
    );
    let load = prepare(&runtime);
    let (_, action) = runtime.build_or_retrieve_library(
        &load,
        LoadPhase::Opening { rebuilt: true },
        LoadEvent::Failed { detail: "cannot open".to_string() },
    );
    match action {
        LoadAction::Fail { error: RuntimeError::Io { operation, path, .. }, release } => {
            assert_eq!(operation, IoOperation::OpenLibrary);
            assert_eq!(path, format!("{}/obj_dir/libmarlin_Vmain.so", load.build.artifact_directory));
            assert_eq!(release, HeldLocks::ThreadAndFile);
        }
        other => panic!("unexpected {:?}", other),
    }
    let (phase, action) = runtime.build_or_retrieve_library(
        &load,
        LoadPhase::Opening { rebuilt: true },
        LoadEvent::Completed,
    );
    assert_eq!(phase, LoadPhase::InitializingCallbacks { rebuilt: true });
    assert!(matches!(
        action,
        LoadAction::Call { call: NativeCall::InitializeCallbacks { count: 1, .. } }
    ));
    let (_, action) = runtime.build_or_retrieve_library(
        &load,
        phase,
        LoadEvent::Failed { detail: "undefined symbol".to_string() },
    );
    match action {
        LoadAction::Fail {
            error: RuntimeError::SymbolResolution { module, symbol, detail },
            release,
        } => {
            assert_eq!(module, "main");
            assert_eq!(symbol, "dpi_init_callback");
            assert_eq!(detail, "undefined symbol");
            assert_eq!(release, HeldLocks::ThreadAndFile);
        }
        other => panic!("unexpected {:?}", other),
    }
    assert_eq!(runtime.library_count(), 0);
    let (_, action) =
        runtime.build_or_retrieve_library(&load, LoadPhase::Finished, LoadEvent::Completed);
    assert!(matches!(
        action,
        LoadAction::Fail { error: RuntimeError::UnexpectedEvent, release: HeldLocks::Neither }
    ));
    let (_, action) = runtime.build_or_retrieve_library(
        &load,
        LoadPhase::Building { build: marlin::build_library::BuildPhase::Compiling },
        LoadEvent::Completed,
    );
    assert!(matches!(
        action,
        LoadAction::Fail {
            error: RuntimeError::UnexpectedEvent,
            release: HeldLocks::ThreadAndFile
        }
    ));
}

#[test]
fn source_is_provided_when_canonical_paths_agree() {
    let files = vec![None, Some("/p/src/main.sv".to_string()), Some("/p/src/util.sv".to_string())];
    assert!(is_source_provided(&files, &Some("/p/src/util.sv".to_string())));
    assert!(is_source_provided(&files, &Some("/p/src/main.sv".to_string())));
    assert!(!is_source_provided(&files, &Some("/p/src/other.sv".to_string())));
    assert!(!is_source_provided(&files, &None));
    assert!(!is_source_provided(&vec![None], &None));
    assert!(!is_source_provided(&vec![], &Some("/p/src/main.sv".to_string())));
    let mut runtime = runtime();
    let relative = runtime
        .prepare_library("main", "./src/main.sv", &ports(), &VerilatedModelConfig::default())
        .unwrap();
    let mut world = World::new();
    assert!(matches!(world.load(&mut runtime, &relative), LoadAction::Done { .. }));
    let nowhere = runtime
        .prepare_library("main", "nowhere/main.sv", &ports(), &VerilatedModelConfig::default())
        .unwrap();
    assert!(matches!(
        world.load(&mut runtime, &nowhere),
        LoadAction::Fail { error: RuntimeError::SourceNotProvided { .. }, .. }
    ));
}

#[test]
fn progress_notices() {
    let runtime = runtime();
    let load = prepare(&runtime);
    assert_eq!(compiling_notice(&load), format!("main#{} (src/main.sv)", load.key.hash));
    let plain = VerilatedModelConfig::default();
    let fast = VerilatedModelConfig {
        verilator_optimization: 3,
        ignored_warnings: vec![],
        enable_tracing: false,
    };
    assert_eq!(profile_name(&plain), "unoptimized");
    assert_eq!(profile_name(&fast), "O3");
    assert_eq!(finished_notice(&plain, 0, 0), "`verilator-unoptimized` profile target in 0.00s");
    assert_eq!(finished_notice(&plain, 12, 57), "`verilator-unoptimized` profile target in 12.05s");
    assert_eq!(finished_notice(&fast, 3, 999), "`verilator-O3` profile target in 3.99s");
    assert_eq!(finished_notice(&fast, 3, 100), "`verilator-O3` profile target in 3.10s");
}

#[test]
fn same_module_in_different_files_is_kept_apart() {
    let mut runtime = VerilatorRuntime::new(
        "artifacts",
        &vec![source("a/_b.sv", true), source("a_/b.sv", true)],
        &vec![],
        vec![],
        VerilatorRuntimeOptions::default(),
    )
    .unwrap();
    let config = VerilatedModelConfig::default();
    let first = runtime.prepare_library("main", "a/_b.sv", &ports(), &config).unwrap();
    let second = runtime.prepare_library("main", "a_/b.sv", &ports(), &config).unwrap();
    assert_eq!(first.key.hash, second.key.hash);
    assert_ne!(first.build.artifact_directory, second.build.artifact_directory);
    let mut world = World::new();
    let one = world.load(&mut runtime, &first);
    let two = world.load(&mut runtime, &second);
    assert!(matches!(one, LoadAction::Done { library: 0, newly_loaded: true, .. }));
    assert!(matches!(two, LoadAction::Done { library: 1, newly_loaded: true, .. }));
    let locks: Vec<&String> = world.log.iter().filter(|l| l.starts_with("lock file")).collect();
    assert_eq!(locks.len(), 2);
    assert_ne!(locks[0], locks[1]);
    assert_eq!(world.compiler_runs, 2);
    runtime.libraries_are_distinct();
    assert_eq!(runtime.library_count(), 2);
}
