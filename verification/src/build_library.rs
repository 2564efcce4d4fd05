//! Building the shared library of one model. The work on the file system
//! and the run of the compiler are done by a driver; what is decided here
//! is which step comes next and what it is given.
//!
//! The artifact directory holds three directories: `ffi/` for the glue
//! source, `obj_dir/` for what the compiler writes, and `dpi/` for the
//! callback glue. A build is not safe to run twice at once in one
//! directory: the directory must be guarded.

use crate::config::{
    VerilatedModelConfig, VerilatedModelConfigView, VerilatorRuntimeOptions,
    VerilatorRuntimeOptionsView,
};
use crate::dpi::{
    bind_dpi_if_needed, spec_bind_dpi, DpiBinding, DpiBindingView, DpiFunction, DpiFunctionView,
};
use crate::error::{IoOperation, RuntimeError, RuntimeErrorView};
use crate::freshness::{needs_verilator_rebuild, spec_needs_rebuild, Probe, ProbeView};
use crate::glue::{build_ffi, ffi_text};
use crate::paths::{
    dpi_directory, dpi_file, ffi_directory, ffi_file, library_name, library_path,
    object_directory, spec_dpi_directory, spec_dpi_file, spec_ffi_directory, spec_ffi_file,
    spec_library_name, spec_library_path, spec_object_directory,
};
use crate::port::{PortDescriptor, PortDescriptorView};
use crate::signature::{ports_error, validate_ports};
use crate::text::{decimal, decimal_string, push_text};
use vstd::prelude::*;
use vstd::string::*;

verus! {

/// Everything that a build is made from.
#[derive(Debug, Clone)]
pub struct BuildRequest {
    /// The hardware sources, all of which are handed to the compiler.
    pub source_files: Vec<String>,
    /// Where the compiler looks for included files.
    pub include_directories: Vec<String>,
    /// The host functions that the model may call.
    pub dpi_functions: Vec<DpiFunction>,
    /// The name of the module that is the root of the simulation.
    pub top_module: String,
    /// The ports of the module that the host wants to reach.
    pub ports: Vec<PortDescriptor>,
    /// The directory that holds the artifacts of this signature.
    pub artifact_directory: String,
    /// The settings of the runtime.
    pub options: VerilatorRuntimeOptions,
    /// The settings of the model.
    pub config: VerilatedModelConfig,
}

/// What a [`BuildRequest`] holds.
pub ghost struct BuildRequestView {
    pub source_files: Seq<Seq<char>>,
    pub include_directories: Seq<Seq<char>>,
    pub dpi_functions: Seq<DpiFunctionView>,
    pub top_module: Seq<char>,
    pub ports: Seq<PortDescriptorView>,
    pub artifact_directory: Seq<char>,
    pub options: VerilatorRuntimeOptionsView,
    pub config: VerilatedModelConfigView,
}

impl View for BuildRequest {
    type V = BuildRequestView;

    open spec fn view(&self) -> BuildRequestView {
        BuildRequestView {
            source_files: self.source_files.deep_view(),
            include_directories: self.include_directories.deep_view(),
            dpi_functions: self.dpi_functions.deep_view(),
            top_module: self.top_module@,
            ports: self.ports.deep_view(),
            artifact_directory: self.artifact_directory@,
            options: self.options@,
            config: self.config@,
        }
    }
}

/// How far a build has come: what the driver was last asked to do.
#[derive(Debug, Clone, Copy, PartialEq, Eq, Structural)]
pub enum BuildPhase {
    /// Nothing was asked yet.
    Start,
    /// The directory of the glue source is being created.
    CreatingFfiDirectory,
    /// The directory of the callback glue is being created.
    CreatingDpiDirectory,
    /// The callback glue on disk is being read.
    ReadingDpi,
    /// The callback glue is being written.
    WritingDpi,
    /// The modification times are being asked for.
    Probing { dpi_rebuilt: bool },
    /// The user is being told that a compilation starts.
    Announcing,
    /// The glue source is being written.
    WritingFfi,
    /// The compiler is running.
    Compiling,
    /// The build has ended, well or not.
    Finished,
}

/// What the driver reports back.
#[derive(Debug, Clone)]
pub enum BuildEvent {
    /// The build is to start.
    Begin,
    /// The step that was asked for is done.
    Completed,
    /// The step that was asked for failed.
    Failed { detail: String },
    /// The text of the file that was to be read, or `None` where it could
    /// not be read.
    Text { contents: Option<String> },
    /// The modification times that were asked for, the sources in the
    /// order in which they were named.
    Modified { library: Probe, sources: Vec<Probe> },
    /// The compiler has exited.
    Exited { success: bool, status: String, stdout: String, stderr: String },
}

/// What a [`BuildEvent`] holds.
pub ghost enum BuildEventView {
    Begin,
    Completed,
    Failed { detail: Seq<char> },
    Text { contents: Option<Seq<char>> },
    Modified { library: ProbeView, sources: Seq<ProbeView> },
    Exited { success: bool, status: Seq<char>, stdout: Seq<char>, stderr: Seq<char> },
}

impl View for BuildEvent {
    type V = BuildEventView;

    open spec fn view(&self) -> BuildEventView {
        match self {
            BuildEvent::Begin => BuildEventView::Begin,
            BuildEvent::Completed => BuildEventView::Completed,
            BuildEvent::Failed { detail } => BuildEventView::Failed { detail: detail@ },
            BuildEvent::Text { contents } => BuildEventView::Text {
                contents: match contents {
                    Some(text) => Some(text@),
                    None => None,
                },
            },
            BuildEvent::Modified { library, sources } => BuildEventView::Modified {
                library: library@,
                sources: sources.deep_view(),
            },
            BuildEvent::Exited { success, status, stdout, stderr } => BuildEventView::Exited {
                success: *success,
                status: status@,
                stdout: stdout@,
                stderr: stderr@,
            },
        }
    }
}

/// What the driver is asked to do next.
#[derive(Debug, Clone)]
pub enum BuildAction {
    /// Create the directory and what is missing above it.
    CreateDirectory { path: String },
    /// Read the file as text.
    ReadText { path: String },
    /// Write the text to the file, replacing what it held.
    WriteText { path: String, contents: String },
    /// Ask for the modification times of the library and of the sources.
    ProbeModified { library: String, sources: Vec<String> },
    /// Tell the user that the model is about to be compiled.
    Announce,
    /// Run the compiler and wait for it.
    RunCompiler { program: String, arguments: Vec<String> },
    /// The library is at `library_path`; `rebuilt` tells whether the
    /// compiler ran for it.
    Done { library_path: String, rebuilt: bool },
    /// The build has failed.
    Fail { error: RuntimeError },
}

/// What a [`BuildAction`] holds.
pub ghost enum BuildActionView {
    CreateDirectory { path: Seq<char> },
    ReadText { path: Seq<char> },
    WriteText { path: Seq<char>, contents: Seq<char> },
    ProbeModified { library: Seq<char>, sources: Seq<Seq<char>> },
    Announce,
    RunCompiler { program: Seq<char>, arguments: Seq<Seq<char>> },
    Done { library_path: Seq<char>, rebuilt: bool },
    Fail { error: RuntimeErrorView },
}

impl View for BuildAction {
    type V = BuildActionView;

    open spec fn view(&self) -> BuildActionView {
        match self {
            BuildAction::CreateDirectory { path } => BuildActionView::CreateDirectory {
                path: path@,
            },
            BuildAction::ReadText { path } => BuildActionView::ReadText { path: path@ },
            BuildAction::WriteText { path, contents } => BuildActionView::WriteText {
                path: path@,
                contents: contents@,
            },
            BuildAction::ProbeModified { library, sources } => BuildActionView::ProbeModified {
                library: library@,
                sources: sources.deep_view(),
            },
            BuildAction::Announce => BuildActionView::Announce,
            BuildAction::RunCompiler { program, arguments } => BuildActionView::RunCompiler {
                program: program@,
                arguments: arguments.deep_view(),
            },
            BuildAction::Done { library_path, rebuilt } => BuildActionView::Done {
                library_path: library_path@,
                rebuilt: *rebuilt,
            },
            BuildAction::Fail { error } => BuildActionView::Fail { error: error@ },
        }
    }
}

/// The glue source as the compiler is told of it: relative to its output
/// directory.
pub open spec fn relative_ffi_file() -> Seq<char> {
    "../ffi/ffi.cpp"@
}

/// The callback glue as the compiler is told of it.
pub open spec fn relative_dpi_file() -> Seq<char> {
    "../dpi/dpi.cpp"@
}

/// Each text of `texts` behind `prefix`.
pub open spec fn prefixed(prefix: Seq<char>, texts: Seq<Seq<char>>) -> Seq<Seq<char>> {
    Seq::new(texts.len(), |i: int| prefix + texts[i])
}

impl BuildRequestView {
    /// What is wrong with the request, if anything: a port that cannot be
    /// carried, or an optimization level above 3.
    pub open spec fn error(self) -> Option<RuntimeErrorView> {
        if ports_error(self.top_module, self.ports) is Some {
            ports_error(self.top_module, self.ports)
        } else if self.config.verilator_optimization > 3 {
            Some(
                RuntimeErrorView::InvalidOptimizationLevel {
                    level: self.config.verilator_optimization,
                },
            )
        } else {
            None
        }
    }

    /// The library that the build leaves.
    pub open spec fn library_path(self) -> Seq<char> {
        spec_library_path(self.artifact_directory, self.top_module)
    }

    /// The arguments that never change: a C++ model, built at once into a
    /// shared library of the given name, in the output directory, with the
    /// given top module.
    pub open spec fn fixed_arguments(self) -> Seq<Seq<char>> {
        seq![
            "--cc"@,
            "-sv"@,
            "-j"@,
            "0"@,
            "--build"@,
            "-CFLAGS"@,
            "-shared -fpic"@,
            "--lib-create"@,
            spec_library_name(self.top_module),
            "--Mdir"@,
            spec_object_directory(self.artifact_directory),
            "--top-module"@,
            self.top_module,
        ]
    }

    /// The callback glue, where there are callbacks.
    pub open spec fn dpi_arguments(self) -> Seq<Seq<char>> {
        if self.dpi_functions.len() > 0 {
            seq![relative_dpi_file()]
        } else {
            Seq::empty()
        }
    }

    /// The optimization flag, where a level is asked for.
    pub open spec fn optimization_arguments(self) -> Seq<Seq<char>> {
        if self.config.verilator_optimization != 0 {
            seq!["-O"@ + decimal(self.config.verilator_optimization as nat)]
        } else {
            Seq::empty()
        }
    }

    /// The tracing flag, where tracing is asked for.
    pub open spec fn tracing_arguments(self) -> Seq<Seq<char>> {
        if self.config.enable_tracing {
            seq!["--trace"@]
        } else {
            Seq::empty()
        }
    }

    /// The command line of the compiler: the fixed arguments, the sources,
    /// the glue source, the include directories, the callback glue, the
    /// optimization level, the ignored warnings and the tracing flag.
    pub open spec fn compiler_arguments(self) -> Seq<Seq<char>> {
        self.fixed_arguments() + self.source_files + seq![relative_ffi_file()] + prefixed(
            "-I"@,
            self.include_directories,
        ) + self.dpi_arguments() + self.optimization_arguments() + prefixed(
            "-Wno-"@,
            self.config.ignored_warnings,
        ) + self.tracing_arguments()
    }

    /// What follows once the callback glue is settled: with a forced
    /// rebuild the compilation is announced at once; otherwise the
    /// modification times are asked for.
    pub open spec fn after_dpi(self, dpi_rebuilt: bool) -> (BuildPhase, BuildActionView) {
        if self.options.force_verilator_rebuild {
            (BuildPhase::Announcing, BuildActionView::Announce)
        } else {
            (
                BuildPhase::Probing { dpi_rebuilt },
                BuildActionView::ProbeModified {
                    library: self.library_path(),
                    sources: self.source_files,
                },
            )
        }
    }

    /// What follows once the modification times are known.
    pub open spec fn after_probe(
        self,
        dpi_rebuilt: bool,
        library: ProbeView,
        sources: Seq<ProbeView>,
    ) -> (BuildPhase, BuildActionView) {
        if sources.len() != self.source_files.len() {
            unexpected()
        } else {
            match spec_needs_rebuild(self.source_files, sources, self.library_path(), library) {
                Err(error) => failed(error),
                Ok(stale) => if stale || dpi_rebuilt {
                    (BuildPhase::Announcing, BuildActionView::Announce)
                } else {
                    (
                        BuildPhase::Finished,
                        BuildActionView::Done { library_path: self.library_path(), rebuilt: false },
                    )
                },
            }
        }
    }

    /// What follows once the compilation is announced: the glue source is
    /// written.
    pub open spec fn after_announcement(self) -> (BuildPhase, BuildActionView) {
        match ports_error(self.top_module, self.ports) {
            Some(error) => failed(error),
            None => (
                BuildPhase::WritingFfi,
                BuildActionView::WriteText {
                    path: spec_ffi_file(self.artifact_directory),
                    contents: ffi_text(self.top_module, self.ports, self.config.enable_tracing),
                },
            ),
        }
    }
}

/// The build ends with `error`.
pub open spec fn failed(error: RuntimeErrorView) -> (BuildPhase, BuildActionView) {
    (BuildPhase::Finished, BuildActionView::Fail { error })
}

/// The build ends because the driver reported what was not asked for.
pub open spec fn unexpected() -> (BuildPhase, BuildActionView) {
    failed(RuntimeErrorView::UnexpectedEvent)
}

/// The build ends because the step on `path` failed with `detail`.
pub open spec fn io_failed(operation: IoOperation, path: Seq<char>, detail: Seq<char>) -> (
    BuildPhase,
    BuildActionView,
) {
    failed(RuntimeErrorView::Io { operation, path, detail })
}

/// One step of a build: from how far it has come and what the driver
/// reports, to how far it then is and what the driver is asked next.
pub open spec fn build_step(request: BuildRequestView, phase: BuildPhase, event: BuildEventView) -> (
    BuildPhase,
    BuildActionView,
) {
    match phase {
        BuildPhase::Start => match event {
            BuildEventView::Begin => match request.error() {
                Some(error) => failed(error),
                None => (
                    BuildPhase::CreatingFfiDirectory,
                    BuildActionView::CreateDirectory {
                        path: spec_ffi_directory(request.artifact_directory),
                    },
                ),
            },
            _ => unexpected(),
        },
        BuildPhase::CreatingFfiDirectory => match event {
            BuildEventView::Completed => (
                BuildPhase::CreatingDpiDirectory,
                BuildActionView::CreateDirectory {
                    path: spec_dpi_directory(request.artifact_directory),
                },
            ),
            BuildEventView::Failed { detail } => io_failed(
                IoOperation::CreateDirectory,
                spec_ffi_directory(request.artifact_directory),
                detail,
            ),
            _ => unexpected(),
        },
        BuildPhase::CreatingDpiDirectory => match event {
            BuildEventView::Completed => if request.dpi_functions.len() == 0 {
                request.after_dpi(false)
            } else {
                (
                    BuildPhase::ReadingDpi,
                    BuildActionView::ReadText { path: spec_dpi_file(request.artifact_directory) },
                )
            },
            BuildEventView::Failed { detail } => io_failed(
                IoOperation::CreateDirectory,
                spec_dpi_directory(request.artifact_directory),
                detail,
            ),
            _ => unexpected(),
        },
        BuildPhase::ReadingDpi => match event {
            BuildEventView::Text { contents } => match spec_bind_dpi(
                request.top_module,
                request.dpi_functions,
                contents,
            ) {
                DpiBindingView::Regenerate { code } => (
                    BuildPhase::WritingDpi,
                    BuildActionView::WriteText {
                        path: spec_dpi_file(request.artifact_directory),
                        contents: code,
                    },
                ),
                _ => request.after_dpi(false),
            },
            _ => unexpected(),
        },
        BuildPhase::WritingDpi => match event {
            BuildEventView::Completed => request.after_dpi(true),
            BuildEventView::Failed { detail } => io_failed(
                IoOperation::WriteFile,
                spec_dpi_file(request.artifact_directory),
                detail,
            ),
            _ => unexpected(),
        },
        BuildPhase::Probing { dpi_rebuilt } => match event {
            BuildEventView::Modified { library, sources } => request.after_probe(
                dpi_rebuilt,
                library,
                sources,
            ),
            _ => unexpected(),
        },
        BuildPhase::Announcing => match event {
            BuildEventView::Completed => request.after_announcement(),
            BuildEventView::Failed { detail } => io_failed(
                IoOperation::WriteFile,
                "stderr"@,
                detail,
            ),
            _ => unexpected(),
        },
        BuildPhase::WritingFfi => match event {
            BuildEventView::Completed => (
                BuildPhase::Compiling,
                BuildActionView::RunCompiler {
                    program: request.options.verilator_executable,
                    arguments: request.compiler_arguments(),
                },
            ),
            BuildEventView::Failed { detail } => io_failed(
                IoOperation::WriteFile,
                spec_ffi_file(request.artifact_directory),
                detail,
            ),
            _ => unexpected(),
        },
        BuildPhase::Compiling => match event {
            BuildEventView::Exited { success, status, stdout, stderr } => if success {
                (
                    BuildPhase::Finished,
                    BuildActionView::Done { library_path: request.library_path(), rebuilt: true },
                )
            } else {
                failed(RuntimeErrorView::BuildTool { status, stdout, stderr })
            },
            BuildEventView::Failed { detail } => io_failed(
                IoOperation::RunCompiler,
                request.options.verilator_executable,
                detail,
            ),
            _ => unexpected(),
        },
        BuildPhase::Finished => unexpected(),
    }
}

/// Appends a copy of each text of `texts` to `list`.
pub fn push_texts(list: &mut Vec<String>, texts: &Vec<String>)
    ensures
        final(list).deep_view() == old(list).deep_view() + texts.deep_view(),
{
    let ghost before = list.deep_view();
    let ghost added = texts.deep_view();
    let mut i: usize = 0;
    while i < texts.len()
        invariant
            i <= texts.len(),
            added == texts.deep_view(),
            list.deep_view() == before + added.take(i as int),
        decreases texts.len() - i,
    {
        assert(added[i as int] == texts[i as int]@);
        push_text(list, texts[i].clone());
        assert(list.deep_view() =~= before + added.take(i + 1));
        i = i + 1;
    }
    assert(added.take(texts.len() as int) =~= added);
}

/// Appends each text of `texts`, behind `prefix`, to `list`.
pub fn push_prefixed(list: &mut Vec<String>, prefix: &str, texts: &Vec<String>)
    ensures
        final(list).deep_view() == old(list).deep_view() + prefixed(prefix@, texts.deep_view()),
{
    let ghost before = list.deep_view();
    let ghost added = prefixed(prefix@, texts.deep_view());
    let mut i: usize = 0;
    while i < texts.len()
        invariant
            i <= texts.len(),
            added == prefixed(prefix@, texts.deep_view()),
            list.deep_view() == before + added.take(i as int),
        decreases texts.len() - i,
    {
        assert(texts.deep_view()[i as int] == texts[i as int]@);
        let mut flag = prefix.to_owned();
        flag.append(texts[i].as_str());
        push_text(list, flag);
        assert(list.deep_view() =~= before + added.take(i + 1));
        i = i + 1;
    }
    assert(added.take(texts.len() as int) =~= added);
}

impl BuildRequest {
    /// Checks the ports and the optimization level.
    pub fn validate(&self) -> (outcome: Result<(), RuntimeError>)
        ensures
            outcome is Ok <==> self@.error() is None,
            outcome matches Err(e) ==> Some(e@) == self@.error(),
    {
        match validate_ports(self.top_module.as_str(), &self.ports) {
            Err(e) => {
                return Err(e);
            },
            Ok(()) => {},
        }
        if self.config.verilator_optimization > 3 {
            return Err(
                RuntimeError::InvalidOptimizationLevel { level: self.config.verilator_optimization },
            );
        }
        Ok(())
    }

    /// Builds the command line of the compiler.
    pub fn compiler_arguments(&self) -> (arguments: Vec<String>)
        ensures
            arguments.deep_view() == self@.compiler_arguments(),
    {
        let mut arguments: Vec<String> = Vec::new();
        assert(arguments.deep_view() =~= Seq::<Seq<char>>::empty());
        push_text(&mut arguments, "--cc".to_owned());
        push_text(&mut arguments, "-sv".to_owned());
        push_text(&mut arguments, "-j".to_owned());
        push_text(&mut arguments, "0".to_owned());
        push_text(&mut arguments, "--build".to_owned());
        push_text(&mut arguments, "-CFLAGS".to_owned());
        push_text(&mut arguments, "-shared -fpic".to_owned());
        push_text(&mut arguments, "--lib-create".to_owned());
        push_text(&mut arguments, library_name(self.top_module.as_str()));
        push_text(&mut arguments, "--Mdir".to_owned());
        push_text(&mut arguments, object_directory(self.artifact_directory.as_str()));
        push_text(&mut arguments, "--top-module".to_owned());
        push_text(&mut arguments, self.top_module.clone());
        assert(arguments.deep_view() =~= self@.fixed_arguments());
        push_texts(&mut arguments, &self.source_files);
        push_text(&mut arguments, "../ffi/ffi.cpp".to_owned());
        push_prefixed(&mut arguments, "-I", &self.include_directories);
        let ghost first = self@.fixed_arguments() + self@.source_files + seq![relative_ffi_file()]
            + prefixed("-I"@, self@.include_directories);
        assert(arguments.deep_view() =~= first);
        if self.dpi_functions.len() > 0 {
            push_text(&mut arguments, "../dpi/dpi.cpp".to_owned());
        }
        assert(arguments.deep_view() =~= first + self@.dpi_arguments());
        if self.config.verilator_optimization != 0 {
            let mut flag = "-O".to_owned();
            let level = decimal_string(self.config.verilator_optimization as u64);
            flag.append(level.as_str());
            push_text(&mut arguments, flag);
        }
        let ghost second = first + self@.dpi_arguments() + self@.optimization_arguments();
        assert(arguments.deep_view() =~= second);
        push_prefixed(&mut arguments, "-Wno-", &self.config.ignored_warnings);
        if self.config.enable_tracing {
            push_text(&mut arguments, "--trace".to_owned());
        }
        assert(arguments.deep_view() =~= second + prefixed(
            "-Wno-"@,
            self@.config.ignored_warnings,
        ) + self@.tracing_arguments());
        arguments
    }

    fn after_dpi(&self, dpi_rebuilt: bool) -> (step: (BuildPhase, BuildAction))
        ensures
            (step.0, step.1@) == self@.after_dpi(dpi_rebuilt),
    {
        if self.options.force_verilator_rebuild {
            (BuildPhase::Announcing, BuildAction::Announce)
        } else {
            (
                BuildPhase::Probing { dpi_rebuilt },
                BuildAction::ProbeModified {
                    library: library_path(
                        self.artifact_directory.as_str(),
                        self.top_module.as_str(),
                    ),
                    sources: self.source_files.clone(),
                },
            )
        }
    }

    fn after_probe(&self, dpi_rebuilt: bool, library: &Probe, sources: &Vec<Probe>) -> (step: (
        BuildPhase,
        BuildAction,
    ))
        ensures
            (step.0, step.1@) == self@.after_probe(dpi_rebuilt, library@, sources.deep_view()),
    {
        if sources.len() != self.source_files.len() {
            return (BuildPhase::Finished, BuildAction::Fail { error: RuntimeError::UnexpectedEvent });
        }
        let path = library_path(self.artifact_directory.as_str(), self.top_module.as_str());
        match needs_verilator_rebuild(&self.source_files, sources, path.as_str(), library) {
            Err(error) => (BuildPhase::Finished, BuildAction::Fail { error }),
            Ok(stale) => {
                if stale || dpi_rebuilt {
                    (BuildPhase::Announcing, BuildAction::Announce)
                } else {
                    (BuildPhase::Finished, BuildAction::Done { library_path: path, rebuilt: false })
                }
            },
        }
    }

    fn after_announcement(&self) -> (step: (BuildPhase, BuildAction))
        ensures
            (step.0, step.1@) == self@.after_announcement(),
    {
        match build_ffi(self.top_module.as_str(), &self.ports, self.config.enable_tracing) {
            Err(error) => (BuildPhase::Finished, BuildAction::Fail { error }),
            Ok(contents) => (
                BuildPhase::WritingFfi,
                BuildAction::WriteText {
                    path: ffi_file(self.artifact_directory.as_str()),
                    contents,
                },
            ),
        }
    }
}

fn fail_unexpected() -> (step: (BuildPhase, BuildAction))
    ensures
        (step.0, step.1@) == unexpected(),
{
    (BuildPhase::Finished, BuildAction::Fail { error: RuntimeError::UnexpectedEvent })
}

fn fail_io(operation: IoOperation, path: String, detail: String) -> (step: (
    BuildPhase,
    BuildAction,
))
    ensures
        (step.0, step.1@) == io_failed(operation, path@, detail@),
{
    (BuildPhase::Finished, BuildAction::Fail { error: RuntimeError::Io { operation, path, detail } })
}

/// Takes a build one step further. The driver starts with
/// [`BuildPhase::Start`] and [`BuildEvent::Begin`], does what it is asked,
/// and comes back with the phase it was given and the outcome, until it is
/// handed [`BuildAction::Done`] or [`BuildAction::Fail`].
///
/// The request is checked before anything is touched. The callback glue is
/// written only where its text differs from what is on disk. The compiler
/// runs where a rebuild is forced, the library is missing, a source is
/// newer than the library, or the callback glue was written; and then the
/// glue source is written first. On a failure of the compiler, what it
/// printed is part of the error as it came.
pub fn build_library(request: &BuildRequest, phase: BuildPhase, event: BuildEvent) -> (step: (
    BuildPhase,
    BuildAction,
))
    ensures
        (step.0, step.1@) == build_step(request@, phase, event@),
{
    let artifacts = request.artifact_directory.as_str();
    match phase {
        BuildPhase::Start => match event {
            BuildEvent::Begin => match request.validate() {
                Err(error) => (BuildPhase::Finished, BuildAction::Fail { error }),
                Ok(()) => (
                    BuildPhase::CreatingFfiDirectory,
                    BuildAction::CreateDirectory { path: ffi_directory(artifacts) },
                ),
            },
            _ => fail_unexpected(),
        },
        BuildPhase::CreatingFfiDirectory => match event {
            BuildEvent::Completed => (
                BuildPhase::CreatingDpiDirectory,
                BuildAction::CreateDirectory { path: dpi_directory(artifacts) },
            ),
            BuildEvent::Failed { detail } => fail_io(
                IoOperation::CreateDirectory,
                ffi_directory(artifacts),
                detail,
            ),
            _ => fail_unexpected(),
        },
        BuildPhase::CreatingDpiDirectory => match event {
            BuildEvent::Completed => {
                if request.dpi_functions.len() == 0 {
                    request.after_dpi(false)
                } else {
                    (BuildPhase::ReadingDpi, BuildAction::ReadText { path: dpi_file(artifacts) })
                }
            },
            BuildEvent::Failed { detail } => fail_io(
                IoOperation::CreateDirectory,
                dpi_directory(artifacts),
                detail,
            ),
            _ => fail_unexpected(),
        },
        BuildPhase::ReadingDpi => match event {
            BuildEvent::Text { contents } => {
                match bind_dpi_if_needed(
                    request.top_module.as_str(),
                    &request.dpi_functions,
                    &contents,
                ) {
                    DpiBinding::Regenerate { code } => (
                        BuildPhase::WritingDpi,
                        BuildAction::WriteText { path: dpi_file(artifacts), contents: code },
                    ),
                    _ => request.after_dpi(false),
                }
            },
            _ => fail_unexpected(),
        },
        BuildPhase::WritingDpi => match event {
            BuildEvent::Completed => request.after_dpi(true),
            BuildEvent::Failed { detail } => fail_io(
                IoOperation::WriteFile,
                dpi_file(artifacts),
                detail,
            ),
            _ => fail_unexpected(),
        },
        BuildPhase::Probing { dpi_rebuilt } => match event {
            BuildEvent::Modified { library, sources } => request.after_probe(
                dpi_rebuilt,
                &library,
                &sources,
            ),
            _ => fail_unexpected(),
        },
        BuildPhase::Announcing => match event {
            BuildEvent::Completed => request.after_announcement(),
            BuildEvent::Failed { detail } => fail_io(
                IoOperation::WriteFile,
                "stderr".to_owned(),
                detail,
            ),
            _ => fail_unexpected(),
        },
        BuildPhase::WritingFfi => match event {
            BuildEvent::Completed => (
                BuildPhase::Compiling,
                BuildAction::RunCompiler {
                    program: request.options.verilator_executable.clone(),
                    arguments: request.compiler_arguments(),
                },
            ),
            BuildEvent::Failed { detail } => fail_io(
                IoOperation::WriteFile,
                ffi_file(artifacts),
                detail,
            ),
            _ => fail_unexpected(),
        },
        BuildPhase::Compiling => match event {
            BuildEvent::Exited { success, status, stdout, stderr } => {
                if success {
                    (
                        BuildPhase::Finished,
                        BuildAction::Done {
                            library_path: library_path(artifacts, request.top_module.as_str()),
                            rebuilt: true,
                        },
                    )
                } else {
                    (
                        BuildPhase::Finished,
                        BuildAction::Fail {
                            error: RuntimeError::BuildTool { status, stdout, stderr },
                        },
                    )
                }
            },
            BuildEvent::Failed { detail } => fail_io(
                IoOperation::RunCompiler,
                request.options.verilator_executable.clone(),
                detail,
            ),
            _ => fail_unexpected(),
        },
        BuildPhase::Finished => fail_unexpected(),
    }
}

} // verus!
