//! The runtime: which libraries are loaded, how a library that is not yet
//! loaded comes to be, and which native instances are still alive.
//!
//! Loading is driven from outside. The runtime says what is to be done
//! next: take a lock, do a step of the build, open the library, initialize
//! it. Whoever drives it does so and reports back.

use crate::build_library::{
    build_library, build_step, BuildAction, BuildActionView, BuildEvent, BuildEventView,
    BuildPhase, BuildRequest, BuildRequestView,
};
use crate::config::{
    VerilatedModelConfig, VerilatedModelConfigView, VerilatorRuntimeOptions,
    VerilatorRuntimeOptionsView,
};
use crate::dpi::{duplicate_functions, DpiFunction, DpiFunctionView};
use crate::dynamic::{port_table, DynamicVerilatedModel, DynamicVerilatedModelView};
use crate::model::{
    clock_index, required_symbols, spec_required_symbols, zero_values, VerilatedModel,
    VerilatedModelView,
};
use crate::error::{IoOperation, RuntimeError, RuntimeErrorView};
use crate::ledger::{
    destroy_calls, first_entry, DeallocationLedger, DeallocatorView, PlacedCall,
};
use crate::native::{NativeCall, NativeCallView};
use crate::paths::{join_path, joined_path, library_path, lock_file, spec_lock_file};
use crate::port::{duplicate_ports, PortDescriptor, PortDescriptorView};
use crate::signature::{
    artifact_directory_name, cache_key, signature_error, spec_artifact_directory_name,
    spec_cache_key, validate_signature,
};
use crate::symbols::{
    check_symbols, constructor_symbol, destructor_symbol, dpi_init_symbol, evaluator_symbol,
    first_missing, spec_constructor_symbol, spec_destructor_symbol, spec_dpi_init_symbol,
    spec_evaluator_symbol, spec_trace_ever_on_symbol, trace_ever_on_symbol, SymbolLookup,
    SymbolLookupView,
};
use crate::text::{push_text, text_eq};
use vstd::prelude::*;
use vstd::string::*;

verus! {

/// A source file as the runtime is told of it: its path, and whether a
/// file was found there.
#[derive(Debug, Clone)]
pub struct SourceFile {
    pub path: String,
    pub is_file: bool,
}

/// What a [`SourceFile`] holds.
pub ghost struct SourceFileView {
    pub path: Seq<char>,
    pub is_file: bool,
}

impl View for SourceFile {
    type V = SourceFileView;

    open spec fn view(&self) -> SourceFileView {
        SourceFileView { path: self.path@, is_file: self.is_file }
    }
}

impl DeepView for SourceFile {
    type V = SourceFileView;

    open spec fn deep_view(&self) -> SourceFileView {
        self@
    }
}

/// The least index of a source that is not a file, or `sources.len()`.
pub open spec fn first_absent(sources: Seq<SourceFileView>) -> int
    decreases sources.len(),
{
    if sources.len() == 0 {
        0
    } else if !sources[0].is_file {
        0
    } else {
        1 + first_absent(sources.drop_first())
    }
}

/// The paths of `sources`, in order.
pub open spec fn source_paths(sources: Seq<SourceFileView>) -> Seq<Seq<char>> {
    Seq::new(sources.len(), |i: int| sources[i].path)
}

/// `first_absent` is the least index of a source that is not a file.
pub proof fn lemma_first_absent(sources: Seq<SourceFileView>)
    ensures
        0 <= first_absent(sources) <= sources.len(),
        first_absent(sources) < sources.len() ==> !sources[first_absent(sources)].is_file,
        forall|j: int| 0 <= j < first_absent(sources) ==> (#[trigger] sources[j]).is_file,
    decreases sources.len(),
{
    if sources.len() > 0 && sources[0].is_file {
        lemma_first_absent(sources.drop_first());
        assert forall|j: int| 0 <= j < first_absent(sources) implies (
        #[trigger] sources[j]).is_file by {
            if j > 0 {
                assert(sources.drop_first()[j - 1] == sources[j]);
            }
        }
    }
}

/// What identifies a loaded library: the module, the path of its source as
/// it was given, and the cache key of ports and configuration. Two modules
/// of one name in different files are thus kept apart.
#[derive(Debug, Clone)]
pub struct LibraryArenaKey {
    pub name: String,
    pub source_path: String,
    pub hash: u64,
}

/// What a [`LibraryArenaKey`] holds.
pub ghost struct LibraryArenaKeyView {
    pub name: Seq<char>,
    pub source_path: Seq<char>,
    pub hash: u64,
}

impl View for LibraryArenaKey {
    type V = LibraryArenaKeyView;

    open spec fn view(&self) -> LibraryArenaKeyView {
        LibraryArenaKeyView { name: self.name@, source_path: self.source_path@, hash: self.hash }
    }
}

impl DeepView for LibraryArenaKey {
    type V = LibraryArenaKeyView;

    open spec fn deep_view(&self) -> LibraryArenaKeyView {
        self@
    }
}

impl LibraryArenaKey {
    /// A copy of the key.
    pub fn duplicate(&self) -> (copy: Self)
        ensures
            copy@ == self@,
    {
        LibraryArenaKey {
            name: self.name.clone(),
            source_path: self.source_path.clone(),
            hash: self.hash,
        }
    }

    /// Whether two keys identify the same library.
    pub fn same(&self, other: &LibraryArenaKey) -> (same: bool)
        ensures
            same == (self@ == other@),
    {
        self.hash == other.hash && text_eq(self.name.as_str(), other.name.as_str()) && text_eq(
            self.source_path.as_str(),
            other.source_path.as_str(),
        )
    }
}

/// The place of `key` in `libraries`, or `libraries.len()` where it is not
/// there.
pub open spec fn library_index(libraries: Seq<LibraryArenaKeyView>, key: LibraryArenaKeyView) -> int
    decreases libraries.len(),
{
    if libraries.len() == 0 {
        0
    } else if libraries[0] == key {
        0
    } else {
        1 + library_index(libraries.drop_first(), key)
    }
}

/// No library is in the arena twice.
pub open spec fn distinct(libraries: Seq<LibraryArenaKeyView>) -> bool {
    forall|i: int, j: int|
        0 <= i < j < libraries.len() ==> #[trigger] libraries[i] != #[trigger] libraries[j]
}

/// `library_index` is the least place of the key.
pub proof fn lemma_library_index(libraries: Seq<LibraryArenaKeyView>, key: LibraryArenaKeyView)
    ensures
        0 <= library_index(libraries, key) <= libraries.len(),
        library_index(libraries, key) < libraries.len() ==> libraries[library_index(
            libraries,
            key,
        )] == key,
        forall|j: int| 0 <= j < library_index(libraries, key) ==> #[trigger] libraries[j] != key,
    decreases libraries.len(),
{
    if libraries.len() > 0 && libraries[0] != key {
        lemma_library_index(libraries.drop_first(), key);
        assert forall|j: int| 0 <= j < library_index(libraries, key) implies #[trigger] libraries[j]
            != key by {
            if j > 0 {
                assert(libraries.drop_first()[j - 1] == libraries[j]);
            }
        }
    }
}

/// The locks that a load holds.
#[derive(Debug, Clone, Copy, PartialEq, Eq, Structural)]
pub enum HeldLocks {
    /// No lock.
    Neither,
    /// The lock that keeps the threads of this process apart.
    Thread,
    /// That lock, and the file lock that keeps processes apart.
    ThreadAndFile,
}

/// How far a load has come: what the driver was last asked to do.
#[derive(Debug, Clone, Copy, PartialEq, Eq, Structural)]
pub enum LoadPhase {
    /// Nothing was asked yet.
    Start,
    /// Whether the model's source is among the runtime's is being found out.
    CheckingSource,
    /// The artifact directory is being created.
    CreatingDirectory,
    /// The lock among threads is being taken.
    LockingThread,
    /// The lock among processes is being taken.
    LockingFile,
    /// The build is under way.
    Building { build: BuildPhase },
    /// The library is being opened.
    Opening { rebuilt: bool },
    /// The library is being given the host functions.
    InitializingCallbacks { rebuilt: bool },
    /// Tracing is being switched on in the library.
    EnablingTracing { rebuilt: bool },
    /// The load has ended, well or not.
    Finished,
}

impl LoadPhase {
    /// The locks that are held while the driver does what the phase waits
    /// for.
    pub open spec fn held(self) -> HeldLocks {
        match self {
            LoadPhase::Start => HeldLocks::Neither,
            LoadPhase::CheckingSource => HeldLocks::Neither,
            LoadPhase::CreatingDirectory => HeldLocks::Neither,
            LoadPhase::LockingThread => HeldLocks::Neither,
            LoadPhase::LockingFile => HeldLocks::Thread,
            LoadPhase::Building { .. } => HeldLocks::ThreadAndFile,
            LoadPhase::Opening { .. } => HeldLocks::ThreadAndFile,
            LoadPhase::InitializingCallbacks { .. } => HeldLocks::ThreadAndFile,
            LoadPhase::EnablingTracing { .. } => HeldLocks::ThreadAndFile,
            LoadPhase::Finished => HeldLocks::Neither,
        }
    }

    /// Decides [`Self::held`].
    pub fn locks(&self) -> (held: HeldLocks)
        ensures
            held == self.held(),
    {
        match self {
            LoadPhase::Start => HeldLocks::Neither,
            LoadPhase::CheckingSource => HeldLocks::Neither,
            LoadPhase::CreatingDirectory => HeldLocks::Neither,
            LoadPhase::LockingThread => HeldLocks::Neither,
            LoadPhase::LockingFile => HeldLocks::Thread,
            LoadPhase::Building { .. } => HeldLocks::ThreadAndFile,
            LoadPhase::Opening { .. } => HeldLocks::ThreadAndFile,
            LoadPhase::InitializingCallbacks { .. } => HeldLocks::ThreadAndFile,
            LoadPhase::EnablingTracing { .. } => HeldLocks::ThreadAndFile,
            LoadPhase::Finished => HeldLocks::Neither,
        }
    }
}

/// The text of a path, if there is one.
pub open spec fn option_text(path: Option<String>) -> Option<Seq<char>> {
    match path {
        Some(text) => Some(text@),
        None => None,
    }
}

/// The texts of a list of paths.
pub open spec fn option_texts(paths: Vec<Option<String>>) -> Seq<Option<Seq<char>>> {
    Seq::new(paths@.len(), |i: int| option_text(paths@[i]))
}

/// Whether the model's source is one of the runtime's sources: both can be
/// made canonical, and are then the same path.
pub open spec fn source_provided(files: Seq<Option<Seq<char>>>, source: Option<Seq<char>>) -> bool {
    source is Some && exists|i: int| 0 <= i < files.len() && #[trigger] files[i] == source
}

/// Decides [`source_provided`].
pub fn is_source_provided(files: &Vec<Option<String>>, source: &Option<String>) -> (provided: bool)
    ensures
        provided == source_provided(option_texts(*files), option_text(*source)),
{
    let wanted = match source {
        Some(wanted) => wanted,
        None => {
            return false;
        },
    };
    let ghost views = option_texts(*files);
    let mut i: usize = 0;
    while i < files.len()
        invariant
            i <= files.len(),
            views == option_texts(*files),
            *source == Some(*wanted),
            forall|j: int| 0 <= j < i ==> #[trigger] views[j] != option_text(*source),
        decreases files.len() - i,
    {
        assert(views[i as int] == option_text(files@[i as int]));
        let same = match &files[i] {
            Some(file) => text_eq(file.as_str(), wanted.as_str()),
            None => false,
        };
        if same {
            return true;
        }
        i = i + 1;
    }
    false
}

/// What the driver reports back.
#[derive(Debug, Clone)]
pub enum LoadEvent {
    /// The load is to start.
    Begin,
    /// The canonical form of the model's source and of each of the
    /// runtime's sources, in their order; `None` where a path cannot be
    /// made canonical.
    SourceChecked { source: Option<String>, files: Vec<Option<String>> },
    /// The step that was asked for is done.
    Completed,
    /// The step that was asked for failed.
    Failed { detail: String },
    /// The outcome of the step of the build that was asked for.
    Build { event: BuildEvent },
}

/// What a [`LoadEvent`] holds.
pub ghost enum LoadEventView {
    Begin,
    SourceChecked { source: Option<Seq<char>>, files: Seq<Option<Seq<char>>> },
    Completed,
    Failed { detail: Seq<char> },
    Build { event: BuildEventView },
}

impl View for LoadEvent {
    type V = LoadEventView;

    open spec fn view(&self) -> LoadEventView {
        match self {
            LoadEvent::Begin => LoadEventView::Begin,
            LoadEvent::SourceChecked { source, files } => LoadEventView::SourceChecked {
                source: option_text(*source),
                files: option_texts(*files),
            },
            LoadEvent::Completed => LoadEventView::Completed,
            LoadEvent::Failed { detail } => LoadEventView::Failed { detail: detail@ },
            LoadEvent::Build { event } => LoadEventView::Build { event: event@ },
        }
    }
}

/// What the driver is asked to do next.
#[derive(Debug, Clone)]
pub enum LoadAction {
    /// Make `source_path` and each of `source_files` canonical.
    CheckSource { source_path: String, source_files: Vec<String> },
    /// Create the artifact directory.
    CreateDirectory { path: String },
    /// Take the lock that this process keeps for `directory`, waiting for
    /// it if another thread has it.
    LockThread { directory: String },
    /// Open the lock file and take the exclusive lock on it.
    LockFile { path: String },
    /// Do a step of the build and report with [`LoadEvent::Build`].
    Build { action: BuildAction },
    /// Open the shared library.
    OpenLibrary { path: String },
    /// Make a call into the library that was just opened.
    Call { call: NativeCall },
    /// The library is at place `library` of the arena. Where
    /// `newly_loaded`, the library that was just opened goes there;
    /// otherwise it was there already. The locks in `release` are to be
    /// given back, the file lock first.
    Done { library: usize, newly_loaded: bool, rebuilt: bool, release: HeldLocks },
    /// The load has failed; the locks in `release` are to be given back.
    Fail { error: RuntimeError, release: HeldLocks },
}

/// What a [`LoadAction`] holds.
pub ghost enum LoadActionView {
    CheckSource { source_path: Seq<char>, source_files: Seq<Seq<char>> },
    CreateDirectory { path: Seq<char> },
    LockThread { directory: Seq<char> },
    LockFile { path: Seq<char> },
    Build { action: BuildActionView },
    OpenLibrary { path: Seq<char> },
    Call { call: NativeCallView },
    Done { library: int, newly_loaded: bool, rebuilt: bool, release: HeldLocks },
    Fail { error: RuntimeErrorView, release: HeldLocks },
}

impl View for LoadAction {
    type V = LoadActionView;

    open spec fn view(&self) -> LoadActionView {
        match self {
            LoadAction::CheckSource { source_path, source_files } => LoadActionView::CheckSource {
                source_path: source_path@,
                source_files: source_files.deep_view(),
            },
            LoadAction::CreateDirectory { path } => LoadActionView::CreateDirectory { path: path@ },
            LoadAction::LockThread { directory } => LoadActionView::LockThread {
                directory: directory@,
            },
            LoadAction::LockFile { path } => LoadActionView::LockFile { path: path@ },
            LoadAction::Build { action } => LoadActionView::Build { action: action@ },
            LoadAction::OpenLibrary { path } => LoadActionView::OpenLibrary { path: path@ },
            LoadAction::Call { call } => LoadActionView::Call { call: call@ },
            LoadAction::Done { library, newly_loaded, rebuilt, release } => LoadActionView::Done {
                library: *library as int,
                newly_loaded: *newly_loaded,
                rebuilt: *rebuilt,
                release: *release,
            },
            LoadAction::Fail { error, release } => LoadActionView::Fail {
                error: error@,
                release: *release,
            },
        }
    }
}

/// One request for a library, with all that its load is made from.
#[derive(Debug, Clone)]
pub struct LibraryLoad {
    /// What identifies the library.
    pub key: LibraryArenaKey,
    /// The build of the library, in its artifact directory.
    pub build: BuildRequest,
}

/// What a [`LibraryLoad`] holds.
pub ghost struct LibraryLoadView {
    pub key: LibraryArenaKeyView,
    pub build: BuildRequestView,
}

impl View for LibraryLoad {
    type V = LibraryLoadView;

    open spec fn view(&self) -> LibraryLoadView {
        LibraryLoadView { key: self.key@, build: self.build@ }
    }
}

impl LibraryLoadView {
    /// The name of the artifact directory.
    pub open spec fn directory_name(self) -> Seq<char> {
        spec_artifact_directory_name(self.key.name, self.key.source_path, self.key.hash)
    }

    /// The lock file, which lies in the artifact directory.
    pub open spec fn lock_file(self) -> Seq<char> {
        spec_lock_file(self.build.artifact_directory, self.directory_name())
    }
}

/// What the runtime is made with and what it has loaded.
pub ghost struct VerilatorRuntimeView {
    pub artifact_directory: Seq<char>,
    pub source_files: Seq<Seq<char>>,
    pub include_directories: Seq<Seq<char>>,
    pub dpi_functions: Seq<DpiFunctionView>,
    pub options: VerilatorRuntimeOptionsView,
    /// The keys of the loaded libraries; the place of a key is the place
    /// of its library in the arena.
    pub libraries: Seq<LibraryArenaKeyView>,
    /// The native instances that are owed their destruction.
    pub ledger: Seq<DeallocatorView>,
}

impl VerilatorRuntimeView {
    /// The load of the library of one signature under this runtime.
    pub open spec fn load(
        self,
        name: Seq<char>,
        source_path: Seq<char>,
        ports: Seq<PortDescriptorView>,
        config: VerilatedModelConfigView,
    ) -> LibraryLoadView {
        let hash = spec_cache_key(ports, config);
        LibraryLoadView {
            key: LibraryArenaKeyView { name, source_path, hash },
            build: BuildRequestView {
                source_files: self.source_files,
                include_directories: self.include_directories,
                dpi_functions: self.dpi_functions,
                top_module: name,
                ports,
                artifact_directory: joined_path(
                    self.artifact_directory,
                    spec_artifact_directory_name(name, source_path, hash),
                ),
                options: self.options,
                config,
            },
        }
    }

    /// The runtime with one more library.
    pub open spec fn with_library(self, key: LibraryArenaKeyView) -> VerilatorRuntimeView {
        VerilatorRuntimeView { libraries: self.libraries.push(key), ..self }
    }

    /// The runtime with another ledger.
    pub open spec fn with_ledger(self, ledger: Seq<DeallocatorView>) -> VerilatorRuntimeView {
        VerilatorRuntimeView { ledger, ..self }
    }
}

/// The keys of the loaded libraries, each at the place that its library
/// has in the arena. No key is there twice, and none ever leaves.
pub struct LibraryArena {
    keys: Vec<LibraryArenaKey>,
}

impl View for LibraryArena {
    type V = Seq<LibraryArenaKeyView>;

    closed spec fn view(&self) -> Seq<LibraryArenaKeyView> {
        self.keys.deep_view()
    }
}

/// A key that is put at the end of keys that are all different and that
/// do not hold it leaves them all different.
pub proof fn lemma_distinct_push(libraries: Seq<LibraryArenaKeyView>, key: LibraryArenaKeyView)
    requires
        distinct(libraries),
        library_index(libraries, key) >= libraries.len(),
    ensures
        distinct(libraries.push(key)),
{
    lemma_library_index(libraries, key);
    let added = libraries.push(key);
    assert forall|i: int, j: int| 0 <= i < j < added.len() implies #[trigger] added[i]
        != #[trigger] added[j] by {
        if j < libraries.len() {
            assert(libraries[i] != libraries[j]);
        } else {
            assert(libraries[i] != key);
        }
    }
}

impl LibraryArena {
    #[verifier::type_invariant]
    spec fn well_formed(&self) -> bool {
        distinct(self.keys.deep_view())
    }

    /// An arena without a library.
    pub fn new() -> (arena: Self)
        ensures
            arena@ == Seq::<LibraryArenaKeyView>::empty(),
    {
        let keys: Vec<LibraryArenaKey> = Vec::new();
        assert(keys.deep_view() =~= Seq::<LibraryArenaKeyView>::empty());
        LibraryArena { keys }
    }

    /// How many libraries are in the arena.
    pub fn len(&self) -> (n: usize)
        ensures
            n == self@.len(),
    {
        self.keys.len()
    }

    /// No key is in the arena twice.
    pub fn keys_are_distinct(&self)
        ensures
            distinct(self@),
    {
        proof {
            use_type_invariant(self);
        }
    }

    /// The place of `key`, if it is in the arena.
    pub fn find(&self, key: &LibraryArenaKey) -> (found: Option<usize>)
        ensures
            found is Some <==> library_index(self@, key@) < self@.len(),
            found matches Some(i) ==> i == library_index(self@, key@),
    {
        let ghost libraries = self.keys.deep_view();
        let mut i: usize = 0;
        assert(libraries.skip(0) =~= libraries);
        while i < self.keys.len()
            invariant
                i <= self.keys.len(),
                libraries == self.keys.deep_view(),
                library_index(libraries, key@) == i + library_index(
                    libraries.skip(i as int),
                    key@,
                ),
            decreases self.keys.len() - i,
        {
            proof {
                assert(libraries.skip(i as int)[0] == self.keys[i as int]@);
                assert(libraries.skip(i as int).drop_first() =~= libraries.skip(i + 1));
            }
            if self.keys[i].same(key) {
                return Some(i);
            }
            i = i + 1;
        }
        assert(libraries.skip(self.keys.len() as int) =~= Seq::<LibraryArenaKeyView>::empty());
        None
    }

    /// Gives `key` a place: the place that it has, or else the next free
    /// place. The second result tells whether the place is new. The keys
    /// are copied when one is added, which happens once for each library.
    pub fn register(&mut self, key: &LibraryArenaKey) -> (outcome: (usize, bool))
        ensures
            ({
                let at = library_index(old(self)@, key@);
                &&& at < old(self)@.len() ==> outcome.0 == at && !outcome.1 && final(self)@
                    == old(self)@
                &&& at >= old(self)@.len() ==> outcome.0 == old(self)@.len() && outcome.1
                    && final(self)@ == old(self)@.push(key@)
            }),
    {
        proof {
            use_type_invariant(&*self);
            lemma_library_index(self@, key@);
        }
        match self.find(key) {
            Some(place) => (place, false),
            None => {
                let place = self.keys.len();
                let ghost before = self.keys.deep_view();
                let mut keys: Vec<LibraryArenaKey> = Vec::new();
                let mut i: usize = 0;
                while i < self.keys.len()
                    invariant
                        i <= self.keys.len(),
                        before == self.keys.deep_view(),
                        keys.deep_view() =~= before.take(i as int),
                    decreases self.keys.len() - i,
                {
                    let ghost copied = keys.deep_view();
                    let copy = self.keys[i].duplicate();
                    keys.push(copy);
                    assert(keys.deep_view() =~= copied.push(before[i as int]));
                    i = i + 1;
                }
                assert(before.take(self.keys.len() as int) =~= before);
                let ghost copied = keys.deep_view();
                keys.push(key.duplicate());
                proof {
                    assert(keys.deep_view() =~= before.push(key@));
                    lemma_distinct_push(before, key@);
                }
                self.keys = keys;
                (place, true)
            },
        }
    }
}

/// Runtime for modules in (System)Verilog.
pub struct VerilatorRuntime {
    artifact_directory: String,
    source_files: Vec<String>,
    include_directories: Vec<String>,
    dpi_functions: Vec<DpiFunction>,
    options: VerilatorRuntimeOptions,
    library_map: LibraryArena,
    model_deallocators: DeallocationLedger,
}

impl View for VerilatorRuntime {
    type V = VerilatorRuntimeView;

    closed spec fn view(&self) -> VerilatorRuntimeView {
        VerilatorRuntimeView {
            artifact_directory: self.artifact_directory@,
            source_files: self.source_files.deep_view(),
            include_directories: self.include_directories.deep_view(),
            dpi_functions: self.dpi_functions.deep_view(),
            options: self.options@,
            libraries: self.library_map@,
            ledger: self.model_deallocators@,
        }
    }
}

impl VerilatorRuntime {
    /// Makes a runtime for the given sources. Every source has to be a
    /// file: the first that is not is reported.
    pub fn new(
        artifact_directory: &str,
        source_files: &Vec<SourceFile>,
        include_directories: &Vec<String>,
        dpi_functions: Vec<DpiFunction>,
        options: VerilatorRuntimeOptions,
    ) -> (outcome: Result<Self, RuntimeError>)
        ensures
            outcome is Ok <==> first_absent(source_files.deep_view()) >= source_files.len(),
            outcome matches Err(e) ==> e@ == (RuntimeErrorView::SourceMissing {
                path: source_files.deep_view()[first_absent(source_files.deep_view())].path,
            }),
            outcome matches Ok(runtime) ==> distinct(runtime@.libraries) && runtime@ == (
            VerilatorRuntimeView {
                artifact_directory: artifact_directory@,
                source_files: source_paths(source_files.deep_view()),
                include_directories: include_directories.deep_view(),
                dpi_functions: dpi_functions.deep_view(),
                options: options@,
                libraries: Seq::empty(),
                ledger: Seq::empty(),
            }),
    {
        let ghost sources = source_files.deep_view();
        let mut paths: Vec<String> = Vec::new();
        let mut i: usize = 0;
        assert(sources.skip(0) =~= sources);
        while i < source_files.len()
            invariant
                i <= source_files.len(),
                sources == source_files.deep_view(),
                first_absent(sources) == i + first_absent(sources.skip(i as int)),
                paths.deep_view() =~= source_paths(sources).take(i as int),
            decreases source_files.len() - i,
        {
            proof {
                assert(sources.skip(i as int)[0] == source_files[i as int]@);
                assert(sources.skip(i as int).drop_first() =~= sources.skip(i + 1));
                assert(sources[i as int] == source_files[i as int]@);
            }
            if !source_files[i].is_file {
                return Err(RuntimeError::SourceMissing { path: source_files[i].path.clone() });
            }
            let ghost before = paths.deep_view();
            paths.push(source_files[i].path.clone());
            assert(paths.deep_view() =~= before.push(sources[i as int].path));
            i = i + 1;
        }
        proof {
            assert(sources.skip(source_files.len() as int) =~= Seq::<SourceFileView>::empty());
            assert(source_paths(sources).take(source_files.len() as int) =~= source_paths(sources));
        }
        let library_map = LibraryArena::new();
        Ok(
            VerilatorRuntime {
                artifact_directory: artifact_directory.to_owned(),
                source_files: paths,
                include_directories: include_directories.clone(),
                dpi_functions,
                options,
                library_map,
                model_deallocators: DeallocationLedger::new(),
            },
        )
    }

    /// How many libraries are loaded.
    pub fn library_count(&self) -> (n: usize)
        ensures
            n == self@.libraries.len(),
    {
        self.library_map.len()
    }

    /// How many native instances are owed their destruction.
    pub fn outstanding_models(&self) -> (n: usize)
        ensures
            n == self@.ledger.len(),
    {
        self.model_deallocators.len()
    }

    /// The place of the library with `key` in the arena, if it is loaded.
    pub fn find_library(&self, key: &LibraryArenaKey) -> (found: Option<usize>)
        ensures
            found is Some <==> library_index(self@.libraries, key@) < self@.libraries.len(),
            found matches Some(i) ==> i == library_index(self@.libraries, key@),
    {
        self.library_map.find(key)
    }

    /// No library is in the arena twice.
    pub fn libraries_are_distinct(&self)
        ensures
            distinct(self@.libraries),
    {
        self.library_map.keys_are_distinct()
    }

    /// Validates the signature and gathers what the load of its library is
    /// made from. Nothing is touched yet, and the arena is not consulted:
    /// a signature that does not pass is refused whether or not its
    /// library is loaded.
    pub fn prepare_library(
        &self,
        name: &str,
        source_path: &str,
        ports: &Vec<PortDescriptor>,
        config: &VerilatedModelConfig,
    ) -> (outcome: Result<LibraryLoad, RuntimeError>)
        ensures
            outcome is Ok <==> self@.load(name@, source_path@, ports.deep_view(), config@).error()
                is None,
            outcome matches Err(e) ==> Some(e@) == self@.load(
                name@,
                source_path@,
                ports.deep_view(),
                config@,
            ).error(),
            outcome matches Ok(load) ==> load@ == self@.load(
                name@,
                source_path@,
                ports.deep_view(),
                config@,
            ),
    {
        match validate_signature(name, ports) {
            Err(e) => {
                return Err(e);
            },
            Ok(()) => {},
        }
        if config.verilator_optimization > 3 {
            return Err(
                RuntimeError::InvalidOptimizationLevel { level: config.verilator_optimization },
            );
        }
        let hash = cache_key(ports, config);
        let directory_name = artifact_directory_name(name, source_path, hash);
        let directory = join_path(self.artifact_directory.as_str(), directory_name.as_str());
        Ok(
            LibraryLoad {
                key: LibraryArenaKey {
                    name: name.to_owned(),
                    source_path: source_path.to_owned(),
                    hash,
                },
                build: BuildRequest {
                    source_files: self.source_files.clone(),
                    include_directories: self.include_directories.clone(),
                    dpi_functions: duplicate_functions(&self.dpi_functions),
                    top_module: name.to_owned(),
                    ports: duplicate_ports(ports),
                    artifact_directory: directory,
                    options: self.options.duplicate(),
                    config: config.duplicate(),
                },
            },
        )
    }
}

impl LibraryLoadView {
    /// What is wrong with the request, if anything: its signature, or an
    /// optimization level above 3.
    pub open spec fn error(self) -> Option<RuntimeErrorView> {
        if signature_error(self.key.name, self.build.ports) is Some {
            signature_error(self.key.name, self.build.ports)
        } else if self.build.config.verilator_optimization > 3 {
            Some(
                RuntimeErrorView::InvalidOptimizationLevel {
                    level: self.build.config.verilator_optimization,
                },
            )
        } else {
            None
        }
    }
}

/// The load ends with `error`, and gives back `release`.
pub open spec fn load_failed(
    runtime: VerilatorRuntimeView,
    error: RuntimeErrorView,
    release: HeldLocks,
) -> (VerilatorRuntimeView, LoadPhase, LoadActionView) {
    (runtime, LoadPhase::Finished, LoadActionView::Fail { error, release })
}

impl LibraryLoadView {
    /// What follows a step of the build. An action of the build is handed
    /// on, but for its end: when the build is done the library is opened,
    /// and when it has failed the load fails.
    pub open spec fn after_build(
        self,
        runtime: VerilatorRuntimeView,
        step: (BuildPhase, BuildActionView),
    ) -> (VerilatorRuntimeView, LoadPhase, LoadActionView) {
        match step.1 {
            BuildActionView::Done { library_path, rebuilt } => (
                runtime,
                LoadPhase::Opening { rebuilt },
                LoadActionView::OpenLibrary { path: library_path },
            ),
            BuildActionView::Fail { error } => load_failed(
                runtime,
                error,
                HeldLocks::ThreadAndFile,
            ),
            action => (
                runtime,
                LoadPhase::Building { build: step.0 },
                LoadActionView::Build { action },
            ),
        }
    }

    /// What is done once with a library that was just opened: it is given
    /// the host functions, if there are any, and tracing is switched on in
    /// it, if the model was built for it. Here the first of these begins.
    pub open spec fn one_time_library_setup(self, runtime: VerilatorRuntimeView, rebuilt: bool) -> (
        VerilatorRuntimeView,
        LoadPhase,
        LoadActionView,
    ) {
        if self.build.dpi_functions.len() > 0 {
            (
                runtime,
                LoadPhase::InitializingCallbacks { rebuilt },
                LoadActionView::Call {
                    call: NativeCallView::InitializeCallbacks {
                        symbol: spec_dpi_init_symbol(),
                        count: self.build.dpi_functions.len() as int,
                    },
                },
            )
        } else {
            self.after_callbacks(runtime, rebuilt)
        }
    }

    /// What follows once the host functions are settled: tracing is
    /// switched on, if the model was built for it.
    pub open spec fn after_callbacks(self, runtime: VerilatorRuntimeView, rebuilt: bool) -> (
        VerilatorRuntimeView,
        LoadPhase,
        LoadActionView,
    ) {
        if self.build.config.enable_tracing {
            (
                runtime,
                LoadPhase::EnablingTracing { rebuilt },
                LoadActionView::Call {
                    call: NativeCallView::TraceEverOn { symbol: spec_trace_ever_on_symbol() },
                },
            )
        } else {
            self.register(runtime, rebuilt)
        }
    }

    /// The end of a load that opened a library: the library takes the next
    /// free place of the arena, unless its key has come to be there in the
    /// meantime, in which case the place that it has stands.
    pub open spec fn register(self, runtime: VerilatorRuntimeView, rebuilt: bool) -> (
        VerilatorRuntimeView,
        LoadPhase,
        LoadActionView,
    ) {
        let place = library_index(runtime.libraries, self.key);
        if place < runtime.libraries.len() {
            (
                runtime,
                LoadPhase::Finished,
                LoadActionView::Done {
                    library: place,
                    newly_loaded: false,
                    rebuilt,
                    release: HeldLocks::ThreadAndFile,
                },
            )
        } else {
            (
                runtime.with_library(self.key),
                LoadPhase::Finished,
                LoadActionView::Done {
                    library: runtime.libraries.len() as int,
                    newly_loaded: true,
                    rebuilt,
                    release: HeldLocks::ThreadAndFile,
                },
            )
        }
    }

    /// What follows once it is known whether the source was provided.
    pub open spec fn after_source_check(self, runtime: VerilatorRuntimeView, provided: bool) -> (
        VerilatorRuntimeView,
        LoadPhase,
        LoadActionView,
    ) {
        if !provided {
            load_failed(
                runtime,
                RuntimeErrorView::SourceNotProvided {
                    module: self.key.name,
                    source_path: self.key.source_path,
                },
                HeldLocks::Neither,
            )
        } else if library_index(runtime.libraries, self.key) < runtime.libraries.len() {
            (
                runtime,
                LoadPhase::Finished,
                LoadActionView::Done {
                    library: library_index(runtime.libraries, self.key),
                    newly_loaded: false,
                    rebuilt: false,
                    release: HeldLocks::Neither,
                },
            )
        } else {
            (
                runtime,
                LoadPhase::CreatingDirectory,
                LoadActionView::CreateDirectory { path: self.build.artifact_directory },
            )
        }
    }
}

/// One step of a load: from the runtime, how far the load has come and
/// what the driver reports, to the runtime as it then is, how far the load
/// then is, and what the driver is asked next.
pub open spec fn load_step(
    runtime: VerilatorRuntimeView,
    load: LibraryLoadView,
    phase: LoadPhase,
    event: LoadEventView,
) -> (VerilatorRuntimeView, LoadPhase, LoadActionView) {
    let out_of_order = load_failed(runtime, RuntimeErrorView::UnexpectedEvent, phase.held());
    match phase {
        LoadPhase::Start => match event {
            LoadEventView::Begin => match load.error() {
                Some(error) => load_failed(runtime, error, HeldLocks::Neither),
                None => (
                    runtime,
                    LoadPhase::CheckingSource,
                    LoadActionView::CheckSource {
                        source_path: load.key.source_path,
                        source_files: load.build.source_files,
                    },
                ),
            },
            _ => out_of_order,
        },
        LoadPhase::CheckingSource => match event {
            LoadEventView::SourceChecked { source, files } => load.after_source_check(
                runtime,
                source_provided(files, source),
            ),
            _ => out_of_order,
        },
        LoadPhase::CreatingDirectory => match event {
            LoadEventView::Completed => (
                runtime,
                LoadPhase::LockingThread,
                LoadActionView::LockThread { directory: load.build.artifact_directory },
            ),
            LoadEventView::Failed { detail } => load_failed(
                runtime,
                RuntimeErrorView::Io {
                    operation: IoOperation::CreateDirectory,
                    path: load.build.artifact_directory,
                    detail,
                },
                HeldLocks::Neither,
            ),
            _ => out_of_order,
        },
        LoadPhase::LockingThread => match event {
            LoadEventView::Completed => (
                runtime,
                LoadPhase::LockingFile,
                LoadActionView::LockFile { path: load.lock_file() },
            ),
            LoadEventView::Failed { detail } => load_failed(
                runtime,
                RuntimeErrorView::LockAcquisition {
                    path: load.build.artifact_directory,
                    detail,
                },
                HeldLocks::Neither,
            ),
            _ => out_of_order,
        },
        LoadPhase::LockingFile => match event {
            LoadEventView::Completed => load.after_build(
                runtime,
                build_step(load.build, BuildPhase::Start, BuildEventView::Begin),
            ),
            LoadEventView::Failed { detail } => load_failed(
                runtime,
                RuntimeErrorView::LockAcquisition { path: load.lock_file(), detail },
                HeldLocks::Thread,
            ),
            _ => out_of_order,
        },
        LoadPhase::Building { build } => match event {
            LoadEventView::Build { event } => load.after_build(
                runtime,
                build_step(load.build, build, event),
            ),
            _ => out_of_order,
        },
        LoadPhase::Opening { rebuilt } => match event {
            LoadEventView::Completed => load.one_time_library_setup(runtime, rebuilt),
            LoadEventView::Failed { detail } => load_failed(
                runtime,
                RuntimeErrorView::Io {
                    operation: IoOperation::OpenLibrary,
                    path: load.build.library_path(),
                    detail,
                },
                HeldLocks::ThreadAndFile,
            ),
            _ => out_of_order,
        },
        LoadPhase::InitializingCallbacks { rebuilt } => match event {
            LoadEventView::Completed => load.after_callbacks(runtime, rebuilt),
            LoadEventView::Failed { detail } => load_failed(
                runtime,
                RuntimeErrorView::SymbolResolution {
                    module: load.key.name,
                    symbol: spec_dpi_init_symbol(),
                    detail,
                },
                HeldLocks::ThreadAndFile,
            ),
            _ => out_of_order,
        },
        LoadPhase::EnablingTracing { rebuilt } => match event {
            LoadEventView::Completed => load.register(runtime, rebuilt),
            LoadEventView::Failed { detail } => load_failed(
                runtime,
                RuntimeErrorView::SymbolResolution {
                    module: load.key.name,
                    symbol: spec_trace_ever_on_symbol(),
                    detail,
                },
                HeldLocks::ThreadAndFile,
            ),
            _ => out_of_order,
        },
        LoadPhase::Finished => out_of_order,
    }
}

fn fail_load(error: RuntimeError, release: HeldLocks) -> (step: (LoadPhase, LoadAction))
    ensures
        step.0 == LoadPhase::Finished,
        step.1@ == (LoadActionView::Fail { error: error@, release }),
{
    (LoadPhase::Finished, LoadAction::Fail { error, release })
}

impl LibraryLoad {
    /// Checks the signature and the optimization level.
    pub fn validate(&self) -> (outcome: Result<(), RuntimeError>)
        ensures
            outcome is Ok <==> self@.error() is None,
            outcome matches Err(e) ==> Some(e@) == self@.error(),
    {
        match validate_signature(self.key.name.as_str(), &self.build.ports) {
            Err(e) => {
                return Err(e);
            },
            Ok(()) => {},
        }
        if self.build.config.verilator_optimization > 3 {
            return Err(
                RuntimeError::InvalidOptimizationLevel {
                    level: self.build.config.verilator_optimization,
                },
            );
        }
        Ok(())
    }

    fn lock_file(&self) -> (path: String)
        ensures
            path@ == self@.lock_file(),
    {
        let name = artifact_directory_name(
            self.key.name.as_str(),
            self.key.source_path.as_str(),
            self.key.hash,
        );
        lock_file(self.build.artifact_directory.as_str(), name.as_str())
    }
}

impl VerilatorRuntime {
    fn register(&mut self, load: &LibraryLoad, rebuilt: bool) -> (step: (LoadPhase, LoadAction))
        ensures
            (final(self)@, step.0, step.1@) == load@.register(old(self)@, rebuilt),
    {
        proof {
            lemma_library_index(self@.libraries, load@.key);
        }
        let (place, newly_loaded) = self.library_map.register(&load.key);
        proof {
            if newly_loaded {
                assert(self@ == old(self)@.with_library(load@.key));
            } else {
                assert(self@ == old(self)@);
            }
        }
        (
            LoadPhase::Finished,
            LoadAction::Done { library: place, newly_loaded, rebuilt, release: HeldLocks::ThreadAndFile },
        )
    }

    fn after_callbacks(&mut self, load: &LibraryLoad, rebuilt: bool) -> (step: (
        LoadPhase,
        LoadAction,
    ))
        ensures
            (final(self)@, step.0, step.1@) == load@.after_callbacks(old(self)@, rebuilt),
    {
        if load.build.config.enable_tracing {
            (
                LoadPhase::EnablingTracing { rebuilt },
                LoadAction::Call { call: NativeCall::TraceEverOn { symbol: trace_ever_on_symbol() } },
            )
        } else {
            self.register(load, rebuilt)
        }
    }

    fn one_time_library_setup(&mut self, load: &LibraryLoad, rebuilt: bool) -> (step: (LoadPhase, LoadAction))
        ensures
            (final(self)@, step.0, step.1@) == load@.one_time_library_setup(old(self)@, rebuilt),
    {
        if load.build.dpi_functions.len() > 0 {
            (
                LoadPhase::InitializingCallbacks { rebuilt },
                LoadAction::Call {
                    call: NativeCall::InitializeCallbacks {
                        symbol: dpi_init_symbol(),
                        count: load.build.dpi_functions.len(),
                    },
                },
            )
        } else {
            self.after_callbacks(load, rebuilt)
        }
    }

    fn after_build(&self, load: &LibraryLoad, step: (BuildPhase, BuildAction)) -> (next: (
        LoadPhase,
        LoadAction,
    ))
        ensures
            (self@, next.0, next.1@) == load@.after_build(self@, (step.0, step.1@)),
    {
        match step.1 {
            BuildAction::Done { library_path, rebuilt } => (
                LoadPhase::Opening { rebuilt },
                LoadAction::OpenLibrary { path: library_path },
            ),
            BuildAction::Fail { error } => fail_load(error, HeldLocks::ThreadAndFile),
            action => (LoadPhase::Building { build: step.0 }, LoadAction::Build { action }),
        }
    }

    fn after_source_check(&self, load: &LibraryLoad, provided: bool) -> (next: (
        LoadPhase,
        LoadAction,
    ))
        ensures
            (self@, next.0, next.1@) == load@.after_source_check(self@, provided),
    {
        if !provided {
            return fail_load(
                RuntimeError::SourceNotProvided {
                    module: load.key.name.clone(),
                    source_path: load.key.source_path.clone(),
                },
                HeldLocks::Neither,
            );
        }
        match self.find_library(&load.key) {
            Some(place) => (
                LoadPhase::Finished,
                LoadAction::Done {
                    library: place,
                    newly_loaded: false,
                    rebuilt: false,
                    release: HeldLocks::Neither,
                },
            ),
            None => (
                LoadPhase::CreatingDirectory,
                LoadAction::CreateDirectory { path: load.build.artifact_directory.clone() },
            ),
        }
    }

    /// Takes a load one step further. The driver starts with
    /// [`LoadPhase::Start`] and [`LoadEvent::Begin`], does what it is
    /// asked, and comes back with the phase it was given and the outcome,
    /// until it is handed [`LoadAction::Done`] or [`LoadAction::Fail`].
    /// Whatever happens, no library comes to be in the arena twice.
    ///
    /// The request is validated first, on every load. A library that this
    /// runtime has loaded is handed out again without a lock, a build or a
    /// second load. Otherwise the lock among threads is taken, then the
    /// lock among processes, and both are held while the library is built,
    /// opened and initialized; whichever way the load ends, its last
    /// action names the locks that are to be given back.
    pub fn build_or_retrieve_library(
        &mut self,
        load: &LibraryLoad,
        phase: LoadPhase,
        event: LoadEvent,
    ) -> (step: (LoadPhase, LoadAction))
        ensures
            (final(self)@, step.0, step.1@) == load_step(old(self)@, load@, phase, event@),
            distinct(final(self)@.libraries),
    {
        let held = phase.locks();
        let step = match phase {
            LoadPhase::Start => match event {
                LoadEvent::Begin => match load.validate() {
                    Err(error) => fail_load(error, HeldLocks::Neither),
                    Ok(()) => (
                        LoadPhase::CheckingSource,
                        LoadAction::CheckSource {
                            source_path: load.key.source_path.clone(),
                            source_files: load.build.source_files.clone(),
                        },
                    ),
                },
                _ => fail_load(RuntimeError::UnexpectedEvent, held),
            },
            LoadPhase::CheckingSource => match event {
                LoadEvent::SourceChecked { source, files } => {
                    let provided = is_source_provided(&files, &source);
                    self.after_source_check(load, provided)
                },
                _ => fail_load(RuntimeError::UnexpectedEvent, held),
            },
            LoadPhase::CreatingDirectory => match event {
                LoadEvent::Completed => (
                    LoadPhase::LockingThread,
                    LoadAction::LockThread { directory: load.build.artifact_directory.clone() },
                ),
                LoadEvent::Failed { detail } => fail_load(
                    RuntimeError::Io {
                        operation: IoOperation::CreateDirectory,
                        path: load.build.artifact_directory.clone(),
                        detail,
                    },
                    HeldLocks::Neither,
                ),
                _ => fail_load(RuntimeError::UnexpectedEvent, held),
            },
            LoadPhase::LockingThread => match event {
                LoadEvent::Completed => (
                    LoadPhase::LockingFile,
                    LoadAction::LockFile { path: load.lock_file() },
                ),
                LoadEvent::Failed { detail } => fail_load(
                    RuntimeError::LockAcquisition {
                        path: load.build.artifact_directory.clone(),
                        detail,
                    },
                    HeldLocks::Neither,
                ),
                _ => fail_load(RuntimeError::UnexpectedEvent, held),
            },
            LoadPhase::LockingFile => match event {
                LoadEvent::Completed => {
                    let step = build_library(&load.build, BuildPhase::Start, BuildEvent::Begin);
                    self.after_build(load, step)
                },
                LoadEvent::Failed { detail } => fail_load(
                    RuntimeError::LockAcquisition { path: load.lock_file(), detail },
                    HeldLocks::Thread,
                ),
                _ => fail_load(RuntimeError::UnexpectedEvent, held),
            },
            LoadPhase::Building { build } => match event {
                LoadEvent::Build { event } => {
                    let step = build_library(&load.build, build, event);
                    self.after_build(load, step)
                },
                _ => fail_load(RuntimeError::UnexpectedEvent, held),
            },
            LoadPhase::Opening { rebuilt } => match event {
                LoadEvent::Completed => self.one_time_library_setup(load, rebuilt),
                LoadEvent::Failed { detail } => fail_load(
                    RuntimeError::Io {
                        operation: IoOperation::OpenLibrary,
                        path: library_path(
                            load.build.artifact_directory.as_str(),
                            load.build.top_module.as_str(),
                        ),
                        detail,
                    },
                    HeldLocks::ThreadAndFile,
                ),
                _ => fail_load(RuntimeError::UnexpectedEvent, held),
            },
            LoadPhase::InitializingCallbacks { rebuilt } => match event {
                LoadEvent::Completed => self.after_callbacks(load, rebuilt),
                LoadEvent::Failed { detail } => fail_load(
                    RuntimeError::SymbolResolution {
                        module: load.key.name.clone(),
                        symbol: dpi_init_symbol(),
                        detail,
                    },
                    HeldLocks::ThreadAndFile,
                ),
                _ => fail_load(RuntimeError::UnexpectedEvent, held),
            },
            LoadPhase::EnablingTracing { rebuilt } => match event {
                LoadEvent::Completed => self.register(load, rebuilt),
                LoadEvent::Failed { detail } => fail_load(
                    RuntimeError::SymbolResolution {
                        module: load.key.name.clone(),
                        symbol: trace_ever_on_symbol(),
                        detail,
                    },
                    HeldLocks::ThreadAndFile,
                ),
                _ => fail_load(RuntimeError::UnexpectedEvent, held),
            },
            LoadPhase::Finished => fail_load(RuntimeError::UnexpectedEvent, held),
        };
        self.library_map.keys_are_distinct();
        step
    }
}

/// The symbols that every model needs from its library: those that make,
/// destroy and evaluate an instance.
pub open spec fn spec_model_symbols(name: Seq<char>) -> Seq<Seq<char>> {
    seq![spec_constructor_symbol(name), spec_destructor_symbol(name), spec_evaluator_symbol(name)]
}

/// The symbols that were looked up, in order.
pub open spec fn looked_up(lookups: Seq<SymbolLookupView>) -> Seq<Seq<char>> {
    Seq::new(lookups.len(), |i: int| lookups[i].symbol)
}

/// A model whose library is loaded and has every symbol that the model
/// needs. Only with this in hand can a native instance be recorded: so
/// the symbols are resolved before the instance is made.
pub struct ModelConstruction {
    name: String,
    source_path: String,
    ports: Vec<PortDescriptor>,
    tracing: bool,
    library: usize,
}

/// What a [`ModelConstruction`] holds.
pub ghost struct ModelConstructionView {
    /// The name of the module.
    pub name: Seq<char>,
    /// The path of the module's definition.
    pub source_path: Seq<char>,
    /// The module's interface.
    pub ports: Seq<PortDescriptorView>,
    /// Whether the model is built with tracing.
    pub tracing: bool,
    /// The place of the model's library in the arena.
    pub library: int,
}

impl View for ModelConstruction {
    type V = ModelConstructionView;

    closed spec fn view(&self) -> ModelConstructionView {
        ModelConstructionView {
            name: self.name@,
            source_path: self.source_path@,
            ports: self.ports.deep_view(),
            tracing: self.tracing,
            library: self.library as int,
        }
    }
}

impl ModelConstruction {
    /// The place of the model's library in the arena.
    pub fn library(&self) -> (library: usize)
        ensures
            library == self@.library,
    {
        self.library
    }
}

impl LibraryLoadView {
    /// Why no instance of the model may be made, if there is a reason: the
    /// signature does not pass; or the library of the key is not in the
    /// arena; or the symbols that were looked up are not the `required`
    /// ones in their order; or one of them is missing, of which the first
    /// is reported with the loader's words.
    pub open spec fn construction_error(
        self,
        runtime: VerilatorRuntimeView,
        required: Seq<Seq<char>>,
        lookups: Seq<SymbolLookupView>,
    ) -> Option<RuntimeErrorView> {
        if signature_error(self.build.top_module, self.build.ports) is Some {
            signature_error(self.build.top_module, self.build.ports)
        } else if library_index(runtime.libraries, self.key) >= runtime.libraries.len() {
            Some(RuntimeErrorView::UnexpectedEvent)
        } else if looked_up(lookups) != required {
            Some(RuntimeErrorView::UnexpectedEvent)
        } else if first_missing(lookups) < lookups.len() {
            Some(
                RuntimeErrorView::SymbolResolution {
                    module: self.build.top_module,
                    symbol: lookups[first_missing(lookups)].symbol,
                    detail: lookups[first_missing(lookups)].failure->0,
                },
            )
        } else {
            None
        }
    }

    /// What the construction of a model of this load holds.
    pub open spec fn construction(self, runtime: VerilatorRuntimeView) -> ModelConstructionView {
        ModelConstructionView {
            name: self.build.top_module,
            source_path: self.key.source_path,
            ports: self.build.ports,
            tracing: self.build.config.enable_tracing,
            library: library_index(runtime.libraries, self.key),
        }
    }
}

fn same_symbols(required: &Vec<String>, lookups: &Vec<SymbolLookup>) -> (same: bool)
    ensures
        same == (looked_up(lookups.deep_view()) == required.deep_view()),
{
    if required.len() != lookups.len() {
        assert(looked_up(lookups.deep_view()).len() != required.deep_view().len());
        return false;
    }
    let ghost wanted = required.deep_view();
    let ghost given = looked_up(lookups.deep_view());
    let mut i: usize = 0;
    while i < required.len()
        invariant
            i <= required.len(),
            required.len() == lookups.len(),
            wanted == required.deep_view(),
            given == looked_up(lookups.deep_view()),
            forall|j: int| 0 <= j < i ==> given[j] == wanted[j],
        decreases required.len() - i,
    {
        assert(wanted[i as int] == required[i as int]@);
        assert(lookups.deep_view()[i as int] == lookups[i as int]@);
        assert(given[i as int] == lookups[i as int]@.symbol);
        if !text_eq(required[i].as_str(), lookups[i].symbol.as_str()) {
            return false;
        }
        i = i + 1;
    }
    assert(given =~= wanted);
    true
}

impl VerilatorRuntime {
    /// The symbols that make, destroy and evaluate an instance of the
    /// module `name`: what is to be looked up before a dynamic model is
    /// made.
    pub fn model_symbols(name: &str) -> (symbols: Vec<String>)
        ensures
            symbols.deep_view() == spec_model_symbols(name@),
    {
        let mut symbols: Vec<String> = Vec::new();
        assert(symbols.deep_view() =~= Seq::<Seq<char>>::empty());
        push_text(&mut symbols, constructor_symbol(name));
        push_text(&mut symbols, destructor_symbol(name));
        push_text(&mut symbols, evaluator_symbol(name));
        assert(symbols.deep_view() =~= spec_model_symbols(name@));
        symbols
    }

    fn plan_construction(
        &self,
        load: &LibraryLoad,
        required: &Vec<String>,
        lookups: &Vec<SymbolLookup>,
    ) -> (outcome: Result<(ModelConstruction, NativeCall), RuntimeError>)
        ensures
            match outcome {
                Ok(plan) => load@.construction_error(
                    self@,
                    required.deep_view(),
                    lookups.deep_view(),
                ) is None && plan.0@ == load@.construction(self@) && plan.1@ == (
                NativeCallView::Construct {
                    symbol: spec_constructor_symbol(load@.build.top_module),
                }),
                Err(error) => Some(error@) == load@.construction_error(
                    self@,
                    required.deep_view(),
                    lookups.deep_view(),
                ),
            },
    {
        let name = load.build.top_module.as_str();
        match validate_signature(name, &load.build.ports) {
            Err(error) => {
                return Err(error);
            },
            Ok(()) => {},
        }
        let library = match self.find_library(&load.key) {
            Some(library) => library,
            None => {
                return Err(RuntimeError::UnexpectedEvent);
            },
        };
        if !same_symbols(required, lookups) {
            return Err(RuntimeError::UnexpectedEvent);
        }
        match check_symbols(name, lookups) {
            Err(error) => {
                return Err(error);
            },
            Ok(()) => {},
        }
        Ok(
            (
                ModelConstruction {
                    name: load.build.top_module.clone(),
                    source_path: load.key.source_path.clone(),
                    ports: duplicate_ports(&load.build.ports),
                    tracing: load.build.config.enable_tracing,
                    library,
                },
                NativeCall::Construct { symbol: constructor_symbol(name) },
            ),
        )
    }

    /// Decides whether an instance of the dynamic model of `load` may be
    /// made, given what the loader said of the symbols of
    /// [`Self::model_symbols`]. Where all were found, the call that makes
    /// the instance is handed out; otherwise nothing is made and the first
    /// missing symbol is reported with the module. The runtime and its
    /// ledger do not change either way.
    pub fn plan_dyn_model(&self, load: &LibraryLoad, lookups: &Vec<SymbolLookup>) -> (outcome:
        Result<(ModelConstruction, NativeCall), RuntimeError>)
        ensures
            match outcome {
                Ok(plan) => load@.construction_error(
                    self@,
                    spec_model_symbols(load@.build.top_module),
                    lookups.deep_view(),
                ) is None && plan.0@ == load@.construction(self@) && plan.1@ == (
                NativeCallView::Construct {
                    symbol: spec_constructor_symbol(load@.build.top_module),
                }),
                Err(error) => Some(error@) == load@.construction_error(
                    self@,
                    spec_model_symbols(load@.build.top_module),
                    lookups.deep_view(),
                ),
            },
    {
        let required = VerilatorRuntime::model_symbols(load.build.top_module.as_str());
        self.plan_construction(load, &required, lookups)
    }

    /// Decides whether an instance of the model with fixed ports of `load`
    /// may be made, given what the loader said of the symbols that
    /// `required_symbols` lists for it: the destructor, the constructor,
    /// the evaluator, the accessors of all ports and, with tracing, the
    /// symbols of the trace.
    pub fn plan_model(&self, load: &LibraryLoad, lookups: &Vec<SymbolLookup>) -> (outcome: Result<
        (ModelConstruction, NativeCall),
        RuntimeError,
    >)
        ensures
            match outcome {
                Ok(plan) => load@.construction_error(
                    self@,
                    spec_required_symbols(
                        load@.build.top_module,
                        load@.build.ports,
                        load@.build.config.enable_tracing,
                    ),
                    lookups.deep_view(),
                ) is None && plan.0@ == load@.construction(self@) && plan.1@ == (
                NativeCallView::Construct {
                    symbol: spec_constructor_symbol(load@.build.top_module),
                }),
                Err(error) => Some(error@) == load@.construction_error(
                    self@,
                    spec_required_symbols(
                        load@.build.top_module,
                        load@.build.ports,
                        load@.build.config.enable_tracing,
                    ),
                    lookups.deep_view(),
                ),
            },
    {
        let required = required_symbols(
            load.build.top_module.as_str(),
            &load.build.ports,
            load.build.config.enable_tracing,
        );
        self.plan_construction(load, &required, lookups)
    }

    /// Makes the dynamic model of the native instance `main`, which was
    /// made by the call of `construction`, and records that the instance
    /// is owed its destruction in the library of the construction.
    pub fn create_dyn_model(&mut self, construction: ModelConstruction, main: usize) -> (outcome:
        Result<DynamicVerilatedModel, RuntimeError>)
        ensures
            outcome is Ok <==> signature_error(construction@.name, construction@.ports) is None,
            outcome matches Err(e) ==> final(self)@ == old(self)@ && Some(e@) == signature_error(
                construction@.name,
                construction@.ports,
            ),
            outcome matches Ok(model) ==> model@ == (DynamicVerilatedModelView {
                ports: port_table(construction@.ports),
                name: construction@.name,
                main,
                library: construction@.library as usize,
            }) && final(self)@ == old(self)@.with_ledger(
                old(self)@.ledger.push(
                    DeallocatorView {
                        handle: main,
                        library: construction@.library as usize,
                        symbol: spec_destructor_symbol(construction@.name),
                    },
                ),
            ),
    {
        let name = construction.name.as_str();
        match DynamicVerilatedModel::new(name, &construction.ports, main, construction.library) {
            Err(error) => Err(error),
            Ok(model) => {
                self.model_deallocators.record(
                    main,
                    construction.library,
                    destructor_symbol(name),
                );
                Ok(model)
            },
        }
    }

    /// Makes the model with fixed ports of the native instance `model`,
    /// which was made by the call of `construction`, and records that the
    /// instance is owed its destruction in the library of the
    /// construction.
    pub fn create_model(
        &mut self,
        construction: ModelConstruction,
        clock_port: Option<&str>,
        model: usize,
    ) -> (outcome: Result<VerilatedModel, RuntimeError>)
        ensures
            outcome is Ok <==> signature_error(construction@.name, construction@.ports) is None,
            outcome matches Err(e) ==> final(self)@ == old(self)@ && Some(e@) == signature_error(
                construction@.name,
                construction@.ports,
            ),
            outcome matches Ok(made) ==> made@.wf() && made@ == (VerilatedModelView {
                name: construction@.name,
                source_path: construction@.source_path,
                ports: construction@.ports,
                values: zero_values(construction@.ports),
                clock: match clock_port {
                    Some(clock) => clock_index(construction@.ports, clock@),
                    None => None,
                },
                model,
                library: construction@.library as usize,
                tracing: construction@.tracing,
                opened_vcd: false,
            }) && final(self)@ == old(self)@.with_ledger(
                old(self)@.ledger.push(
                    DeallocatorView {
                        handle: model,
                        library: construction@.library as usize,
                        symbol: spec_destructor_symbol(construction@.name),
                    },
                ),
            ),
    {
        let name = construction.name.as_str();
        match VerilatedModel::new(
            name,
            construction.source_path.as_str(),
            &construction.ports,
            clock_port,
            model,
            construction.library,
            construction.tracing,
        ) {
            Err(error) => Err(error),
            Ok(made) => {
                self.model_deallocators.record(
                    model,
                    construction.library,
                    destructor_symbol(name),
                );
                Ok(made)
            },
        }
    }

    /// Gives up the native instance `handle` of the library at `library`:
    /// it is taken off the ledger, and the call that destroys it is handed
    /// back. An instance that is not on the ledger, because it was given
    /// up before, gets no second call.
    pub fn release_model(&mut self, library: usize, handle: usize) -> (call: Option<NativeCall>)
        ensures
            ({
                let at = first_entry(old(self)@.ledger, library, handle);
                &&& at >= old(self)@.ledger.len() ==> call is None && final(self)@ == old(self)@
                &&& at < old(self)@.ledger.len() ==> call is Some && call->0@ == old(
                    self,
                )@.ledger[at].call() && final(self)@ == old(self)@.with_ledger(
                    old(self)@.ledger.remove(at),
                )
            }),
    {
        self.model_deallocators.release(library, handle)
    }

    /// Tears the models down: hands back the calls that destroy every
    /// native instance that is still on the ledger, each with the place
    /// of its library, and empties the ledger. The libraries are to be
    /// closed after these calls, all together.
    pub fn drop_models(&mut self) -> (calls: Vec<PlacedCall>)
        ensures
            calls.deep_view() == destroy_calls(old(self)@.ledger),
            final(self)@ == old(self)@.with_ledger(Seq::empty()),
    {
        self.model_deallocators.drain()
    }
}

} // verus!
