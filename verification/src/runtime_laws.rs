//! What holds of every load, however the driver's reports fall.

use crate::build_laws::glue_write;
use crate::build_library::BuildPhase;
use crate::runtime::{
    distinct, lemma_library_index, library_index, load_step, looked_up, source_provided,
    HeldLocks,
    LibraryArenaKeyView, LibraryLoadView, LoadActionView, LoadEventView, LoadPhase,
    VerilatorRuntimeView,
};
use crate::config::VerilatedModelConfigView;
use crate::paths::{
    directory_prefix, is_absolute, lemma_component_determined, lemma_join_determined, no_slash,
};
use crate::port::PortDescriptorView;
use crate::signature::{signature_error, spec_artifact_directory_name, spec_cache_key};
use crate::symbols::{lemma_first_missing, SymbolLookupView};
use crate::signature_laws::{
    lemma_directory_name_determined, lemma_directory_name_is_a_component,
};
use vstd::prelude::*;

verus! {

/// A load driven from its start by `events`: the runtime as it then is,
/// the phase that the load has reached, and everything the driver was
/// asked to do, in order.
pub open spec fn load_run(
    runtime: VerilatorRuntimeView,
    load: LibraryLoadView,
    events: Seq<LoadEventView>,
) -> (VerilatorRuntimeView, LoadPhase, Seq<LoadActionView>)
    decreases events.len(),
{
    if events.len() == 0 {
        (runtime, LoadPhase::Start, Seq::empty())
    } else {
        let before = load_run(runtime, load, events.drop_last());
        let step = load_step(before.0, load, before.1, events.last());
        (step.0, step.1, before.2.push(step.2))
    }
}

/// The locks that are held once `event` has been reported in `phase`.
pub open spec fn held_after(phase: LoadPhase, event: LoadEventView) -> HeldLocks {
    if phase == LoadPhase::LockingThread && event is Completed {
        HeldLocks::Thread
    } else if phase == LoadPhase::LockingFile && event is Completed {
        HeldLocks::ThreadAndFile
    } else {
        phase.held()
    }
}

/// Whether the action works on the artifact directory or on the library:
/// a step of the build, the opening of the library, or a call into it.
pub open spec fn touches_artifacts(action: LoadActionView) -> bool {
    action is Build || action is OpenLibrary || action is Call
}

/// Whether the action asks for the compiler.
pub open spec fn compiles(action: LoadActionView) -> bool {
    action matches LoadActionView::Build { action } && action is RunCompiler
}

/// Whether the action hands out a library that was loaded before.
pub open spec fn reuses(action: LoadActionView) -> bool {
    action matches LoadActionView::Done { newly_loaded, release, .. } && !newly_loaded && release
        == HeldLocks::Neither
}

/// Whether the action hands the library its host functions.
pub open spec fn gives_callbacks(action: LoadActionView) -> bool {
    action matches LoadActionView::Call { call } && call is InitializeCallbacks
}

/// Whether the action switches tracing on in the library.
pub open spec fn enables_tracing(action: LoadActionView) -> bool {
    action matches LoadActionView::Call { call } && call is TraceEverOn
}

/// Whether the action ends the load with a library that was just opened.
pub open spec fn newly_loads(action: LoadActionView) -> bool {
    action matches LoadActionView::Done { newly_loaded, .. } && newly_loaded
}

/// Whether the action ends the load.
pub open spec fn ends(action: LoadActionView) -> bool {
    action is Done || action is Fail
}

/// The locks that an ending action tells the driver to give back.
pub open spec fn released(action: LoadActionView) -> HeldLocks {
    match action {
        LoadActionView::Done { release, .. } => release,
        LoadActionView::Fail { release, .. } => release,
        _ => HeldLocks::Neither,
    }
}

/// Every step leaves the settings of the runtime and its ledger alone, and
/// the arena as it was or with the key of this load at its end. After the
/// step the load holds the locks that it held before and those that the
/// driver has just taken; where the step ends the load, these are the
/// locks that it gives back. The place that a load ends with is the place
/// of its key. The arena grows only when a load ends with a library that
/// was just opened: a load that fails leaves no entry.
pub proof fn lemma_load_step(
    runtime: VerilatorRuntimeView,
    load: LibraryLoadView,
    phase: LoadPhase,
    event: LoadEventView,
)
    ensures
        ({
            let step = load_step(runtime, load, phase, event);
            &&& step.0 == runtime || (step.0 == runtime.with_library(load.key) && library_index(
                runtime.libraries,
                load.key,
            ) == runtime.libraries.len())
            &&& distinct(runtime.libraries) ==> distinct(step.0.libraries)
            &&& ends(step.2) ==> step.1 == LoadPhase::Finished && released(step.2) == held_after(
                phase,
                event,
            )
            &&& !ends(step.2) ==> step.1.held() == held_after(phase, event)
            &&& step.2 matches LoadActionView::Done { library, .. } ==> library < step.0.libraries.len()
                && library == library_index(step.0.libraries, load.key)
            &&& step.0 != runtime ==> newly_loads(step.2)
            &&& step.2 is Fail ==> step.0 == runtime
        }),
{
    let step = load_step(runtime, load, phase, event);
    lemma_library_index(runtime.libraries, load.key);
    if step.0 != runtime {
        let added = runtime.libraries.push(load.key);
        assert(step.0.libraries == added);
        lemma_index_of_pushed(runtime.libraries, load.key);
        if distinct(runtime.libraries) {
            assert forall|i: int, j: int| 0 <= i < j < added.len() implies #[trigger] added[i]
                != #[trigger] added[j] by {
                if j < runtime.libraries.len() {
                    assert(runtime.libraries[i] != runtime.libraries[j]);
                } else {
                    assert(runtime.libraries[i] != load.key);
                }
            }
        }
    }
}

/// A key that is put at the end of an arena that did not hold it is found
/// at that place.
pub proof fn lemma_index_of_pushed(libraries: Seq<LibraryArenaKeyView>, key: LibraryArenaKeyView)
    requires
        library_index(libraries, key) == libraries.len(),
    ensures
        library_index(libraries.push(key), key) == libraries.len(),
    decreases libraries.len(),
{
    if libraries.len() > 0 {
        assert(libraries.push(key).drop_first() =~= libraries.drop_first().push(key));
        lemma_index_of_pushed(libraries.drop_first(), key);
    } else {
        assert(libraries.push(key)[0] == key);
    }
}

/// A library keeps its place when another is added to the arena.
pub proof fn lemma_index_is_stable(
    libraries: Seq<LibraryArenaKeyView>,
    key: LibraryArenaKeyView,
    other: LibraryArenaKeyView,
)
    requires
        library_index(libraries, key) < libraries.len(),
    ensures
        library_index(libraries.push(other), key) == library_index(libraries, key),
    decreases libraries.len(),
{
    if libraries.len() > 0 && libraries[0] != key {
        assert(libraries.push(other).drop_first() =~= libraries.drop_first().push(other));
        lemma_index_is_stable(libraries.drop_first(), key, other);
    }
}

/// Asking again for a library that the runtime has loaded hands out the
/// same place of the arena, with no lock, no build, no opening and no
/// initialization, and leaves the runtime as it is.
pub proof fn lemma_loaded_library_is_reused(
    runtime: VerilatorRuntimeView,
    load: LibraryLoadView,
    source: Option<Seq<char>>,
    files: Seq<Option<Seq<char>>>,
)
    requires
        load.error() is None,
        library_index(runtime.libraries, load.key) < runtime.libraries.len(),
        source_provided(files, source),
    ensures
        load_run(
            runtime,
            load,
            seq![LoadEventView::Begin, LoadEventView::SourceChecked { source, files }],
        ) == (
            runtime,
            LoadPhase::Finished,
            seq![
                LoadActionView::CheckSource {
                    source_path: load.key.source_path,
                    source_files: load.build.source_files,
                },
                LoadActionView::Done {
                    library: library_index(runtime.libraries, load.key),
                    newly_loaded: false,
                    rebuilt: false,
                    release: HeldLocks::Neither,
                },
            ],
        ),
{
    reveal_with_fuel(load_run, 3);
    let events = seq![LoadEventView::Begin, LoadEventView::SourceChecked { source, files }];
    assert(events.drop_last() =~= seq![LoadEventView::Begin]);
    assert(events.drop_last().drop_last() =~= Seq::<LoadEventView>::empty());
    let first = load_run(runtime, load, events.drop_last());
    assert(first.2 =~= seq![
        LoadActionView::CheckSource {
            source_path: load.key.source_path,
            source_files: load.build.source_files,
        },
    ]);
    let second = load_run(runtime, load, events);
    assert(second.2 =~= seq![
        LoadActionView::CheckSource {
            source_path: load.key.source_path,
            source_files: load.build.source_files,
        },
        LoadActionView::Done {
            library: library_index(runtime.libraries, load.key),
            newly_loaded: false,
            rebuilt: false,
            release: HeldLocks::Neither,
        },
    ]);
}

/// Whether some action of `actions` satisfies `wanted`.
pub open spec fn some_action(
    actions: Seq<LoadActionView>,
    wanted: spec_fn(LoadActionView) -> bool,
) -> bool {
    exists|k: int| 0 <= k < actions.len() && wanted(#[trigger] actions[k])
}

/// How many actions of `actions` satisfy `wanted`.
pub open spec fn count_actions(
    actions: Seq<LoadActionView>,
    wanted: spec_fn(LoadActionView) -> bool,
) -> nat
    decreases actions.len(),
{
    if actions.len() == 0 {
        0
    } else {
        count_actions(actions.drop_last(), wanted) + if wanted(actions.last()) {
            1nat
        } else {
            0nat
        }
    }
}

spec fn before_thread_lock(phase: LoadPhase) -> bool {
    phase == LoadPhase::Start || phase == LoadPhase::CheckingSource || phase
        == LoadPhase::CreatingDirectory
}

spec fn before_callbacks(phase: LoadPhase) -> bool {
    before_thread_lock(phase) || phase == LoadPhase::LockingThread || phase
        == LoadPhase::LockingFile || phase is Building || phase is Opening
}

spec fn before_tracing(phase: LoadPhase) -> bool {
    before_callbacks(phase) || phase is InitializingCallbacks
}

spec fn run_invariant(load: LibraryLoadView, phase: LoadPhase, actions: Seq<LoadActionView>) -> bool {
    &&& before_thread_lock(phase) ==> !some_action(actions, |a: LoadActionView| a is LockThread)
    &&& before_thread_lock(phase) || phase == LoadPhase::LockingThread ==> !some_action(
        actions,
        |a: LoadActionView| a is LockFile,
    )
    &&& before_thread_lock(phase) || phase == LoadPhase::LockingThread || phase
        == LoadPhase::LockingFile ==> !some_action(
        actions,
        |a: LoadActionView| touches_artifacts(a),
    )
    &&& phase != LoadPhase::Finished ==> !some_action(actions, |a: LoadActionView| reuses(a))
    &&& phase == LoadPhase::LockingThread ==> actions.len() > 0 && actions.last() is LockThread
    &&& phase == (LoadPhase::Building { build: BuildPhase::WritingFfi }) ==> actions.len() > 0
        && actions.last() == (LoadActionView::Build { action: glue_write(load.build) })
    &&& forall|k: int|
        0 <= k < actions.len() && (#[trigger] actions[k]) is LockFile ==> k > 0 && actions[k
            - 1] is LockThread
    &&& forall|k: int|
        0 <= k < actions.len() && compiles(#[trigger] actions[k]) ==> k > 0 && actions[k - 1] == (
        LoadActionView::Build { action: glue_write(load.build) })
    &&& some_action(actions, |a: LoadActionView| touches_artifacts(a)) ==> some_action(
        actions,
        |a: LoadActionView| a is LockFile,
    )
    &&& some_action(actions, |a: LoadActionView| reuses(a)) ==> !some_action(
        actions,
        |a: LoadActionView| a is LockThread,
    ) && !some_action(actions, |a: LoadActionView| touches_artifacts(a))
    &&& count_actions(actions, |a: LoadActionView| gives_callbacks(a)) <= 1
    &&& before_callbacks(phase) ==> count_actions(actions, |a: LoadActionView| gives_callbacks(a))
        == 0
    &&& count_actions(actions, |a: LoadActionView| enables_tracing(a)) <= 1
    &&& before_tracing(phase) ==> count_actions(actions, |a: LoadActionView| enables_tracing(a))
        == 0
    &&& load.error() is Some ==> (phase == LoadPhase::Start || phase == LoadPhase::Finished)
        && forall|k: int| 0 <= k < actions.len() ==> (#[trigger] actions[k]) is Fail
}

proof fn lemma_some_action_push(
    actions: Seq<LoadActionView>,
    action: LoadActionView,
    wanted: spec_fn(LoadActionView) -> bool,
)
    ensures
        some_action(actions.push(action), wanted) <==> some_action(actions, wanted) || wanted(
            action,
        ),
        count_actions(actions.push(action), wanted) == count_actions(actions, wanted) + if wanted(
            action,
        ) {
            1nat
        } else {
            0nat
        },
{
    let pushed = actions.push(action);
    assert(pushed.drop_last() =~= actions);
    if some_action(pushed, wanted) {
        let k = choose|k: int| 0 <= k < pushed.len() && wanted(#[trigger] pushed[k]);
        if k < actions.len() {
            assert(wanted(actions[k]));
        }
    }
    if some_action(actions, wanted) {
        let k = choose|k: int| 0 <= k < actions.len() && wanted(#[trigger] actions[k]);
        assert(wanted(pushed[k]));
    }
    if wanted(action) {
        assert(wanted(pushed[actions.len() as int]));
    }
}

#[verifier::rlimit(60)]
proof fn lemma_run_invariant(
    runtime: VerilatorRuntimeView,
    load: LibraryLoadView,
    events: Seq<LoadEventView>,
)
    ensures
        run_invariant(load, load_run(runtime, load, events).1, load_run(runtime, load, events).2),
    decreases events.len(),
{
    if events.len() > 0 {
        lemma_run_invariant(runtime, load, events.drop_last());
        let before = load_run(runtime, load, events.drop_last());
        let step = load_step(before.0, load, before.1, events.last());
        let actions = before.2.push(step.2);
        lemma_some_action_push(before.2, step.2, |a: LoadActionView| a is LockThread);
        lemma_some_action_push(before.2, step.2, |a: LoadActionView| a is LockFile);
        lemma_some_action_push(before.2, step.2, |a: LoadActionView| touches_artifacts(a));
        lemma_some_action_push(before.2, step.2, |a: LoadActionView| reuses(a));
        lemma_some_action_push(before.2, step.2, |a: LoadActionView| gives_callbacks(a));
        lemma_some_action_push(before.2, step.2, |a: LoadActionView| enables_tracing(a));
        assert forall|k: int| 0 <= k < actions.len() implies (k < before.2.len() ==> actions[k]
            == before.2[k]) && (k == before.2.len() ==> actions[k] == step.2) by {}
        assert(run_invariant(load, step.1, actions));
    }
}

/// The lock among processes is never asked for unless the step just
/// before was to take the lock among threads.
pub proof fn lemma_thread_lock_before_file_lock(
    runtime: VerilatorRuntimeView,
    load: LibraryLoadView,
    events: Seq<LoadEventView>,
    k: int,
)
    requires
        0 <= k < load_run(runtime, load, events).2.len(),
        load_run(runtime, load, events).2[k] is LockFile,
    ensures
        k > 0,
        load_run(runtime, load, events).2[k - 1] is LockThread,
{
    lemma_run_invariant(runtime, load, events);
}

/// Nothing is built, opened or called unless the lock among processes was
/// asked for.
pub proof fn lemma_locked_before_building(
    runtime: VerilatorRuntimeView,
    load: LibraryLoadView,
    events: Seq<LoadEventView>,
)
    requires
        some_action(load_run(runtime, load, events).2, |a: LoadActionView| touches_artifacts(a)),
    ensures
        some_action(load_run(runtime, load, events).2, |a: LoadActionView| a is LockFile),
{
    lemma_run_invariant(runtime, load, events);
}

/// The compiler is never asked to run unless the step just before was the
/// write of the glue source of this very load.
pub proof fn lemma_glue_written_before_compiling(
    runtime: VerilatorRuntimeView,
    load: LibraryLoadView,
    events: Seq<LoadEventView>,
    k: int,
)
    requires
        0 <= k < load_run(runtime, load, events).2.len(),
        compiles(load_run(runtime, load, events).2[k]),
    ensures
        k > 0,
        load_run(runtime, load, events).2[k - 1] == (LoadActionView::Build {
            action: glue_write(load.build),
        }),
{
    lemma_run_invariant(runtime, load, events);
}

/// A load that hands out a library that was loaded before takes no lock
/// and touches neither the artifact directory nor the library: it does not
/// compile, open or initialize anything.
pub proof fn lemma_reuse_touches_nothing(
    runtime: VerilatorRuntimeView,
    load: LibraryLoadView,
    events: Seq<LoadEventView>,
)
    requires
        some_action(load_run(runtime, load, events).2, |a: LoadActionView| reuses(a)),
    ensures
        !some_action(load_run(runtime, load, events).2, |a: LoadActionView| a is LockThread),
        !some_action(load_run(runtime, load, events).2, |a: LoadActionView| touches_artifacts(a)),
{
    lemma_run_invariant(runtime, load, events);
}

/// In one load the library is given its host functions at most once, and
/// tracing is switched on at most once.
pub proof fn lemma_setup_at_most_once(
    runtime: VerilatorRuntimeView,
    load: LibraryLoadView,
    events: Seq<LoadEventView>,
)
    ensures
        count_actions(
            load_run(runtime, load, events).2,
            |a: LoadActionView| gives_callbacks(a),
        ) <= 1,
        count_actions(
            load_run(runtime, load, events).2,
            |a: LoadActionView| enables_tracing(a),
        ) <= 1,
{
    lemma_run_invariant(runtime, load, events);
}

/// A request that does not pass validation touches nothing: whatever the
/// driver reports, it is only ever told to stop with an error.
pub proof fn lemma_invalid_load_touches_nothing(
    runtime: VerilatorRuntimeView,
    load: LibraryLoadView,
    events: Seq<LoadEventView>,
    k: int,
)
    requires
        load.error() is Some,
        0 <= k < load_run(runtime, load, events).2.len(),
    ensures
        load_run(runtime, load, events).2[k] is Fail,
{
    lemma_run_invariant(runtime, load, events);
}

/// However a load goes, the arena of the runtime only grows, and by at
/// most the library of this load; no library comes to be in it twice.
pub proof fn lemma_arena_only_grows(
    runtime: VerilatorRuntimeView,
    load: LibraryLoadView,
    events: Seq<LoadEventView>,
)
    requires
        distinct(runtime.libraries),
    ensures
        ({
            let after = load_run(runtime, load, events).0;
            &&& after == runtime || (after == runtime.with_library(load.key) && library_index(
                runtime.libraries,
                load.key,
            ) == runtime.libraries.len())
            &&& distinct(after.libraries)
        }),
    decreases events.len(),
{
    if events.len() > 0 {
        lemma_arena_only_grows(runtime, load, events.drop_last());
        let before = load_run(runtime, load, events.drop_last());
        lemma_load_step(before.0, load, before.1, events.last());
        if before.0 != runtime {
            lemma_index_of_pushed(runtime.libraries, load.key);
            lemma_load_step_found(before.0, load, before.1, events.last());
        }
    }
}

/// A step of a load whose library is in the arena leaves the runtime as it
/// is.
proof fn lemma_load_step_found(
    runtime: VerilatorRuntimeView,
    load: LibraryLoadView,
    phase: LoadPhase,
    event: LoadEventView,
)
    requires
        library_index(runtime.libraries, load.key) < runtime.libraries.len(),
    ensures
        load_step(runtime, load, phase, event).0 == runtime,
{
}

/// Caching is idempotent: once a load has ended with a library, however
/// it got there, the same request asked again of the runtime as it then is
/// ends with the library at the same place, and all that the driver is
/// asked for is the canonical form of the sources. Nothing is locked, built,
/// opened or initialized a second time.
pub proof fn lemma_repeated_load_is_reused(
    runtime: VerilatorRuntimeView,
    load: LibraryLoadView,
    events: Seq<LoadEventView>,
    source: Option<Seq<char>>,
    files: Seq<Option<Seq<char>>>,
)
    requires
        load_run(runtime, load, events).2.len() > 0,
        load_run(runtime, load, events).2.last() is Done,
        source_provided(files, source),
    ensures
        ({
            let first = load_run(runtime, load, events);
            load_run(
                first.0,
                load,
                seq![LoadEventView::Begin, LoadEventView::SourceChecked { source, files }],
            ) == (
                first.0,
                LoadPhase::Finished,
                seq![
                    LoadActionView::CheckSource {
                        source_path: load.key.source_path,
                        source_files: load.build.source_files,
                    },
                    LoadActionView::Done {
                        library: first.2.last()->Done_library,
                        newly_loaded: false,
                        rebuilt: false,
                        release: HeldLocks::Neither,
                    },
                ],
            )
        }),
{
    let first = load_run(runtime, load, events);
    assert(events.len() > 0);
    let before = load_run(runtime, load, events.drop_last());
    lemma_load_step(before.0, load, before.1, events.last());
    if load.error() is Some {
        lemma_invalid_load_touches_nothing(runtime, load, events, first.2.len() - 1);
    }
    lemma_loaded_library_is_reused(first.0, load, source, files);
}

/// Any number of loads on one runtime, their steps interleaved in any
/// order: each step is taken by one load in the phase that this load has
/// reached, and the runtime goes from step to step.
pub open spec fn shared_run(
    runtime: VerilatorRuntimeView,
    steps: Seq<(LibraryLoadView, LoadPhase, LoadEventView)>,
) -> (VerilatorRuntimeView, Seq<LoadActionView>)
    decreases steps.len(),
{
    if steps.len() == 0 {
        (runtime, Seq::empty())
    } else {
        let before = shared_run(runtime, steps.drop_last());
        let step = load_step(before.0, steps.last().0, steps.last().1, steps.last().2);
        (step.0, before.1.push(step.2))
    }
}

/// However the steps of any number of loads of one key fall, the arena
/// comes to hold the library of that key at most once, and every load
/// that ends well is handed the same place: the place of the key.
pub proof fn lemma_loads_of_one_key_share_a_library(
    runtime: VerilatorRuntimeView,
    key: LibraryArenaKeyView,
    steps: Seq<(LibraryLoadView, LoadPhase, LoadEventView)>,
)
    requires
        distinct(runtime.libraries),
        forall|i: int| 0 <= i < steps.len() ==> (#[trigger] steps[i]).0.key == key,
    ensures
        ({
            let run = shared_run(runtime, steps);
            &&& distinct(run.0.libraries)
            &&& run.0 == runtime || (run.0 == runtime.with_library(key) && library_index(
                runtime.libraries,
                key,
            ) == runtime.libraries.len())
            &&& forall|k: int|
                0 <= k < run.1.len() && (#[trigger] run.1[k]) is Done ==> run.1[k]->Done_library
                    == library_index(run.0.libraries, key) && run.1[k]->Done_library
                    < run.0.libraries.len()
        }),
    decreases steps.len(),
{
    if steps.len() > 0 {
        let earlier = steps.drop_last();
        assert forall|i: int| 0 <= i < earlier.len() implies (#[trigger] earlier[i]).0.key
            == key by {
            assert(earlier[i] == steps[i]);
        }
        lemma_loads_of_one_key_share_a_library(runtime, key, earlier);
        let before = shared_run(runtime, earlier);
        let last = steps.last();
        assert(last == steps[steps.len() - 1]);
        lemma_load_step(before.0, last.0, last.1, last.2);
        let step = load_step(before.0, last.0, last.1, last.2);
        let run = shared_run(runtime, steps);
        if before.0 != runtime {
            lemma_index_of_pushed(runtime.libraries, key);
            lemma_load_step_found(before.0, last.0, last.1, last.2);
        }
        assert forall|k: int| 0 <= k < run.1.len() && (#[trigger] run.1[k]) is Done implies run.1[k]->Done_library
            == library_index(run.0.libraries, key) && run.1[k]->Done_library
            < run.0.libraries.len() by {
            if k < before.1.len() {
                assert(run.1[k] == before.1[k]);
                if step.0 != before.0 {
                    lemma_index_is_stable(before.0.libraries, key, key);
                }
            }
        }
    }
}

/// Two requests to one runtime share an artifact directory, and with it a
/// lock file, exactly when they have one key: one module name, one source
/// path and one cache key. Two modules of one name in different files are
/// thus kept apart on disk, and so are two configurations with different
/// cache keys.
pub proof fn lemma_directories_follow_keys(
    runtime: VerilatorRuntimeView,
    name: Seq<char>,
    source_path: Seq<char>,
    ports: Seq<PortDescriptorView>,
    config: VerilatedModelConfigView,
    other_name: Seq<char>,
    other_source_path: Seq<char>,
    other_ports: Seq<PortDescriptorView>,
    other_config: VerilatedModelConfigView,
)
    ensures
        ({
            let load = runtime.load(name, source_path, ports, config);
            let other = runtime.load(other_name, other_source_path, other_ports, other_config);
            &&& load.key == other.key <==> name == other_name && source_path == other_source_path
                && spec_cache_key(ports, config) == spec_cache_key(other_ports, other_config)
            &&& load.key == other.key <==> load.build.artifact_directory
                == other.build.artifact_directory
            &&& load.key == other.key <==> load.lock_file() == other.lock_file()
        }),
{
    let load = runtime.load(name, source_path, ports, config);
    let other = runtime.load(other_name, other_source_path, other_ports, other_config);
    let key = spec_cache_key(ports, config);
    let other_key = spec_cache_key(other_ports, other_config);
    let directory = spec_artifact_directory_name(name, source_path, key);
    let other_directory = spec_artifact_directory_name(other_name, other_source_path, other_key);
    let root = runtime.artifact_directory;
    lemma_directory_name_is_a_component(name, source_path, key);
    lemma_directory_name_is_a_component(other_name, other_source_path, other_key);
    assert(load.directory_name() == directory);
    assert(other.directory_name() == other_directory);
    assert(!is_absolute(directory));
    assert(!is_absolute(other_directory));
    if load.build.artifact_directory == other.build.artifact_directory {
        lemma_join_determined(root, directory, other_directory);
        lemma_directory_name_determined(
            name,
            source_path,
            key,
            other_name,
            other_source_path,
            other_key,
        );
    }
    if load.lock_file() == other.lock_file() {
        let file = directory + ".lock"@;
        let other_file = other_directory + ".lock"@;
        let slash = seq!['/'];
        let prefix = directory_prefix(root);
        assert(file[0] == directory[0]);
        assert(other_file[0] == other_directory[0]);
        let place = load.build.artifact_directory;
        let other_place = other.build.artifact_directory;
        assert(place == prefix + directory);
        assert(other_place == prefix + other_directory);
        assert(place.last() == directory.last());
        assert(other_place.last() == other_directory.last());
        assert(load.lock_file() =~= prefix + (directory + slash + file));
        assert(other.lock_file() =~= prefix + (other_directory + slash + other_file));
        assert((prefix + (directory + slash + file)).skip(prefix.len() as int) =~= directory
            + slash + file);
        assert((prefix + (other_directory + slash + other_file)).skip(prefix.len() as int)
            =~= other_directory + slash + other_file);
        assert(no_slash(directory));
        assert(no_slash(other_directory));
        lemma_component_determined(directory, file, other_directory, other_file);
        lemma_directory_name_determined(
            name,
            source_path,
            key,
            other_name,
            other_source_path,
            other_key,
        );
    }
}

/// Two keys that are both in the arena have one place only if they are one
/// key: different requests that are loaded are different entries.
pub proof fn lemma_places_follow_keys(
    libraries: Seq<LibraryArenaKeyView>,
    key: LibraryArenaKeyView,
    other: LibraryArenaKeyView,
)
    requires
        library_index(libraries, key) < libraries.len(),
        library_index(libraries, other) < libraries.len(),
    ensures
        library_index(libraries, key) == library_index(libraries, other) <==> key == other,
{
    lemma_library_index(libraries, key);
    lemma_library_index(libraries, other);
}

/// Where the construction of a model is allowed, the signature passes
/// validation, the library of the key is in the arena, and every required
/// symbol was looked up and found.
pub proof fn lemma_construction_allowed(
    runtime: VerilatorRuntimeView,
    load: LibraryLoadView,
    required: Seq<Seq<char>>,
    lookups: Seq<SymbolLookupView>,
)
    requires
        load.construction_error(runtime, required, lookups) is None,
    ensures
        signature_error(load.build.top_module, load.build.ports) is None,
        library_index(runtime.libraries, load.key) < runtime.libraries.len(),
        lookups.len() == required.len(),
        forall|i: int|
            0 <= i < required.len() ==> (#[trigger] lookups[i]).symbol == required[i]
                && lookups[i].failure is None,
{
    lemma_first_missing(lookups);
    assert forall|i: int| 0 <= i < required.len() implies (#[trigger] lookups[i]).symbol
        == required[i] && lookups[i].failure is None by {
        assert(looked_up(lookups)[i] == lookups[i].symbol);
    }
}

} // verus!
