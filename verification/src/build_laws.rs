//! What holds of every build, however the driver's reports fall.

use crate::build_library::{
    build_step, BuildActionView, BuildEventView, BuildPhase, BuildRequestView,
};
use crate::freshness::{lemma_rebuild_iff_source_newer, ProbeView};
use crate::glue::ffi_text;
use crate::paths::spec_ffi_file;
use vstd::prelude::*;

verus! {

/// A build driven from its start by `events`: the phase it has reached and
/// everything the driver was asked to do, in order.
pub open spec fn build_run(request: BuildRequestView, events: Seq<BuildEventView>) -> (
    BuildPhase,
    Seq<BuildActionView>,
)
    decreases events.len(),
{
    if events.len() == 0 {
        (BuildPhase::Start, Seq::empty())
    } else {
        let before = build_run(request, events.drop_last());
        let step = build_step(request, before.0, events.last());
        (step.0, before.1.push(step.1))
    }
}

/// The write of the glue source of `request`.
pub open spec fn glue_write(request: BuildRequestView) -> BuildActionView {
    BuildActionView::WriteText {
        path: spec_ffi_file(request.artifact_directory),
        contents: ffi_text(request.top_module, request.ports, request.config.enable_tracing),
    }
}

/// Whether the compiler was asked to run.
pub open spec fn compiler_ran(actions: Seq<BuildActionView>) -> bool {
    exists|k: int| 0 <= k < actions.len() && (#[trigger] actions[k]) is RunCompiler
}

/// Whether the action ends the build with the library that was on disk.
pub open spec fn keeps(action: BuildActionView) -> bool {
    action matches BuildActionView::Done { rebuilt, .. } && !rebuilt
}

/// Whether the action ends the build with a library that was just compiled.
pub open spec fn rebuilds(action: BuildActionView) -> bool {
    action matches BuildActionView::Done { rebuilt, .. } && rebuilt
}

/// Whether the build said that the library on disk is good as it is.
pub open spec fn kept_library(actions: Seq<BuildActionView>) -> bool {
    exists|k: int| 0 <= k < actions.len() && keeps(#[trigger] actions[k])
}

/// Whether the driver was asked for anything but to stop with an error.
pub open spec fn only_failures(actions: Seq<BuildActionView>) -> bool {
    forall|k: int| 0 <= k < actions.len() ==> (#[trigger] actions[k]) is Fail
}

spec fn before_compiling(phase: BuildPhase) -> bool {
    phase != BuildPhase::Compiling && phase != BuildPhase::Finished
}

spec fn run_invariant(
    request: BuildRequestView,
    phase: BuildPhase,
    actions: Seq<BuildActionView>,
) -> bool {
    &&& before_compiling(phase) ==> !compiler_ran(actions) && !kept_library(actions)
    &&& phase == BuildPhase::WritingFfi ==> actions.len() > 0 && actions.last() == glue_write(
        request,
    )
    &&& phase == BuildPhase::Compiling ==> actions.len() > 0 && actions.last() is RunCompiler
        && !kept_library(actions)
    &&& !(compiler_ran(actions) && kept_library(actions))
    &&& forall|k: int|
        0 <= k < actions.len() && (#[trigger] actions[k]) is RunCompiler ==> k > 0 && actions[k
            - 1] == glue_write(request)
    &&& forall|k: int|
        0 <= k < actions.len() && rebuilds(#[trigger] actions[k]) ==> k > 0 && actions[k
            - 1] is RunCompiler
    &&& request.error() is Some ==> only_failures(actions) && (phase == BuildPhase::Start || phase
        == BuildPhase::Finished)
}

proof fn lemma_run_invariant(request: BuildRequestView, events: Seq<BuildEventView>)
    ensures
        run_invariant(request, build_run(request, events).0, build_run(request, events).1),
    decreases events.len(),
{
    if events.len() > 0 {
        lemma_run_invariant(request, events.drop_last());
        let before = build_run(request, events.drop_last());
        let step = build_step(request, before.0, events.last());
        let actions = before.1.push(step.1);
        assert forall|k: int| 0 <= k < actions.len() implies (k < before.1.len() ==> actions[k]
            == before.1[k]) && (k == before.1.len() ==> actions[k] == step.1) by {}
        if compiler_ran(actions) && !(step.1 is RunCompiler) {
            let k = choose|k: int| 0 <= k < actions.len() && (#[trigger] actions[k]) is RunCompiler;
            assert(before.1[k] is RunCompiler);
        }
        if kept_library(actions) && !keeps(step.1) {
            let k = choose|k: int| 0 <= k < actions.len() && keeps(#[trigger] actions[k]);
            assert(keeps(before.1[k]));
        }
        assert(run_invariant(request, step.0, actions));
    }
}

/// The compiler is never asked to run unless the step just before was the
/// write of the glue source of this very request.
pub proof fn lemma_glue_written_before_compiler(
    request: BuildRequestView,
    events: Seq<BuildEventView>,
    k: int,
)
    requires
        0 <= k < build_run(request, events).1.len(),
        build_run(request, events).1[k] is RunCompiler,
    ensures
        k > 0,
        build_run(request, events).1[k - 1] == glue_write(request),
{
    lemma_run_invariant(request, events);
}

/// A build that keeps the library on disk has not asked for the compiler,
/// and will not.
pub proof fn lemma_kept_library_never_compiles(
    request: BuildRequestView,
    events: Seq<BuildEventView>,
)
    requires
        kept_library(build_run(request, events).1),
    ensures
        !compiler_ran(build_run(request, events).1),
{
    lemma_run_invariant(request, events);
}

/// A build that reports a rebuilt library has run the compiler in the step
/// just before.
pub proof fn lemma_rebuilt_means_compiled(
    request: BuildRequestView,
    events: Seq<BuildEventView>,
    k: int,
)
    requires
        0 <= k < build_run(request, events).1.len(),
        rebuilds(build_run(request, events).1[k]),
    ensures
        k > 0,
        build_run(request, events).1[k - 1] is RunCompiler,
{
    lemma_run_invariant(request, events);
}

/// A request that does not pass validation touches nothing: whatever the
/// driver reports, it is only ever told to stop with an error.
pub proof fn lemma_invalid_request_touches_nothing(
    request: BuildRequestView,
    events: Seq<BuildEventView>,
)
    requires
        request.error() is Some,
    ensures
        only_failures(build_run(request, events).1),
{
    lemma_run_invariant(request, events);
}

/// Once the modification times are known and all could be read, a build
/// that is not forced and did not write the callback glue goes on to
/// compile exactly when the library is older than some declared source.
/// Files that are not declared sources are never asked about.
pub proof fn lemma_touched_source_rebuilds(
    request: BuildRequestView,
    built: int,
    sources: Seq<ProbeView>,
)
    requires
        sources.len() == request.source_files.len(),
        forall|j: int| 0 <= j < sources.len() ==> (#[trigger] sources[j]) is Modified,
    ensures
        ({
            let step = build_step(
                request,
                BuildPhase::Probing { dpi_rebuilt: false },
                BuildEventView::Modified { library: ProbeView::Modified { at: built }, sources },
            );
            let touched = exists|j: int|
                0 <= j < sources.len() && (#[trigger] sources[j])->at > built;
            &&& touched ==> step == (BuildPhase::Announcing, BuildActionView::Announce)
            &&& !touched ==> step == (
                BuildPhase::Finished,
                BuildActionView::Done { library_path: request.library_path(), rebuilt: false },
            )
        }),
{
    lemma_rebuild_iff_source_newer(request.source_files, sources, request.library_path(), built);
}

} // verus!
