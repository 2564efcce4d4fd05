//! Builds that follow one another in one artifact directory. The locks see
//! to it that builds in one directory do follow one another; here it is
//! shown what then holds: of any number of builds of one request, on a
//! disk that keeps what is written to it, only the first runs the compiler.

use crate::build_library::{
    build_step, BuildActionView, BuildEventView, BuildPhase, BuildRequestView,
};
use crate::dpi::dpi_text;
use crate::freshness::{lemma_rebuild_iff_source_newer, ProbeView};
use crate::paths::{lemma_glue_files_differ, spec_dpi_file};
use vstd::prelude::*;

verus! {

/// What a build can see and change of the world outside.
pub ghost struct Disk {
    /// The text files, by path.
    pub files: Map<Seq<char>, Seq<char>>,
    /// When the library was built, if it is there.
    pub library: Option<int>,
    /// When each declared source was last modified.
    pub sources: Seq<int>,
    /// The present time.
    pub now: int,
}

/// The modification times of the sources, as a probe reports them.
pub open spec fn probed(sources: Seq<int>) -> Seq<ProbeView> {
    Seq::new(sources.len(), |i: int| ProbeView::Modified { at: sources[i] })
}

/// What a driver that does as it is asked, on a disk on which nothing
/// fails, reports of an action, and how the disk then is. A compiler run
/// succeeds and leaves a library of the present time.
pub open spec fn respond(disk: Disk, action: BuildActionView) -> (Disk, BuildEventView) {
    match action {
        BuildActionView::ReadText { path } => (
            disk,
            BuildEventView::Text {
                contents: if disk.files.contains_key(path) {
                    Some(disk.files[path])
                } else {
                    None
                },
            },
        ),
        BuildActionView::WriteText { path, contents } => (
            Disk { files: disk.files.insert(path, contents), ..disk },
            BuildEventView::Completed,
        ),
        BuildActionView::ProbeModified { .. } => (
            disk,
            BuildEventView::Modified {
                library: match disk.library {
                    Some(at) => ProbeView::Modified { at },
                    None => ProbeView::Missing,
                },
                sources: probed(disk.sources),
            },
        ),
        BuildActionView::RunCompiler { .. } => (
            Disk { library: Some(disk.now), ..disk },
            BuildEventView::Exited {
                success: true,
                status: Seq::empty(),
                stdout: Seq::empty(),
                stderr: Seq::empty(),
            },
        ),
        _ => (disk, BuildEventView::Completed),
    }
}

/// Whether the action ends a build.
pub open spec fn ends_build(action: BuildActionView) -> bool {
    action is Done || action is Fail
}

/// A build driven on `disk` from `phase` and `event` until it ends, or for
/// `steps` steps at most: the disk as it is left, how many times the
/// compiler ran, and the action that came last.
pub open spec fn build_on(
    disk: Disk,
    request: BuildRequestView,
    phase: BuildPhase,
    event: BuildEventView,
    steps: nat,
) -> (Disk, nat, BuildActionView)
    decreases steps,
{
    let step = build_step(request, phase, event);
    if ends_build(step.1) || steps == 0 {
        (disk, 0, step.1)
    } else {
        let reply = respond(disk, step.1);
        let rest = build_on(reply.0, request, step.0, reply.1, (steps - 1) as nat);
        (
            rest.0,
            rest.1 + if step.1 is RunCompiler {
                1nat
            } else {
                0nat
            },
            rest.2,
        )
    }
}

/// A whole build on `disk`.
pub open spec fn whole_build(disk: Disk, request: BuildRequestView) -> (Disk, nat, BuildActionView) {
    build_on(disk, request, BuildPhase::Start, BuildEventView::Begin, 12)
}

/// The request can be built on the disk: it passes validation, no rebuild
/// is forced, the disk knows each declared source, and no source is of a
/// later time than the present.
pub open spec fn buildable(disk: Disk, request: BuildRequestView) -> bool {
    &&& request.error() is None
    &&& !request.options.force_verilator_rebuild
    &&& disk.sources.len() == request.source_files.len()
    &&& forall|i: int| 0 <= i < disk.sources.len() ==> #[trigger] disk.sources[i] <= disk.now
}

/// The artifacts on the disk are those of the request, and none is older
/// than a source: the library is there and no source is newer, and the
/// callback glue, where the request has callbacks, is the generated text.
pub open spec fn fresh(disk: Disk, request: BuildRequestView) -> bool {
    &&& disk.library is Some
    &&& forall|i: int|
        0 <= i < disk.sources.len() ==> #[trigger] disk.sources[i] <= disk.library->0
    &&& request.dpi_functions.len() > 0 ==> disk.files.contains_key(
        spec_dpi_file(request.artifact_directory),
    ) && disk.files[spec_dpi_file(request.artifact_directory)] == dpi_text(
        request.top_module,
        request.dpi_functions,
    )
}

proof fn lemma_probed(sources: Seq<int>, built: int)
    ensures
        forall|j: int| 0 <= j < probed(sources).len() ==> (#[trigger] probed(sources)[j]) is Modified,
        (exists|j: int| 0 <= j < probed(sources).len() && (#[trigger] probed(sources)[j])->at > built)
            <==> (exists|j: int| 0 <= j < sources.len() && #[trigger] sources[j] > built),
{
    if exists|j: int| 0 <= j < probed(sources).len() && (#[trigger] probed(sources)[j])->at > built {
        let j = choose|j: int|
            0 <= j < probed(sources).len() && (#[trigger] probed(sources)[j])->at > built;
        assert(sources[j] > built);
    }
    if exists|j: int| 0 <= j < sources.len() && #[trigger] sources[j] > built {
        let j = choose|j: int| 0 <= j < sources.len() && #[trigger] sources[j] > built;
        assert(probed(sources)[j]->at > built);
    }
}

/// A build on a disk whose artifacts are fresh keeps the library, does not
/// run the compiler, and leaves the disk as it is.
#[verifier::rlimit(80)]
pub proof fn lemma_fresh_build_keeps(disk: Disk, request: BuildRequestView)
    requires
        buildable(disk, request),
        fresh(disk, request),
    ensures
        whole_build(disk, request) == (
            disk,
            0nat,
            BuildActionView::Done { library_path: request.library_path(), rebuilt: false },
        ),
{
    reveal_with_fuel(build_on, 6);
    let built = disk.library->0;
    lemma_probed(disk.sources, built);
    lemma_rebuild_iff_source_newer(
        request.source_files,
        probed(disk.sources),
        request.library_path(),
        built,
    );
    assert(!(exists|j: int| 0 <= j < disk.sources.len() && #[trigger] disk.sources[j] > built));
}

/// A build on a disk without the library runs the compiler once, reports
/// a rebuilt library, and leaves the artifacts fresh.
#[verifier::rlimit(80)]
pub proof fn lemma_first_build_compiles_once(disk: Disk, request: BuildRequestView)
    requires
        buildable(disk, request),
        disk.library is None,
    ensures
        whole_build(disk, request).1 == 1,
        whole_build(disk, request).2 == (BuildActionView::Done {
            library_path: request.library_path(),
            rebuilt: true,
        }),
        buildable(whole_build(disk, request).0, request),
        fresh(whole_build(disk, request).0, request),
        whole_build(disk, request).0.sources == disk.sources,
        whole_build(disk, request).0.now == disk.now,
{
    reveal_with_fuel(build_on, 10);
    lemma_glue_files_differ(request.artifact_directory);
    lemma_rebuild_iff_source_newer(
        request.source_files,
        probed(disk.sources),
        request.library_path(),
        0,
    );
}

/// `count` builds of one request, one after the other: the disk as it is
/// left and how many times the compiler ran in all.
pub open spec fn serial_builds(disk: Disk, request: BuildRequestView, count: nat) -> (Disk, nat)
    decreases count,
{
    if count == 0 {
        (disk, 0)
    } else {
        let first = whole_build(disk, request);
        let rest = serial_builds(first.0, request, (count - 1) as nat);
        (rest.0, first.1 + rest.1)
    }
}

/// Of any number of builds of one request that follow one another in a
/// directory where the library was not yet built, the compiler runs in
/// the first and in no other: once in all.
pub proof fn lemma_serial_builds_compile_once(disk: Disk, request: BuildRequestView, count: nat)
    requires
        buildable(disk, request),
        disk.library is None,
        count >= 1,
    ensures
        serial_builds(disk, request, count).1 == 1,
{
    lemma_first_build_compiles_once(disk, request);
    let first = whole_build(disk, request);
    lemma_fresh_builds_never_compile(first.0, request, (count - 1) as nat);
}

/// Builds that follow one another on fresh artifacts never run the
/// compiler.
pub proof fn lemma_fresh_builds_never_compile(disk: Disk, request: BuildRequestView, count: nat)
    requires
        buildable(disk, request),
        fresh(disk, request),
    ensures
        serial_builds(disk, request, count) == (disk, 0nat),
    decreases count,
{
    if count > 0 {
        lemma_fresh_build_keeps(disk, request);
        lemma_fresh_builds_never_compile(disk, request, (count - 1) as nat);
    }
}

} // verus!
