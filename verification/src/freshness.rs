//! Whether a compiled library is still good for its sources.

use crate::error::{IoOperation, RuntimeError, RuntimeErrorView};
use vstd::prelude::*;
use vstd::string::*;

verus! {

/// What is known of a file after asking for its modification time, which
/// counts nanoseconds from the epoch.
#[derive(Debug, Clone)]
pub enum Probe {
    /// There is no such file.
    Missing,
    /// The file is there, but its metadata cannot be read.
    Unreadable { detail: String },
    /// The file was last modified at `at`.
    Modified { at: i128 },
}

/// What a [`Probe`] holds.
pub ghost enum ProbeView {
    Missing,
    Unreadable { detail: Seq<char> },
    Modified { at: int },
}

impl View for Probe {
    type V = ProbeView;

    open spec fn view(&self) -> ProbeView {
        match self {
            Probe::Missing => ProbeView::Missing,
            Probe::Unreadable { detail } => ProbeView::Unreadable { detail: detail@ },
            Probe::Modified { at } => ProbeView::Modified { at: *at as int },
        }
    }
}

impl DeepView for Probe {
    type V = ProbeView;

    open spec fn deep_view(&self) -> ProbeView {
        self@
    }
}

impl ProbeView {
    /// Whether this source settles the question for a library built at
    /// `built`: it cannot be read, or it is newer.
    pub open spec fn decides(self, built: int) -> bool {
        match self {
            ProbeView::Modified { at } => at > built,
            _ => true,
        }
    }
}

/// The least index of a source that settles the question, or
/// `sources.len()` if none does.
pub open spec fn first_decisive(sources: Seq<ProbeView>, built: int) -> int
    decreases sources.len(),
{
    if sources.len() == 0 {
        0
    } else if first_decisive(sources.drop_last(), built) < sources.len() - 1 {
        first_decisive(sources.drop_last(), built)
    } else if sources.last().decides(built) {
        sources.len() - 1
    } else {
        sources.len() as int
    }
}

/// The path of the source at `index`, or the empty text where `paths` is
/// too short.
pub open spec fn path_at(paths: Seq<Seq<char>>, index: int) -> Seq<char> {
    if 0 <= index < paths.len() {
        paths[index]
    } else {
        Seq::empty()
    }
}

/// Whether the library has to be built again: when it is missing, or when
/// a source is newer than it. The sources are taken in order, and the
/// first that cannot be read is an error, unless an earlier one is newer.
pub open spec fn spec_needs_rebuild(
    source_paths: Seq<Seq<char>>,
    sources: Seq<ProbeView>,
    library_path: Seq<char>,
    library: ProbeView,
) -> Result<bool, RuntimeErrorView> {
    match library {
        ProbeView::Missing => Ok(true),
        ProbeView::Unreadable { detail } => Err(
            RuntimeErrorView::Io {
                operation: IoOperation::ReadMetadata,
                path: library_path,
                detail,
            },
        ),
        ProbeView::Modified { at: built } => {
            let i = first_decisive(sources, built);
            if i >= sources.len() {
                Ok(false)
            } else {
                match sources[i] {
                    ProbeView::Modified { .. } => Ok(true),
                    ProbeView::Missing => Err(
                        RuntimeErrorView::SourceMissing { path: path_at(source_paths, i) },
                    ),
                    ProbeView::Unreadable { detail } => Err(
                        RuntimeErrorView::Io {
                            operation: IoOperation::ReadMetadata,
                            path: path_at(source_paths, i),
                            detail,
                        },
                    ),
                }
            }
        },
    }
}

/// `first_decisive` is the least index of a source that decides.
pub proof fn lemma_first_decisive(sources: Seq<ProbeView>, built: int)
    ensures
        0 <= first_decisive(sources, built) <= sources.len(),
        first_decisive(sources, built) < sources.len() ==> sources[first_decisive(
            sources,
            built,
        )].decides(built),
        forall|j: int|
            0 <= j < first_decisive(sources, built) ==> !(#[trigger] sources[j]).decides(built),
    decreases sources.len(),
{
    if sources.len() > 0 {
        lemma_first_decisive(sources.drop_last(), built);
        assert forall|j: int| 0 <= j < first_decisive(sources, built) implies !(
        #[trigger] sources[j]).decides(built) by {
            if j < sources.len() - 1 {
                assert(sources.drop_last()[j] == sources[j]);
            }
        }
        if first_decisive(sources.drop_last(), built) < sources.len() - 1 {
            assert(sources.drop_last()[first_decisive(sources.drop_last(), built)]
                == sources[first_decisive(sources, built)]);
        }
    }
}

proof fn lemma_first_decisive_prefix(sources: Seq<ProbeView>, built: int, i: int, n: int)
    requires
        0 <= i < n,
        n <= sources.len(),
        first_decisive(sources.take(n), built) == i,
    ensures
        first_decisive(sources, built) == i,
    decreases sources.len() - n,
{
    if n < sources.len() {
        assert(sources.take(n + 1).drop_last() =~= sources.take(n));
        lemma_first_decisive_prefix(sources, built, i, n + 1);
    } else {
        assert(sources.take(n) =~= sources);
    }
}

/// Where every file could be read, the library is built again exactly when
/// some source was modified after it.
pub proof fn lemma_rebuild_iff_source_newer(
    source_paths: Seq<Seq<char>>,
    sources: Seq<ProbeView>,
    library_path: Seq<char>,
    built: int,
)
    requires
        forall|j: int| 0 <= j < sources.len() ==> (#[trigger] sources[j]) is Modified,
    ensures
        spec_needs_rebuild(
            source_paths,
            sources,
            library_path,
            ProbeView::Modified { at: built },
        ) == Ok::<bool, RuntimeErrorView>(
            exists|j: int| 0 <= j < sources.len() && (#[trigger] sources[j])->at > built,
        ),
{
    lemma_first_decisive(sources, built);
    let i = first_decisive(sources, built);
    if i < sources.len() {
        assert(sources[i] is Modified);
        assert(sources[i]->at > built);
    } else {
        assert forall|j: int| 0 <= j < sources.len() implies !((#[trigger] sources[j])->at
            > built) by {
            assert(!sources[j].decides(built));
        }
    }
}

/// Decides whether the library at `library_path` has to be built again,
/// from the modification times of the library and of the declared sources.
/// No other file has a say.
pub fn needs_verilator_rebuild(
    source_files: &Vec<String>,
    sources: &Vec<Probe>,
    library_path: &str,
    library: &Probe,
) -> (outcome: Result<bool, RuntimeError>)
    ensures
        match outcome {
            Ok(needed) => spec_needs_rebuild(
                source_files.deep_view(),
                sources.deep_view(),
                library_path@,
                library@,
            ) == Ok::<bool, RuntimeErrorView>(needed),
            Err(e) => spec_needs_rebuild(
                source_files.deep_view(),
                sources.deep_view(),
                library_path@,
                library@,
            ) == Err::<bool, RuntimeErrorView>(e@),
        },
{
    let ghost views = sources.deep_view();
    match library {
        Probe::Missing => Ok(true),
        Probe::Unreadable { detail } => Err(
            RuntimeError::Io {
                operation: IoOperation::ReadMetadata,
                path: library_path.to_owned(),
                detail: detail.clone(),
            },
        ),
        Probe::Modified { at } => {
            let built: i128 = *at;
            let mut i: usize = 0;
            while i < sources.len()
                invariant
                    i <= sources.len(),
                    views == sources.deep_view(),
                    library@ == (ProbeView::Modified { at: built as int }),
                    first_decisive(views.take(i as int), built as int) == i,
                decreases sources.len() - i,
            {
                proof {
                    assert(views.take(i + 1).drop_last() =~= views.take(i as int));
                    assert(views.take(i + 1).last() == sources[i as int]@);
                }
                match &sources[i] {
                    Probe::Modified { at: edited } => {
                        if *edited > built {
                            proof {
                                lemma_first_decisive_prefix(views, built as int, i as int, i + 1);
                                assert(views[i as int] == sources[i as int]@);
                            }
                            return Ok(true);
                        }
                    },
                    Probe::Missing => {
                        proof {
                            lemma_first_decisive_prefix(views, built as int, i as int, i + 1);
                            assert(views[i as int] == sources[i as int]@);
                        }
                        let path = if i < source_files.len() {
                            assert(source_files.deep_view()[i as int] == source_files[i as int]@);
                            source_files[i].clone()
                        } else {
                            String::new()
                        };
                        return Err(RuntimeError::SourceMissing { path });
                    },
                    Probe::Unreadable { detail } => {
                        proof {
                            lemma_first_decisive_prefix(views, built as int, i as int, i + 1);
                            assert(views[i as int] == sources[i as int]@);
                        }
                        let path = if i < source_files.len() {
                            assert(source_files.deep_view()[i as int] == source_files[i as int]@);
                            source_files[i].clone()
                        } else {
                            String::new()
                        };
                        return Err(
                            RuntimeError::Io {
                                operation: IoOperation::ReadMetadata,
                                path,
                                detail: detail.clone(),
                            },
                        );
                    },
                }
                i = i + 1;
            }
            assert(views.take(sources.len() as int) =~= views);
            Ok(false)
        },
    }
}

} // verus!
