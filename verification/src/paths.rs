//! Paths inside an artifact directory.

use vstd::prelude::*;
use vstd::string::*;

verus! {

/// What stands before a child of the directory `base` in the child's path:
/// the directory and a slash, unless the directory is empty or ends in a
/// slash already.
pub open spec fn directory_prefix(base: Seq<char>) -> Seq<char> {
    if base.len() == 0 || base.last() == '/' {
        base
    } else {
        base + seq!['/']
    }
}

/// Whether a path begins at the root.
pub open spec fn is_absolute(path: Seq<char>) -> bool {
    path.len() > 0 && path[0] == '/'
}

/// The path of `child` under `base`, as paths are joined on Unix: a child
/// that begins at the root stands alone; any other child follows the
/// directory, with a slash between them where the directory does not end
/// in one.
pub open spec fn joined_path(base: Seq<char>, child: Seq<char>) -> Seq<char> {
    if is_absolute(child) {
        child
    } else {
        directory_prefix(base) + child
    }
}

/// Calls `camino::Utf8Path::join` on `base` with `child`. The contract is
/// what the join gives on a Unix target, which is what this library is
/// made for: the child alone if it is absolute, else the base, a slash
/// unless the base is empty or ends in one, and the child.
#[verifier::external_body]
pub(crate) fn join_path(base: &str, child: &str) -> (path: String)
    ensures
        path@ == joined_path(base@, child@),
{
    camino::Utf8Path::new(base).join(child).into_string()
}

/// The directory of the glue source under the artifact directory.
pub open spec fn spec_ffi_directory(artifacts: Seq<char>) -> Seq<char> {
    joined_path(artifacts, "ffi"@)
}

/// The directory of the compiler's output under the artifact directory.
pub open spec fn spec_object_directory(artifacts: Seq<char>) -> Seq<char> {
    joined_path(artifacts, "obj_dir"@)
}

/// The directory of the callback glue under the artifact directory.
pub open spec fn spec_dpi_directory(artifacts: Seq<char>) -> Seq<char> {
    joined_path(artifacts, "dpi"@)
}

/// The glue source file.
pub open spec fn spec_ffi_file(artifacts: Seq<char>) -> Seq<char> {
    joined_path(spec_ffi_directory(artifacts), "ffi.cpp"@)
}

/// The callback glue file.
pub open spec fn spec_dpi_file(artifacts: Seq<char>) -> Seq<char> {
    joined_path(spec_dpi_directory(artifacts), "dpi.cpp"@)
}

/// The name under which the compiler is asked to create the library.
pub open spec fn spec_library_name(top: Seq<char>) -> Seq<char> {
    "marlin_V"@ + top
}

/// The shared library that the compiler leaves for the model `top`.
pub open spec fn spec_library_path(artifacts: Seq<char>, top: Seq<char>) -> Seq<char> {
    joined_path(spec_object_directory(artifacts), "lib"@ + spec_library_name(top) + ".so"@)
}

/// The lock file of the artifact directory `directory`, whose name is
/// `name`: it lies in the directory and is called after it.
pub open spec fn spec_lock_file(directory: Seq<char>, name: Seq<char>) -> Seq<char> {
    joined_path(directory, name + ".lock"@)
}

/// Builds [`spec_ffi_directory`].
pub fn ffi_directory(artifacts: &str) -> (path: String)
    ensures
        path@ == spec_ffi_directory(artifacts@),
{
    join_path(artifacts, "ffi")
}

/// Builds [`spec_object_directory`].
pub fn object_directory(artifacts: &str) -> (path: String)
    ensures
        path@ == spec_object_directory(artifacts@),
{
    join_path(artifacts, "obj_dir")
}

/// Builds [`spec_dpi_directory`].
pub fn dpi_directory(artifacts: &str) -> (path: String)
    ensures
        path@ == spec_dpi_directory(artifacts@),
{
    join_path(artifacts, "dpi")
}

/// Builds [`spec_ffi_file`].
pub fn ffi_file(artifacts: &str) -> (path: String)
    ensures
        path@ == spec_ffi_file(artifacts@),
{
    let directory = ffi_directory(artifacts);
    join_path(directory.as_str(), "ffi.cpp")
}

/// Builds [`spec_dpi_file`].
pub fn dpi_file(artifacts: &str) -> (path: String)
    ensures
        path@ == spec_dpi_file(artifacts@),
{
    let directory = dpi_directory(artifacts);
    join_path(directory.as_str(), "dpi.cpp")
}

/// Builds [`spec_library_name`].
pub fn library_name(top: &str) -> (name: String)
    ensures
        name@ == spec_library_name(top@),
{
    let mut name = "marlin_V".to_owned();
    name.append(top);
    name
}

/// Builds [`spec_library_path`].
pub fn library_path(artifacts: &str, top: &str) -> (path: String)
    ensures
        path@ == spec_library_path(artifacts@, top@),
{
    let directory = object_directory(artifacts);
    let mut file = "lib".to_owned();
    let name = library_name(top);
    file.append(name.as_str());
    file.append(".so");
    join_path(directory.as_str(), file.as_str())
}

/// Builds [`spec_lock_file`].
pub fn lock_file(directory: &str, name: &str) -> (path: String)
    ensures
        path@ == spec_lock_file(directory@, name@),
{
    let mut file = name.to_owned();
    file.append(".lock");
    join_path(directory, file.as_str())
}

/// Whether a text holds no slash, and so names nothing below or above
/// where it stands.
pub open spec fn no_slash(text: Seq<char>) -> bool {
    forall|i: int| 0 <= i < text.len() ==> text[i] != '/'
}

/// Under one directory, two children that do not begin at the root have
/// one path only if they are one child.
pub proof fn lemma_join_determined(base: Seq<char>, child: Seq<char>, other: Seq<char>)
    requires
        !is_absolute(child),
        !is_absolute(other),
        joined_path(base, child) == joined_path(base, other),
    ensures
        child == other,
{
    let prefix = directory_prefix(base);
    assert((prefix + child).skip(prefix.len() as int) =~= child);
    assert((prefix + other).skip(prefix.len() as int) =~= other);
}

/// Where a text without a slash is followed by a slash, the text is told
/// by the whole: it ends at the first slash.
pub proof fn lemma_component_determined(
    name: Seq<char>,
    rest: Seq<char>,
    other_name: Seq<char>,
    other_rest: Seq<char>,
)
    requires
        no_slash(name),
        no_slash(other_name),
        name + seq!['/'] + rest == other_name + seq!['/'] + other_rest,
    ensures
        name == other_name,
        rest == other_rest,
{
    let left = name + seq!['/'] + rest;
    let right = other_name + seq!['/'] + other_rest;
    assert(left[name.len() as int] == '/');
    assert(right[other_name.len() as int] == '/');
    if name.len() < other_name.len() {
        assert(right[name.len() as int] == other_name[name.len() as int]);
        assert(false);
    }
    if other_name.len() < name.len() {
        assert(left[other_name.len() as int] == name[other_name.len() as int]);
        assert(false);
    }
    assert(name =~= left.take(name.len() as int));
    assert(other_name =~= right.take(name.len() as int));
    assert(rest =~= left.skip(name.len() as int + 1));
    assert(other_rest =~= right.skip(name.len() as int + 1));
}

/// The lock file of a directory lies in the directory: its path is the
/// directory, a slash where the directory does not end in one, and the
/// name of the file, which holds no slash where the directory's name holds
/// none.
pub proof fn lemma_lock_file_inside(directory: Seq<char>, name: Seq<char>)
    requires
        name.len() > 0,
        name[0] != '/',
    ensures
        spec_lock_file(directory, name) == directory_prefix(directory) + (name + ".lock"@),
{
    assert((name + ".lock"@)[0] == name[0]);
}

/// The glue source and the callback glue of one artifact directory are
/// two files.
pub proof fn lemma_glue_files_differ(artifacts: Seq<char>)
    ensures
        spec_ffi_file(artifacts) != spec_dpi_file(artifacts),
{
    reveal_strlit("ffi.cpp");
    reveal_strlit("dpi.cpp");
    let ffi = spec_ffi_file(artifacts);
    let dpi = spec_dpi_file(artifacts);
    let ffi_prefix = directory_prefix(spec_ffi_directory(artifacts));
    let dpi_prefix = directory_prefix(spec_dpi_directory(artifacts));
    assert("ffi.cpp"@.len() == 7 && "ffi.cpp"@[0] == 'f');
    assert("dpi.cpp"@.len() == 7 && "dpi.cpp"@[0] == 'd');
    assert(ffi == ffi_prefix + "ffi.cpp"@);
    assert(dpi == dpi_prefix + "dpi.cpp"@);
    assert(ffi[ffi.len() - 7] == 'f');
    assert(dpi[dpi.len() - 7] == 'd');
}

} // verus!
