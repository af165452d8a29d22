//! Mapping of logical request paths to paths on disk.

use vstd::prelude::*;
use vstd::string::*;

verus! {

/// The directory that every served document is looked up in.
pub open spec fn root_dir() -> Seq<char> {
    "files/"@
}

/// The on-disk path of a logical path: the root directory followed by the
/// logical path, character for character.
pub open spec fn disk_path(logical: Seq<char>) -> Seq<char> {
    root_dir() + logical
}

/// Resolves a logical path to its path on disk.
///
/// The logical path is appended to the root directory as it is: nothing is
/// normalised and a path that climbs out of the root (`../`) is not rejected.
pub fn path_on_disk(path_to_file: &str) -> (disk: String)
    ensures
        disk@ == disk_path(path_to_file@),
{
    String::from_str("files/").concat(path_to_file)
}

/// The root directory is six characters long and ends in a separator.
pub proof fn lemma_root_dir_shape()
    ensures
        root_dir().len() == 6,
        root_dir() =~= seq!['f', 'i', 'l', 'e', 's', '/'],
{
    reveal_strlit("files/");
}

/// Resolution adds the root and changes nothing else: the logical path can be
/// read back, unchanged, behind the root directory.
pub proof fn lemma_disk_path_keeps_logical(logical: Seq<char>)
    ensures
        disk_path(logical).len() == root_dir().len() + logical.len(),
        disk_path(logical).subrange(0, root_dir().len() as int) == root_dir(),
        disk_path(logical).subrange(root_dir().len() as int, disk_path(logical).len() as int)
            == logical,
{
    let d = disk_path(logical);
    let n = root_dir().len() as int;
    assert(d.subrange(0, n) =~= root_dir());
    assert(d.subrange(n, d.len() as int) =~= logical);
}

/// Resolution is injective: two logical paths with the same path on disk are
/// the same logical path.
pub proof fn lemma_disk_path_injective(a: Seq<char>, b: Seq<char>)
    requires
        disk_path(a) == disk_path(b),
    ensures
        a == b,
{
    lemma_disk_path_keeps_logical(a);
    lemma_disk_path_keeps_logical(b);
}

} // verus!
