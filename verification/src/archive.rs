//! The kinds of package archives.

use vstd::prelude::*;
use crate::text::{ends_with, has_suffix, to_chars};

verus! {

/// The format of a package archive.
#[derive(Clone, Copy, Debug, PartialEq, Eq, Structural)]
pub enum ArchiveType {
    /// A tar archive compressed with bzip2: the file name ends in `.tar.bz2`.
    TarBz2,
    /// A conda archive: the file name ends in `.conda`.
    Conda,
}

/// The ending of the name of a conda archive.
pub open spec fn conda_suffix() -> Seq<char> {
    seq!['.', 'c', 'o', 'n', 'd', 'a']
}

/// The ending of the name of a tar archive compressed with bzip2.
pub open spec fn tar_bz2_suffix() -> Seq<char> {
    seq!['.', 't', 'a', 'r', '.', 'b', 'z', '2']
}

impl ArchiveType {
    /// The format of the archive at `path`, as the ending of the path tells it.
    pub open spec fn of_path(path: Seq<char>) -> Option<ArchiveType> {
        if ends_with(path, conda_suffix()) {
            Some(ArchiveType::Conda)
        } else if ends_with(path, tar_bz2_suffix()) {
            Some(ArchiveType::TarBz2)
        } else {
            None
        }
    }

    /// Determines the format of the archive at `path` from the ending of the
    /// path. A path with neither ending is no package archive.
    pub fn try_from(path: &str) -> (r: Option<ArchiveType>)
        ensures
            r == Self::of_path(path@),
    {
        let chars = to_chars(path);
        let conda: Vec<char> = vec!['.', 'c', 'o', 'n', 'd', 'a'];
        let tar_bz2: Vec<char> = vec!['.', 't', 'a', 'r', '.', 'b', 'z', '2'];
        if has_suffix(&chars, &conda) {
            Some(ArchiveType::Conda)
        } else if has_suffix(&chars, &tar_bz2) {
            Some(ArchiveType::TarBz2)
        } else {
            None
        }
    }
}

} // verus!
