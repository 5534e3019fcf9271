//! The declared contents of a package and the record that identifies it.

use vstd::prelude::*;
use crate::digest::Sha256Hash;
use crate::filesystem::{IoError, IoErrorKind};
use crate::text::{find, from_chars, to_chars, until};

verus! {

/// The kind of file system object that an entry declares.
#[derive(Clone, Copy, Debug, PartialEq, Eq, Structural)]
pub enum PathType {
    /// A regular file.
    HardLink,
    /// A symbolic link.
    SoftLink,
    /// A directory.
    Directory,
}

/// One declared file system object of a package.
#[derive(Clone, Debug, PartialEq, Eq)]
pub struct PathsEntry {
    /// The path of the object, relative to the root of the package.
    pub relative_path: String,
    /// The kind of the object.
    pub path_type: PathType,
    /// The SHA-256 digest of the content, if it was recorded.
    pub sha256: Option<Sha256Hash>,
    /// The size of the content in bytes, if it was recorded.
    pub size_in_bytes: Option<u64>,
}

/// The mathematical value of a [`PathsEntry`].
pub struct PathsEntryView {
    pub relative_path: Seq<char>,
    pub path_type: PathType,
    pub sha256: Option<Seq<u8>>,
    pub size_in_bytes: Option<u64>,
}

impl View for PathsEntry {
    type V = PathsEntryView;

    open spec fn view(&self) -> PathsEntryView {
        PathsEntryView {
            relative_path: self.relative_path@,
            path_type: self.path_type,
            sha256: match self.sha256 {
                Some(hash) => Some(hash@),
                None => None,
            },
            size_in_bytes: self.size_in_bytes,
        }
    }
}

/// Where a path stands after one more component, `depth` components below the
/// root before it: `..` leads one up, `.` and an empty component lead nowhere,
/// and any other name leads one down.
pub open spec fn descend(component: Seq<char>, depth: int) -> int {
    if component =~= seq!['.', '.'] {
        depth - 1
    } else if component.len() == 0 || component =~= seq!['.'] {
        depth
    } else {
        depth + 1
    }
}

/// Walking `path` component by component from `depth` components below the
/// root never leads above the root.
pub open spec fn stays_inside(path: Seq<char>, depth: int) -> bool
    decreases path.len(),
{
    let n = until(path, '/') as int;
    let below = descend(path.take(n), depth);
    below >= 0 && (n < path.len() ==> stays_inside(path.skip(n + 1), below))
}

/// `path` is relative and does not leave the root of the package.
pub open spec fn is_relative(path: Seq<char>) -> bool {
    (path.len() > 0 ==> path[0] != '/') && stays_inside(path, 0)
}

impl PathsEntryView {
    /// The path stays inside the package, and only a regular file carries a
    /// size or a digest.
    pub open spec fn wf(self) -> bool {
        &&& is_relative(self.relative_path)
        &&& self.path_type != PathType::HardLink ==> {
            &&& self.sha256 is None
            &&& self.size_in_bytes is None
        }
    }

    /// The entry that a deprecated file list gives for `path`: a regular file
    /// of unknown size and digest.
    pub open spec fn listed(path: Seq<char>) -> PathsEntryView {
        PathsEntryView {
            relative_path: path,
            path_type: PathType::HardLink,
            sha256: None,
            size_in_bytes: None,
        }
    }
}

/// Whether `path` is relative and does not leave the root of the package.
pub fn is_relative_path(path: &str) -> (r: bool)
    ensures
        r == is_relative(path@),
{
    let chars = to_chars(path);
    if chars.len() > 0 && chars[0] == '/' {
        return false;
    }
    let mut start: usize = 0;
    let mut depth: usize = 0;
    assert(chars@.skip(0) =~= chars@);
    loop
        invariant
            chars@ == path@,
            chars@.len() > 0 ==> chars@[0] != '/',
            depth <= start <= chars.len(),
            stays_inside(chars@, 0) == stays_inside(chars@.skip(start as int), depth as int),
        decreases chars.len() - start,
    {
        let end = find(&chars, start, '/');
        let ghost rest = chars@.skip(start as int);
        let ghost above = depth as int;
        assert(end < chars.len() ==> rest.skip(end - start + 1) =~= chars@.skip(end + 1));
        assert(stays_inside(rest, above) == {
            let below = descend(chars@.subrange(start as int, end as int), above);
            below >= 0 && (end < chars.len() ==> stays_inside(chars@.skip(end + 1), below))
        });
        if end - start == 2 && chars[start] == '.' && chars[start + 1] == '.' {
            if depth == 0 {
                return false;
            }
            depth -= 1;
        } else if !(end - start == 0 || (end - start == 1 && chars[start] == '.')) {
            depth += 1;
        }
        if end >= chars.len() {
            return true;
        }
        start = end + 1;
    }
}

impl PathsEntry {
    /// An entry for the object at `relative_path`. Only a regular file is
    /// validated by its content: for a link or a directory a size or a digest is
    /// not kept.
    pub fn new(
        relative_path: String,
        path_type: PathType,
        sha256: Option<Sha256Hash>,
        size_in_bytes: Option<u64>,
    ) -> (r: PathsEntry)
        ensures
            r.relative_path == relative_path,
            r.path_type == path_type,
            r.sha256 == if path_type == PathType::HardLink { sha256 } else { None },
            r.size_in_bytes == if path_type == PathType::HardLink { size_in_bytes } else { None },
            is_relative(relative_path@) ==> r@.wf(),
    {
        match path_type {
            PathType::HardLink => PathsEntry { relative_path, path_type, sha256, size_in_bytes },
            _ => PathsEntry { relative_path, path_type, sha256: None, size_in_bytes: None },
        }
    }

    /// Whether the path of the entry stays inside the package and only a
    /// regular file carries a size or a digest.
    pub fn is_well_formed(&self) -> (r: bool)
        ensures
            r == self@.wf(),
    {
        let plain = match self.path_type {
            PathType::HardLink => true,
            _ => self.sha256.is_none() && self.size_in_bytes.is_none(),
        };
        plain && is_relative_path(self.relative_path.as_str())
    }
}

/// The declared contents of a package, in the order of declaration.
#[derive(Clone, Debug, PartialEq, Eq)]
pub struct PathsJson {
    /// The declared objects.
    pub paths: Vec<PathsEntry>,
}

/// The mathematical values of a list of entries.
pub open spec fn entry_views(entries: Seq<PathsEntry>) -> Seq<PathsEntryView> {
    Seq::new(entries.len(), |i: int| entries[i]@)
}

impl View for PathsJson {
    type V = Seq<PathsEntryView>;

    open spec fn view(&self) -> Seq<PathsEntryView> {
        entry_views(self.paths@)
    }
}

/// No two entries declare the same relative path.
pub open spec fn distinct_paths(paths: Seq<PathsEntryView>) -> bool {
    forall|i: int, j: int|
        0 <= i < j < paths.len() ==> (#[trigger] paths[i]).relative_path != (
        #[trigger] paths[j]).relative_path
}

/// What is said of declared contents that are not well formed.
pub const MALFORMED: &'static str = "the declared contents are malformed";

/// `e` is the failure that stands for declared contents that are not well
/// formed.
pub open spec fn is_malformed(e: IoError) -> bool {
    e.kind == IoErrorKind::InvalidData && e.message@ == MALFORMED@
}

/// The declared contents are well formed: every entry is, and no path is
/// declared twice.
pub open spec fn well_formed(paths: Seq<PathsEntryView>) -> bool {
    &&& forall|i: int| 0 <= i < paths.len() ==> (#[trigger] paths[i]).wf()
    &&& distinct_paths(paths)
}

/// The entries are those of a deprecated file list: each declares a regular
/// file, without size or digest.
pub open spec fn lists_files_only(paths: Seq<PathsEntryView>) -> bool {
    forall|i: int|
        0 <= i < paths.len() ==> {
            &&& (#[trigger] paths[i]).path_type == PathType::HardLink
            &&& paths[i].size_in_bytes is None
            &&& paths[i].sha256 is None
        }
}

/// A line without the carriage return at its end, if it has one.
pub open spec fn without_carriage_return(line: Seq<char>) -> Seq<char> {
    if line.len() > 0 && line.last() == '\r' {
        line.drop_last()
    } else {
        line
    }
}

/// The entries that a deprecated file list declares: one regular file for each
/// line of the list. A line ends at a line feed, and a carriage return before
/// the line feed is no part of the line. What follows the last line feed is a
/// line if it is not empty.
pub open spec fn deprecated_entries(files: Seq<char>) -> Seq<PathsEntryView>
    decreases files.len(),
{
    if files.len() == 0 {
        Seq::empty()
    } else {
        let n = until(files, '\n') as int;
        if n < files.len() {
            seq![PathsEntryView::listed(without_carriage_return(files.take(n)))]
                + deprecated_entries(files.skip(n + 1))
        } else {
            seq![PathsEntryView::listed(files)]
        }
    }
}

/// A deprecated file list declares regular files only, without size or digest.
pub proof fn lemma_deprecated_entries_list_files_only(files: Seq<char>)
    ensures
        lists_files_only(deprecated_entries(files)),
    decreases files.len(),
{
    if files.len() > 0 {
        let n = until(files, '\n') as int;
        if n < files.len() {
            lemma_deprecated_entries_list_files_only(files.skip(n + 1));
        }
    }
}

impl PathsJson {
    /// Whether no two entries declare the same path. Every entry is compared
    /// with every later one.
    fn has_distinct_paths(paths: &Vec<PathsEntry>) -> (r: bool)
        ensures
            r == distinct_paths(entry_views(paths@)),
    {
        let mut i: usize = 0;
        while i < paths.len()
            invariant
                i <= paths.len(),
                forall|a: int, b: int|
                    0 <= a < i && a < b < paths.len() ==> (#[trigger] paths@[a]).relative_path@ != (
                    #[trigger] paths@[b]).relative_path@,
            decreases paths.len() - i,
        {
            let mut j: usize = i + 1;
            while j < paths.len()
                invariant
                    i < j <= paths.len(),
                    forall|b: int|
                        i < b < j ==> paths@[i as int].relative_path@ != (
                        #[trigger] paths@[b]).relative_path@,
                decreases paths.len() - j,
            {
                if paths[i].relative_path == paths[j].relative_path {
                    assert(entry_views(paths@)[i as int].relative_path == entry_views(
                        paths@,
                    )[j as int].relative_path);
                    return false;
                }
                j += 1;
            }
            i += 1;
        }
        true
    }

    /// Whether every entry of `paths` is well formed.
    fn has_well_formed_entries(paths: &Vec<PathsEntry>) -> (r: bool)
        ensures
            r == forall|i: int| 0 <= i < paths.len() ==> (#[trigger] entry_views(paths@)[i]).wf(),
    {
        let mut i: usize = 0;
        while i < paths.len()
            invariant
                i <= paths.len(),
                forall|k: int| 0 <= k < i ==> (#[trigger] entry_views(paths@)[k]).wf(),
            decreases paths.len() - i,
        {
            if !paths[i].is_well_formed() {
                assert(!entry_views(paths@)[i as int].wf());
                return false;
            }
            i += 1;
        }
        true
    }

    /// Whether the declared contents are well formed: every path stays inside
    /// the package, only regular files carry a size or a digest, and no path is
    /// declared twice.
    pub fn is_well_formed(&self) -> (r: bool)
        ensures
            r == well_formed(self@),
    {
        Self::has_well_formed_entries(&self.paths) && Self::has_distinct_paths(&self.paths)
    }

    /// The declared contents with the entries `paths`, if they are well formed.
    /// Contents that are not are malformed data.
    pub fn new(paths: Vec<PathsEntry>) -> (r: Result<PathsJson, IoError>)
        ensures
            match r {
                Ok(declared) => declared.paths == paths && well_formed(declared@),
                Err(e) => !well_formed(entry_views(paths@)) && is_malformed(e),
            },
    {
        let declared = PathsJson { paths };
        if declared.is_well_formed() {
            Ok(declared)
        } else {
            Err(IoError { kind: IoErrorKind::InvalidData, message: MALFORMED.to_owned() })
        }
    }

    /// Rebuilds the declared contents of a package from the text of its
    /// deprecated file list: one regular file for each line, of unknown size and
    /// digest. A list whose paths are not well formed is malformed data.
    pub fn from_deprecated(files: &str) -> (r: Result<PathsJson, IoError>)
        ensures
            match r {
                Ok(declared) => {
                    &&& declared@ == deprecated_entries(files@)
                    &&& well_formed(declared@)
                    &&& lists_files_only(declared@)
                },
                Err(e) => !well_formed(deprecated_entries(files@)) && is_malformed(e),
            },
    {
        let chars = to_chars(files);
        let mut paths: Vec<PathsEntry> = Vec::new();
        let mut start: usize = 0;
        assert(chars@.skip(0) =~= chars@);
        while start < chars.len()
            invariant
                chars@ == files@,
                start <= chars.len(),
                deprecated_entries(chars@) == entry_views(paths@) + deprecated_entries(
                    chars@.skip(start as int),
                ),
            decreases chars.len() - start,
        {
            let end = find(&chars, start, '\n');
            let ghost rest = chars@.skip(start as int);
            let line_end = if end < chars.len() && end > start && chars[end - 1] == '\r' {
                end - 1
            } else {
                end
            };
            let path = from_chars(&chars, start, line_end);
            proof {
                if end < chars.len() {
                    assert(rest.skip(end - start + 1) =~= chars@.skip(end + 1));
                    assert(path@ =~= without_carriage_return(rest.take(end - start)));
                }
            }
            paths.push(
                PathsEntry {
                    relative_path: path,
                    path_type: PathType::HardLink,
                    sha256: None,
                    size_in_bytes: None,
                },
            );
            start = if end < chars.len() {
                end + 1
            } else {
                end
            };
        }
        proof {
            lemma_deprecated_entries_list_files_only(files@);
        }
        Self::new(paths)
    }
}

/// The record that identifies a package.
#[derive(Clone, Debug, PartialEq, Eq)]
pub struct IndexJson {
    /// The name of the package.
    pub name: String,
    /// The version of the package.
    pub version: String,
    /// The build string of the package.
    pub build: String,
    /// The number of the build.
    pub build_number: u64,
}

} // verus!
