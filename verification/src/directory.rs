//! What validation amounts to: a mathematical description of a package
//! directory, the result that validation owes for it, and the proofs that the
//! step functions reach exactly that result.

use vstd::prelude::*;
use crate::digest::{lower_hex, Sha256Hash};
use crate::filesystem::{FileType, IoError, IoErrorKind, Metadata};
use crate::package::{
    distinct_paths, lists_files_only, IndexJson, PathType, PathsEntryView, PathsJson,
};
use crate::validation::{
    entry_result_view, hard_link_digest, package_entry, EntryFailure, EntryObservation,
    EntryValidation, Observation, PackageFailure, PackageProgress, PathsProgress, RequestView,
};

verus! {

/// A package directory as validation sees it: what each read that validation
/// can ask for would give.
pub struct PackageDirectory {
    /// What reading the record that identifies the package gives.
    pub index_json: Result<IndexJson, IoError>,
    /// What reading the list of declared contents gives.
    pub paths_json: Result<PathsJson, IoError>,
    /// What rebuilding the list of declared contents from the deprecated file
    /// list gives.
    pub deprecated_paths: Result<PathsJson, IoError>,
    /// What retrieving the metadata of the object at a relative path gives,
    /// symbolic links not followed.
    pub metadata: spec_fn(Seq<char>) -> Result<Metadata, IoError>,
    /// What hashing the content of the file at a relative path gives.
    pub sha256: spec_fn(Seq<char>) -> Result<Sha256Hash, IoError>,
}

impl PackageDirectory {
    /// What retrieving the metadata of the object at `path` gives.
    pub open spec fn metadata_of(self, path: Seq<char>) -> Result<Metadata, IoError> {
        (self.metadata)(path)
    }

    /// What hashing the content of the file at `path` gives.
    pub open spec fn sha256_of(self, path: Seq<char>) -> Result<Sha256Hash, IoError> {
        (self.sha256)(path)
    }

    /// The directory holds what `entry` declares: an object of the declared
    /// kind and, for a regular file, of the declared size and with the declared
    /// digest, as far as the entry declares them. For a regular file the kind of
    /// the object itself is not compared.
    pub open spec fn holds(self, entry: PathsEntryView) -> bool {
        match self.metadata_of(entry.relative_path) {
            Err(_) => false,
            Ok(metadata) => match entry.path_type {
                PathType::SoftLink => metadata.file_type == FileType::Symlink,
                PathType::Directory => metadata.file_type == FileType::Directory,
                PathType::HardLink => {
                    &&& entry.size_in_bytes matches Some(size) ==> size == metadata.len
                    &&& entry.sha256 matches Some(expected) ==> {
                        &&& self.sha256_of(entry.relative_path) matches Ok(actual)
                        &&& actual@ == expected
                    }
                },
            },
        }
    }

    /// The result that validation owes for one entry.
    pub open spec fn entry(self, entry: PathsEntryView) -> Result<(), EntryFailure> {
        match package_entry(entry, self.metadata_of(entry.relative_path)) {
            EntryValidation::Finished(result) => entry_result_view(result),
            EntryValidation::ComputeDigest => hard_link_digest(
                entry,
                self.sha256_of(entry.relative_path),
            ),
        }
    }

    /// The result that validation owes for the entries from `from` on: the
    /// first entry that fails, with its relative path, or success.
    pub open spec fn entries_from(
        self,
        paths: Seq<PathsEntryView>,
        from: int,
    ) -> Result<(), (Seq<char>, EntryFailure)>
        decreases paths.len() - from,
    {
        if from < 0 || from >= paths.len() {
            Ok(())
        } else {
            match self.entry(paths[from]) {
                Err(e) => Err((paths[from].relative_path, e)),
                Ok(()) => self.entries_from(paths, from + 1),
            }
        }
    }

    /// The result that validation owes for the entries of a package.
    pub open spec fn entries(
        self,
        paths: Seq<PathsEntryView>,
    ) -> Result<(), (Seq<char>, EntryFailure)> {
        self.entries_from(paths, 0)
    }

    /// The declared contents against which the directory is validated: the list
    /// of declared contents where it exists, else what the deprecated file list
    /// gives.
    pub open spec fn paths(self) -> Result<PathsJson, PackageFailure> {
        match self.paths_json {
            Ok(paths) => Ok(paths),
            Err(e) => if e.kind != IoErrorKind::NotFound {
                Err(PackageFailure::ReadPathsJsonError(e))
            } else {
                match self.deprecated_paths {
                    Ok(paths) => Ok(paths),
                    Err(e) => if e.kind != IoErrorKind::NotFound {
                        Err(PackageFailure::ReadDeprecatedPathsJsonError(e))
                    } else {
                        Err(PackageFailure::MetadataMissing)
                    },
                }
            },
        }
    }

    /// The result that validation owes for the directory.
    pub open spec fn package(self) -> Result<(IndexJson, PathsJson), PackageFailure> {
        match self.index_json {
            Err(e) => Err(PackageFailure::ReadIndexJsonError(e)),
            Ok(index_json) => match self.paths() {
                Err(e) => Err(e),
                Ok(paths) => match self.entries(paths@) {
                    Err((path, e)) => Err(PackageFailure::CorruptedEntry(path, e)),
                    Ok(()) => Ok((index_json, paths)),
                },
            },
        }
    }

    /// What the caller observes in this directory when it does what validation
    /// asks for about an entry.
    pub open spec fn observe_entry(self, request: RequestView) -> EntryObservation {
        match request {
            RequestView::ComputeDigest(path) => EntryObservation::Digest(self.sha256_of(path)),
            RequestView::ReadMetadata(path) => EntryObservation::Metadata(self.metadata_of(path)),
            _ => EntryObservation::Metadata(self.metadata_of(Seq::empty())),
        }
    }

    /// What the caller observes in this directory when it does what validation
    /// asks for.
    pub open spec fn observe(self, request: RequestView) -> Observation {
        match request {
            RequestView::ReadIndexJson => Observation::IndexJson(self.index_json),
            RequestView::ReadPathsJson => Observation::PathsJson(self.paths_json),
            RequestView::ReadDeprecatedPaths => Observation::DeprecatedPaths(self.deprecated_paths),
            _ => Observation::Entry(self.observe_entry(request)),
        }
    }

    /// The state that the validation of the entries of `paths` reaches from
    /// `progress` in `steps` steps, each fed with what the caller observes in
    /// this directory.
    pub open spec fn run_entries(
        self,
        paths: Seq<PathsEntryView>,
        progress: PathsProgress,
        steps: nat,
    ) -> PathsProgress
        decreases steps,
    {
        if steps == 0 {
            progress
        } else {
            self.run_entries(
                paths,
                progress.step(paths, self.observe_entry(progress.request(paths))),
                (steps - 1) as nat,
            )
        }
    }

    /// The state that the validation of the directory reaches from `progress` in
    /// `steps` steps, each fed with what the caller observes in this directory.
    pub open spec fn run(self, progress: PackageProgress, steps: nat) -> PackageProgress
        decreases steps,
    {
        if steps == 0 {
            progress
        } else {
            self.run(progress.step(self.observe(progress.request())), (steps - 1) as nat)
        }
    }
}

/// An entry passes validation exactly if the directory holds what it declares.
pub proof fn lemma_entry_passes_iff_held(directory: PackageDirectory, entry: PathsEntryView)
    ensures
        directory.entry(entry) is Ok <==> directory.holds(entry),
{
}

/// The entries pass validation exactly if the directory holds what each of them
/// declares.
pub proof fn lemma_entries_pass_iff_all_held(
    directory: PackageDirectory,
    paths: Seq<PathsEntryView>,
)
    ensures
        directory.entries(paths) is Ok <==> forall|i: int|
            0 <= i < paths.len() ==> directory.holds(#[trigger] paths[i]),
{
    lemma_entries_from_pass(directory, paths, 0);
}

/// The entries from `from` on pass validation exactly if the directory holds
/// what each of them declares.
pub proof fn lemma_entries_from_pass(
    directory: PackageDirectory,
    paths: Seq<PathsEntryView>,
    from: int,
)
    requires
        0 <= from,
    ensures
        directory.entries_from(paths, from) is Ok <==> forall|i: int|
            from <= i < paths.len() ==> directory.holds(#[trigger] paths[i]),
    decreases paths.len() - from,
{
    if from < paths.len() {
        lemma_entries_from_pass(directory, paths, from + 1);
    }
}

/// Validation reports the first entry that fails: if the directory holds what
/// every entry before `failing` declares and the entry at `failing` fails, the
/// result names the relative path and the cause of that entry.
pub proof fn lemma_first_failure_is_reported(
    directory: PackageDirectory,
    paths: Seq<PathsEntryView>,
    failing: int,
)
    requires
        0 <= failing < paths.len(),
        forall|i: int| 0 <= i < failing ==> directory.entry(#[trigger] paths[i]) is Ok,
        directory.entry(paths[failing]) is Err,
    ensures
        directory.entries(paths) == Err::<(), (Seq<char>, EntryFailure)>(
            (paths[failing].relative_path, directory.entry(paths[failing])->Err_0),
        ),
{
    lemma_first_failure_from(directory, paths, 0, failing);
}

/// As [`lemma_first_failure_is_reported`], for the entries from `from` on.
pub proof fn lemma_first_failure_from(
    directory: PackageDirectory,
    paths: Seq<PathsEntryView>,
    from: int,
    failing: int,
)
    requires
        0 <= from <= failing < paths.len(),
        forall|i: int| from <= i < failing ==> directory.entry(#[trigger] paths[i]) is Ok,
        directory.entry(paths[failing]) is Err,
    ensures
        directory.entries_from(paths, from) == Err::<(), (Seq<char>, EntryFailure)>(
            (paths[failing].relative_path, directory.entry(paths[failing])->Err_0),
        ),
    decreases failing - from,
{
    if from < failing {
        lemma_first_failure_from(directory, paths, from + 1, failing);
    }
}

/// Once the validation of the entries has finished, further steps change nothing.
pub proof fn lemma_finished_entries_stay(
    directory: PackageDirectory,
    paths: Seq<PathsEntryView>,
    result: Result<(), (Seq<char>, EntryFailure)>,
    steps: nat,
)
    ensures
        directory.run_entries(paths, PathsProgress::Finished(result), steps)
            == PathsProgress::Finished(result),
    decreases steps,
{
    if steps > 0 {
        lemma_finished_entries_stay(directory, paths, result, (steps - 1) as nat);
    }
}

/// The validation of the entries reaches the result that it owes: started at
/// the entry `from` and fed with what the caller observes in the directory, it
/// has finished after two steps for each entry that is left, and holds the
/// result for those entries.
pub proof fn lemma_entries_run_reaches_result(
    directory: PackageDirectory,
    paths: Seq<PathsEntryView>,
    from: int,
    steps: nat,
)
    requires
        0 <= from <= paths.len() <= usize::MAX,
        steps >= 2 * (paths.len() - from),
    ensures
        directory.run_entries(paths, PathsProgress::resume(paths, from), steps)
            == PathsProgress::Finished(directory.entries_from(paths, from)),
    decreases paths.len() - from,
{
    if from == paths.len() {
        lemma_finished_entries_stay(directory, paths, Ok(()), steps);
    } else {
        let entry = paths[from];
        let start = PathsProgress::resume(paths, from);
        let first = start.step(paths, directory.observe_entry(start.request(paths)));
        assert(directory.run_entries(paths, start, steps) == directory.run_entries(
            paths,
            first,
            (steps - 1) as nat,
        ));
        match package_entry(entry, directory.metadata_of(entry.relative_path)) {
            EntryValidation::Finished(result) => {
                match result {
                    Ok(()) => {
                        lemma_entries_run_reaches_result(directory, paths, from + 1, (steps - 1) as nat);
                    },
                    Err(e) => {
                        lemma_finished_entries_stay(
                            directory,
                            paths,
                            Err((entry.relative_path, e@)),
                            (steps - 1) as nat,
                        );
                    },
                }
            },
            EntryValidation::ComputeDigest => {
                let second = first.step(paths, directory.observe_entry(first.request(paths)));
                assert(directory.run_entries(paths, first, (steps - 1) as nat) == directory.run_entries(
                    paths,
                    second,
                    (steps - 2) as nat,
                ));
                match hard_link_digest(entry, directory.sha256_of(entry.relative_path)) {
                    Ok(()) => {
                        lemma_entries_run_reaches_result(directory, paths, from + 1, (steps - 2) as nat);
                    },
                    Err(e) => {
                        lemma_finished_entries_stay(
                            directory,
                            paths,
                            Err((entry.relative_path, e)),
                            (steps - 2) as nat,
                        );
                    },
                }
            },
        }
    }
}

/// Once the validation of a directory has finished, further steps change nothing.
pub proof fn lemma_finished_stays(
    directory: PackageDirectory,
    result: Result<(IndexJson, PathsJson), PackageFailure>,
    steps: nat,
)
    ensures
        directory.run(PackageProgress::Finished(result), steps) == PackageProgress::Finished(
            result,
        ),
    decreases steps,
{
    if steps > 0 {
        lemma_finished_stays(directory, result, (steps - 1) as nat);
    }
}

/// While the entries are being validated, the validation of the directory
/// moves as the validation of its entries does.
pub proof fn lemma_run_follows_entries(
    directory: PackageDirectory,
    index_json: IndexJson,
    paths: PathsJson,
    progress: PathsProgress,
    steps: nat,
)
    ensures
        directory.run(PackageProgress::entries(index_json, paths, progress), steps) == PackageProgress::entries(
            index_json,
            paths,
            directory.run_entries(paths@, progress, steps),
        ),
    decreases steps,
{
    if steps > 0 {
        match progress {
            PathsProgress::Finished(result) => {
                lemma_finished_entries_stay(directory, paths@, result, steps);
                match result {
                    Ok(()) => lemma_finished_stays(directory, Ok((index_json, paths)), steps),
                    Err((path, e)) => lemma_finished_stays(
                        directory,
                        Err(PackageFailure::CorruptedEntry(path, e)),
                        steps,
                    ),
                }
            },
            _ => {
                let request = progress.request(paths@);
                let next = progress.step(paths@, directory.observe_entry(request));
                lemma_run_follows_entries(directory, index_json, paths, next, (steps - 1) as nat);
            },
        }
    }
}

/// The number of steps after which the validation of a directory has finished
/// at the latest: three reads, and two steps for each declared entry.
pub open spec fn enough_steps(directory: PackageDirectory) -> nat {
    match directory.paths() {
        Ok(paths) => 3 + 2 * paths@.len(),
        Err(_) => 3,
    }
}

/// The validation of a directory reaches the result that it owes: started and
/// fed with what the caller observes in the directory, it has finished after
/// [`enough_steps`] steps and holds the result for that directory.
pub proof fn lemma_run_reaches_result(directory: PackageDirectory, steps: nat)
    requires
        steps >= enough_steps(directory),
    ensures
        directory.run(PackageProgress::start(), steps) == PackageProgress::Finished(
            directory.package(),
        ),
{
    let start = PackageProgress::start();
    let first = start.step(directory.observe(start.request()));
    match directory.index_json {
        Err(e) => {
            lemma_finished_stays(
                directory,
                Err(PackageFailure::ReadIndexJsonError(e)),
                (steps - 1) as nat,
            );
        },
        Ok(index_json) => {
            let second = first.step(directory.observe(first.request()));
            assert(directory.run(first, (steps - 1) as nat) == directory.run(
                second,
                (steps - 2) as nat,
            ));
            match directory.paths_json {
                Ok(paths) => {
                    lemma_entries_started(directory, index_json, paths, (steps - 2) as nat);
                },
                Err(e) => {
                    if e.kind != IoErrorKind::NotFound {
                        lemma_finished_stays(
                            directory,
                            Err(PackageFailure::ReadPathsJsonError(e)),
                            (steps - 2) as nat,
                        );
                    } else {
                        let third = second.step(directory.observe(second.request()));
                        assert(directory.run(second, (steps - 2) as nat) == directory.run(
                            third,
                            (steps - 3) as nat,
                        ));
                        match directory.deprecated_paths {
                            Ok(paths) => {
                                lemma_entries_started(directory, index_json, paths, (steps - 3) as nat);
                            },
                            Err(e) => {
                                if e.kind != IoErrorKind::NotFound {
                                    lemma_finished_stays(
                                        directory,
                                        Err(PackageFailure::ReadDeprecatedPathsJsonError(e)),
                                        (steps - 3) as nat,
                                    );
                                } else {
                                    lemma_finished_stays(
                                        directory,
                                        Err(PackageFailure::MetadataMissing),
                                        (steps - 3) as nat,
                                    );
                                }
                            },
                        }
                    }
                },
            }
        },
    }
}

/// Once the declared contents are known, the validation of the directory
/// finishes with the result for its entries.
proof fn lemma_entries_started(
    directory: PackageDirectory,
    index_json: IndexJson,
    paths: PathsJson,
    steps: nat,
)
    requires
        steps >= 2 * paths@.len(),
    ensures
        directory.run(
            PackageProgress::entries(index_json, paths, PathsProgress::start(paths@)),
            steps,
        ) == PackageProgress::entries(
            index_json,
            paths,
            PathsProgress::Finished(directory.entries(paths@)),
        ),
{
    lemma_run_follows_entries(directory, index_json, paths, PathsProgress::start(paths@), steps);
    assert(paths@.len() == paths.paths.len());
    lemma_entries_run_reaches_result(directory, paths@, 0, steps);
}

/// A directory that holds what every entry of its package declares is
/// confirmed: validation succeeds with the identity of the package and with its
/// declared contents, entry for entry.
pub proof fn lemma_intact_package_is_confirmed(
    directory: PackageDirectory,
    index_json: IndexJson,
    paths: PathsJson,
)
    requires
        directory.index_json == Ok::<IndexJson, IoError>(index_json),
        directory.paths() == Ok::<PathsJson, PackageFailure>(paths),
        forall|i: int| 0 <= i < paths@.len() ==> directory.holds(#[trigger] paths@[i]),
    ensures
        directory.package() == Ok::<(IndexJson, PathsJson), PackageFailure>((index_json, paths)),
        directory.package()->Ok_0.1@.len() == paths@.len(),
{
    lemma_entries_pass_iff_all_held(directory, paths@);
}

/// A change to the content of one file is found and blamed on that file alone.
/// Take a directory that passes validation and a regular file in it whose entry
/// declares a digest. If the content of that file changes, so that its digest
/// is no longer the declared one, while its size and everything else stay as
/// they were, then validation fails with a digest mismatch that names the
/// relative path of that entry, the declared digest and the digest on disk.
pub proof fn lemma_changed_content_is_reported(
    before: PackageDirectory,
    after: PackageDirectory,
    paths: Seq<PathsEntryView>,
    changed: int,
    digest: Sha256Hash,
)
    requires
        distinct_paths(paths),
        before.entries(paths) is Ok,
        0 <= changed < paths.len(),
        paths[changed].path_type == PathType::HardLink,
        paths[changed].sha256 is Some,
        forall|path: Seq<char>| #[trigger] after.metadata_of(path) == before.metadata_of(path),
        forall|path: Seq<char>|
            path != paths[changed].relative_path ==> after.sha256_of(path) == before.sha256_of(
                path,
            ),
        after.sha256_of(paths[changed].relative_path) == Ok::<Sha256Hash, IoError>(digest),
        digest@ != paths[changed].sha256->Some_0,
    ensures
        after.entries(paths) == Err::<(), (Seq<char>, EntryFailure)>(
            (
                paths[changed].relative_path,
                EntryFailure::HashMismatch(
                    lower_hex(paths[changed].sha256->Some_0),
                    lower_hex(digest@),
                ),
            ),
        ),
{
    lemma_entries_pass_iff_all_held(before, paths);
    assert forall|i: int| 0 <= i < changed implies after.entry(#[trigger] paths[i]) is Ok by {
        lemma_entry_passes_iff_held(before, paths[i]);
    }
    lemma_first_failure_is_reported(after, paths, changed);
}

/// A symbolic link that was replaced by a regular file is found. Take a
/// directory that passes validation and an entry that declares a symbolic
/// link. If the object at its path becomes a regular file, whatever its
/// content, while everything else stays as it was, then validation fails for
/// the relative path of that entry because a symbolic link was expected.
pub proof fn lemma_replaced_link_is_reported(
    before: PackageDirectory,
    after: PackageDirectory,
    paths: Seq<PathsEntryView>,
    replaced: int,
    len: u64,
)
    requires
        distinct_paths(paths),
        before.entries(paths) is Ok,
        0 <= replaced < paths.len(),
        paths[replaced].path_type == PathType::SoftLink,
        forall|path: Seq<char>|
            path != paths[replaced].relative_path ==> {
                &&& after.metadata_of(path) == before.metadata_of(path)
                &&& after.sha256_of(path) == before.sha256_of(path)
            },
        after.metadata_of(paths[replaced].relative_path) == Ok::<Metadata, IoError>(
            (Metadata { file_type: FileType::File, len }),
        ),
    ensures
        after.entries(paths) == Err::<(), (Seq<char>, EntryFailure)>(
            (paths[replaced].relative_path, EntryFailure::ExpectedSymlink),
        ),
{
    lemma_entries_pass_iff_all_held(before, paths);
    assert forall|i: int| 0 <= i < replaced implies after.entry(#[trigger] paths[i]) is Ok by {
        lemma_entry_passes_iff_held(before, paths[i]);
    }
    lemma_first_failure_is_reported(after, paths, replaced);
}

/// A directory without a readable record of the identity of its package fails
/// validation for that reason, whatever else it holds or lacks: the failure is
/// never confused with a missing declaration of the contents.
pub proof fn lemma_missing_identity_is_reported(directory: PackageDirectory, e: IoError)
    requires
        directory.index_json == Err::<IndexJson, IoError>(e),
    ensures
        directory.package() == Err::<(IndexJson, PathsJson), PackageFailure>(
            PackageFailure::ReadIndexJsonError(e),
        ),
        directory.package() != Err::<(IndexJson, PathsJson), PackageFailure>(
            PackageFailure::MetadataMissing,
        ),
{
}

/// A damaged package is told from one that cannot be validated at all:
/// validation ends with a corrupted entry exactly if the identity of the package
/// and its declared contents could be read and one of the entries fails.
pub proof fn lemma_corruption_needs_readable_metadata(directory: PackageDirectory)
    ensures
        directory.package() matches Err(PackageFailure::CorruptedEntry(..)) <==> {
            &&& directory.index_json is Ok
            &&& directory.paths() matches Ok(paths)
            &&& directory.entries(paths@) is Err
        },
{
}

/// Where the list of declared contents does not exist, the package is
/// validated against what its deprecated file list gives.
pub proof fn lemma_deprecated_paths_stand_in(directory: PackageDirectory, paths: PathsJson)
    requires
        directory.paths_json matches Err(e) && e.kind == IoErrorKind::NotFound,
        directory.deprecated_paths == Ok::<PathsJson, IoError>(paths),
    ensures
        directory.paths() == Ok::<PathsJson, PackageFailure>(paths),
{
}

/// Entries that come from a deprecated file list pass validation if an object
/// exists at each of their paths.
pub proof fn lemma_listed_files_pass_if_present(
    directory: PackageDirectory,
    paths: Seq<PathsEntryView>,
)
    requires
        lists_files_only(paths),
        forall|i: int|
            0 <= i < paths.len() ==> directory.metadata_of((#[trigger] paths[i]).relative_path) is Ok,
    ensures
        directory.entries(paths) is Ok,
{
    lemma_entries_pass_iff_all_held(directory, paths);
}

/// Entries that come from a deprecated file list fail validation with "not
/// found" at the first listed path at which no object exists.
pub proof fn lemma_listed_file_is_missed_if_absent(
    directory: PackageDirectory,
    paths: Seq<PathsEntryView>,
    absent: int,
)
    requires
        lists_files_only(paths),
        0 <= absent < paths.len(),
        forall|i: int|
            0 <= i < absent ==> directory.metadata_of((#[trigger] paths[i]).relative_path) is Ok,
        directory.metadata_of(paths[absent].relative_path) matches Err(e)
            && e.kind == IoErrorKind::NotFound,
    ensures
        directory.entries(paths) == Err::<(), (Seq<char>, EntryFailure)>(
            (paths[absent].relative_path, EntryFailure::NotFound),
        ),
{
    lemma_first_failure_is_reported(directory, paths, absent);
}

/// An entry that declares the size of a regular file but no digest passes for
/// an object of that size, whatever its content is and whether or not the
/// content can be read.
pub proof fn lemma_size_alone_decides(
    directory: PackageDirectory,
    entry: PathsEntryView,
    metadata: Metadata,
)
    requires
        entry.path_type == PathType::HardLink,
        entry.size_in_bytes == Some(metadata.len),
        entry.sha256 is None,
        directory.metadata_of(entry.relative_path) == Ok::<Metadata, IoError>(metadata),
    ensures
        directory.entry(entry) == Ok::<(), EntryFailure>(()),
{
}

/// Validation can be repeated: as long as the directory stays as it is, two
/// runs end in the same state, which holds the result for that directory.
pub proof fn lemma_validation_is_repeatable(directory: PackageDirectory, first: nat, second: nat)
    requires
        first >= enough_steps(directory),
        second >= enough_steps(directory),
    ensures
        directory.run(PackageProgress::start(), first) == directory.run(
            PackageProgress::start(),
            second,
        ),
        directory.run(PackageProgress::start(), first) == PackageProgress::Finished(
            directory.package(),
        ),
{
    lemma_run_reaches_result(directory, first);
    lemma_run_reaches_result(directory, second);
}

} // verus!
