//! Validation of the contents of an extracted package.
//!
//! A package declares every file, link and directory it contains. The functions
//! of this module decide whether what is found on disk matches that declaration.
//! They read nothing themselves. Validation is a sequence of steps: the current
//! state says what has to be read, the caller reads it and hands over what it
//! found, and the step function returns the next state, until the state is
//! `Finished` and holds the result.

use vstd::prelude::*;
use crate::digest::{lower_hex, Sha256Hash};
use crate::filesystem::{FileType, IoError, IoErrorKind, Metadata};
use crate::package::{IndexJson, PathType, PathsEntry, PathsEntryView, PathsJson};

verus! {

/// Why the contents of a package directory could not be confirmed.
#[derive(Clone, Debug, PartialEq, Eq)]
pub enum PackageValidationError {
    /// Neither the list of declared contents nor the deprecated file list exists.
    MetadataMissing,
    /// The list of declared contents exists but could not be read.
    ReadPathsJsonError(IoError),
    /// The deprecated file list exists but could not be read.
    ReadDeprecatedPathsJsonError(IoError),
    /// The object at the given relative path does not match its declaration.
    CorruptedEntry(String, PackageEntryValidationError),
    /// The record that identifies the package could not be read.
    ReadIndexJsonError(IoError),
}

/// Why a single object of a package does not match its declaration.
#[derive(Clone, Debug, PartialEq, Eq)]
pub enum PackageEntryValidationError {
    /// The metadata of the object could not be retrieved.
    GetMetadataFailed(IoError),
    /// The object does not exist.
    NotFound,
    /// A symbolic link was declared; something else was found.
    ExpectedSymlink,
    /// A directory was declared; something else was found.
    ExpectedDirectory,
    /// The declared size, then the size on disk.
    IncorrectSize(u64, u64),
    /// The content of the file could not be read.
    IoError(IoError),
    /// The declared digest, then the digest of the content on disk, both as
    /// lower-case hexadecimal digits.
    HashMismatch(String, String),
}

/// The mathematical value of a [`PackageEntryValidationError`].
pub enum EntryFailure {
    GetMetadataFailed(IoError),
    NotFound,
    ExpectedSymlink,
    ExpectedDirectory,
    IncorrectSize(u64, u64),
    IoError(IoError),
    HashMismatch(Seq<char>, Seq<char>),
}

impl View for PackageEntryValidationError {
    type V = EntryFailure;

    open spec fn view(&self) -> EntryFailure {
        match *self {
            PackageEntryValidationError::GetMetadataFailed(e) => EntryFailure::GetMetadataFailed(e),
            PackageEntryValidationError::NotFound => EntryFailure::NotFound,
            PackageEntryValidationError::ExpectedSymlink => EntryFailure::ExpectedSymlink,
            PackageEntryValidationError::ExpectedDirectory => EntryFailure::ExpectedDirectory,
            PackageEntryValidationError::IncorrectSize(expected, actual) => EntryFailure::IncorrectSize(
                expected,
                actual,
            ),
            PackageEntryValidationError::IoError(e) => EntryFailure::IoError(e),
            PackageEntryValidationError::HashMismatch(expected, actual) => EntryFailure::HashMismatch(
                expected@,
                actual@,
            ),
        }
    }
}

/// The mathematical value of a [`PackageValidationError`].
pub enum PackageFailure {
    MetadataMissing,
    ReadPathsJsonError(IoError),
    ReadDeprecatedPathsJsonError(IoError),
    CorruptedEntry(Seq<char>, EntryFailure),
    ReadIndexJsonError(IoError),
}

impl View for PackageValidationError {
    type V = PackageFailure;

    open spec fn view(&self) -> PackageFailure {
        match *self {
            PackageValidationError::MetadataMissing => PackageFailure::MetadataMissing,
            PackageValidationError::ReadPathsJsonError(e) => PackageFailure::ReadPathsJsonError(e),
            PackageValidationError::ReadDeprecatedPathsJsonError(e) => {
                PackageFailure::ReadDeprecatedPathsJsonError(e)
            },
            PackageValidationError::CorruptedEntry(path, e) => PackageFailure::CorruptedEntry(
                path@,
                e@,
            ),
            PackageValidationError::ReadIndexJsonError(e) => PackageFailure::ReadIndexJsonError(e),
        }
    }
}

/// How far the validation of one entry has come once the metadata of its object
/// is known.
#[derive(Debug, PartialEq, Eq)]
pub enum EntryValidation {
    /// The entry is decided.
    Finished(Result<(), PackageEntryValidationError>),
    /// The entry declares a digest: the content of the file has to be hashed.
    ComputeDigest,
}

/// What a failed attempt to retrieve the metadata of an object means for its entry.
pub open spec fn metadata_failure(e: IoError) -> PackageEntryValidationError {
    if e.kind == IoErrorKind::NotFound {
        PackageEntryValidationError::NotFound
    } else {
        PackageEntryValidationError::GetMetadataFailed(e)
    }
}

/// What the metadata of an object decides for an entry that declares a regular
/// file: a declared size must be the size on disk, and a declared digest is
/// compared only once the size has passed.
pub open spec fn hard_link_entry(entry: PathsEntryView, metadata: Metadata) -> EntryValidation {
    match entry.size_in_bytes {
        Some(size) if size != metadata.len => EntryValidation::Finished(
            Err(PackageEntryValidationError::IncorrectSize(size, metadata.len)),
        ),
        _ => if entry.sha256 is Some {
            EntryValidation::ComputeDigest
        } else {
            EntryValidation::Finished(Ok(()))
        },
    }
}

/// What the metadata of an object decides for an entry that declares a symbolic link.
pub open spec fn soft_link_entry(metadata: Metadata) -> Result<(), PackageEntryValidationError> {
    if metadata.file_type == FileType::Symlink {
        Ok(())
    } else {
        Err(PackageEntryValidationError::ExpectedSymlink)
    }
}

/// What the metadata of an object decides for an entry that declares a directory.
pub open spec fn directory_entry(metadata: Metadata) -> Result<(), PackageEntryValidationError> {
    if metadata.file_type == FileType::Directory {
        Ok(())
    } else {
        Err(PackageEntryValidationError::ExpectedDirectory)
    }
}

/// What an attempt to retrieve the metadata of an object decides for its entry.
pub open spec fn package_entry(
    entry: PathsEntryView,
    metadata: Result<Metadata, IoError>,
) -> EntryValidation {
    match metadata {
        Err(e) => EntryValidation::Finished(Err(metadata_failure(e))),
        Ok(metadata) => match entry.path_type {
            PathType::HardLink => hard_link_entry(entry, metadata),
            PathType::SoftLink => EntryValidation::Finished(soft_link_entry(metadata)),
            PathType::Directory => EntryValidation::Finished(directory_entry(metadata)),
        },
    }
}

/// What an attempt to hash the content of a file decides for an entry: the
/// digest on disk must be the declared one. An entry without a declared digest
/// passes whatever the content is.
pub open spec fn hard_link_digest(
    entry: PathsEntryView,
    digest: Result<Sha256Hash, IoError>,
) -> Result<(), EntryFailure> {
    match entry.sha256 {
        None => Ok(()),
        Some(expected) => match digest {
            Err(e) => Err(EntryFailure::IoError(e)),
            Ok(actual) => if actual@ == expected {
                Ok(())
            } else {
                Err(EntryFailure::HashMismatch(lower_hex(expected), lower_hex(actual@)))
            },
        },
    }
}

/// The mathematical value of the result of validating one entry.
pub open spec fn entry_result_view(
    result: Result<(), PackageEntryValidationError>,
) -> Result<(), EntryFailure> {
    match result {
        Ok(()) => Ok(()),
        Err(e) => Err(e@),
    }
}

/// Decides whether the object found on disk is the regular file that `entry`
/// declares, as far as its metadata tells. A declared size that differs from the
/// size on disk fails the entry. Otherwise the entry passes, unless it declares a
/// digest: then the content has to be hashed.
pub fn validate_package_hard_link_entry(
    entry: &PathsEntry,
    metadata: Metadata,
) -> (r: EntryValidation)
    ensures
        r == hard_link_entry(entry@, metadata),
{
    if let Some(size_in_bytes) = entry.size_in_bytes {
        if size_in_bytes != metadata.len {
            return EntryValidation::Finished(
                Err(PackageEntryValidationError::IncorrectSize(size_in_bytes, metadata.len)),
            );
        }
    }
    if entry.sha256.is_some() {
        EntryValidation::ComputeDigest
    } else {
        EntryValidation::Finished(Ok(()))
    }
}

/// Decides whether the digest of the content on disk is the one that `entry`
/// declares. A failure to read the content fails the entry, and so does a digest
/// other than the declared one.
pub fn validate_package_hard_link_digest(
    entry: &PathsEntry,
    digest: Result<Sha256Hash, IoError>,
) -> (r: Result<(), PackageEntryValidationError>)
    ensures
        entry_result_view(r) == hard_link_digest(entry@, digest),
{
    match &entry.sha256 {
        None => Ok(()),
        Some(expected_hash) => match digest {
            Err(e) => Err(PackageEntryValidationError::IoError(e)),
            Ok(hash) => if expected_hash.same(&hash) {
                Ok(())
            } else {
                Err(
                    PackageEntryValidationError::HashMismatch(expected_hash.to_hex(), hash.to_hex()),
                )
            },
        },
    }
}

/// Decides whether the object found on disk is the symbolic link that an entry
/// declares. Where the link points is not compared.
pub fn validate_package_soft_link_entry(
    metadata: Metadata,
) -> (r: Result<(), PackageEntryValidationError>)
    ensures
        r == soft_link_entry(metadata),
{
    if !metadata.is_symlink() {
        return Err(PackageEntryValidationError::ExpectedSymlink);
    }
    Ok(())
}

/// Decides whether the object found on disk is the directory that an entry declares.
pub fn validate_package_directory_entry(
    metadata: Metadata,
) -> (r: Result<(), PackageEntryValidationError>)
    ensures
        r == directory_entry(metadata),
{
    if !metadata.is_dir() {
        Err(PackageEntryValidationError::ExpectedDirectory)
    } else {
        Ok(())
    }
}

/// Decides what the attempt to retrieve the metadata of the object at the path
/// of `entry` means. An object that does not exist fails the entry as not found,
/// any other failure as a failure to retrieve the metadata. Otherwise the kind
/// that the entry declares selects the check.
pub fn validate_package_entry(
    entry: &PathsEntry,
    metadata: Result<Metadata, IoError>,
) -> (r: EntryValidation)
    ensures
        r == package_entry(entry@, metadata),
{
    let metadata = match metadata {
        Ok(metadata) => metadata,
        Err(e) => {
            if e.is_not_found() {
                return EntryValidation::Finished(Err(PackageEntryValidationError::NotFound));
            }
            return EntryValidation::Finished(
                Err(PackageEntryValidationError::GetMetadataFailed(e)),
            );
        },
    };
    match entry.path_type {
        PathType::HardLink => validate_package_hard_link_entry(entry, metadata),
        PathType::SoftLink => EntryValidation::Finished(validate_package_soft_link_entry(metadata)),
        PathType::Directory => EntryValidation::Finished(
            validate_package_directory_entry(metadata),
        ),
    }
}

/// What the caller found when it did what the validation asked for about one entry.
#[derive(Debug, PartialEq, Eq)]
pub enum EntryObservation {
    /// The metadata of the object at the path of the entry, symbolic links not followed.
    Metadata(Result<Metadata, IoError>),
    /// The SHA-256 digest of the content of the file at the path of the entry.
    Digest(Result<Sha256Hash, IoError>),
}

/// What the caller has to do before validation can go on.
#[derive(Debug, PartialEq, Eq)]
pub enum Request {
    /// Read the record that identifies the package.
    ReadIndexJson,
    /// Read the list of declared contents.
    ReadPathsJson,
    /// Rebuild the list of declared contents from the deprecated file list.
    ReadDeprecatedPaths,
    /// Retrieve the metadata of the object at this relative path, without
    /// following symbolic links.
    ReadMetadata(String),
    /// Hash the content of the file at this relative path.
    ComputeDigest(String),
    /// Nothing: validation has finished.
    Nothing,
}

/// The state of the validation of the entries of a package against a directory.
#[derive(Debug, PartialEq, Eq)]
pub enum PathsValidation {
    /// The metadata of the object of this entry has to be retrieved.
    ReadMetadata { entry: usize },
    /// The content of the file of this entry has to be hashed.
    ComputeDigest { entry: usize },
    /// Validation has finished: every entry matched, or the entry at the given
    /// relative path was the first that did not.
    Finished(Result<(), (String, PackageEntryValidationError)>),
}

/// The mathematical value of a [`PathsValidation`].
pub enum PathsProgress {
    ReadMetadata { entry: usize },
    ComputeDigest { entry: usize },
    Finished(Result<(), (Seq<char>, EntryFailure)>),
}

impl View for PathsValidation {
    type V = PathsProgress;

    open spec fn view(&self) -> PathsProgress {
        match *self {
            PathsValidation::ReadMetadata { entry } => PathsProgress::ReadMetadata { entry },
            PathsValidation::ComputeDigest { entry } => PathsProgress::ComputeDigest { entry },
            PathsValidation::Finished(Ok(())) => PathsProgress::Finished(Ok(())),
            PathsValidation::Finished(Err((path, e))) => PathsProgress::Finished(Err((path@, e@))),
        }
    }
}

impl PathsProgress {
    /// The state in which the entries from `entry` on are still to be validated.
    pub open spec fn resume(paths: Seq<PathsEntryView>, entry: int) -> PathsProgress {
        if 0 <= entry < paths.len() && entry <= usize::MAX {
            PathsProgress::ReadMetadata { entry: entry as usize }
        } else {
            PathsProgress::Finished(Ok(()))
        }
    }

    /// The state in which validation starts.
    pub open spec fn start(paths: Seq<PathsEntryView>) -> PathsProgress {
        Self::resume(paths, 0)
    }

    /// The state after the entry at `entry` has been decided: the first failure
    /// ends validation, a match moves on to the next entry.
    pub open spec fn decided(
        paths: Seq<PathsEntryView>,
        entry: int,
        result: Result<(), EntryFailure>,
    ) -> PathsProgress {
        match result {
            Ok(()) => Self::resume(paths, entry + 1),
            Err(e) => PathsProgress::Finished(Err((paths[entry].relative_path, e))),
        }
    }

    /// The state that follows `self` once the caller has observed `observed`.
    /// An observation that the state did not ask for leaves it as it is, and so
    /// does any observation in a state that points behind the last entry: such a
    /// state does not belong to `paths` and never becomes a result.
    pub open spec fn step(
        self,
        paths: Seq<PathsEntryView>,
        observed: EntryObservation,
    ) -> PathsProgress {
        match (self, observed) {
            (PathsProgress::ReadMetadata { entry }, EntryObservation::Metadata(metadata)) => {
                if entry >= paths.len() {
                    self
                } else {
                    match package_entry(paths[entry as int], metadata) {
                        EntryValidation::ComputeDigest => PathsProgress::ComputeDigest { entry },
                        EntryValidation::Finished(result) => Self::decided(
                            paths,
                            entry as int,
                            entry_result_view(result),
                        ),
                    }
                }
            },
            (PathsProgress::ComputeDigest { entry }, EntryObservation::Digest(digest)) => {
                if entry >= paths.len() {
                    self
                } else {
                    Self::decided(
                        paths,
                        entry as int,
                        hard_link_digest(paths[entry as int], digest),
                    )
                }
            },
            _ => self,
        }
    }

    /// What the state asks the caller to do.
    pub open spec fn request(self, paths: Seq<PathsEntryView>) -> RequestView {
        match self {
            PathsProgress::ReadMetadata { entry } if entry < paths.len() => RequestView::ReadMetadata(
                paths[entry as int].relative_path,
            ),
            PathsProgress::ComputeDigest { entry } if entry < paths.len() => RequestView::ComputeDigest(
                paths[entry as int].relative_path,
            ),
            _ => RequestView::Nothing,
        }
    }
}

/// The mathematical value of a [`Request`].
pub enum RequestView {
    ReadIndexJson,
    ReadPathsJson,
    ReadDeprecatedPaths,
    ReadMetadata(Seq<char>),
    ComputeDigest(Seq<char>),
    Nothing,
}

impl View for Request {
    type V = RequestView;

    open spec fn view(&self) -> RequestView {
        match *self {
            Request::ReadIndexJson => RequestView::ReadIndexJson,
            Request::ReadPathsJson => RequestView::ReadPathsJson,
            Request::ReadDeprecatedPaths => RequestView::ReadDeprecatedPaths,
            Request::ReadMetadata(path) => RequestView::ReadMetadata(path@),
            Request::ComputeDigest(path) => RequestView::ComputeDigest(path@),
            Request::Nothing => RequestView::Nothing,
        }
    }
}

impl PathsValidation {
    /// The state in which the validation of `paths` starts.
    pub fn start(paths: &PathsJson) -> (r: PathsValidation)
        ensures
            r@ == PathsProgress::start(paths@),
    {
        Self::resume(paths, 0)
    }

    /// The state in which the entries of `paths` from `entry` on are still to be
    /// validated.
    fn resume(paths: &PathsJson, entry: usize) -> (r: PathsValidation)
        ensures
            r@ == PathsProgress::resume(paths@, entry as int),
    {
        if entry < paths.paths.len() {
            PathsValidation::ReadMetadata { entry }
        } else {
            PathsValidation::Finished(Ok(()))
        }
    }

    /// The state after the entry at `entry` has been decided.
    fn decided(
        paths: &PathsJson,
        entry: usize,
        result: Result<(), PackageEntryValidationError>,
    ) -> (r: PathsValidation)
        requires
            entry < paths.paths.len(),
        ensures
            r@ == PathsProgress::decided(paths@, entry as int, entry_result_view(result)),
    {
        match result {
            Ok(()) => Self::resume(paths, entry + 1),
            Err(e) => PathsValidation::Finished(Err((paths.paths[entry].relative_path.clone(), e))),
        }
    }

    /// What the caller has to do next: nothing once validation has finished,
    /// otherwise one read about the entry that is being validated.
    pub fn request(&self, paths: &PathsJson) -> (r: Request)
        ensures
            r@ == self@.request(paths@),
    {
        match self {
            PathsValidation::ReadMetadata { entry } => {
                if *entry < paths.paths.len() {
                    Request::ReadMetadata(paths.paths[*entry].relative_path.clone())
                } else {
                    Request::Nothing
                }
            },
            PathsValidation::ComputeDigest { entry } => {
                if *entry < paths.paths.len() {
                    Request::ComputeDigest(paths.paths[*entry].relative_path.clone())
                } else {
                    Request::Nothing
                }
            },
            PathsValidation::Finished(_) => Request::Nothing,
        }
    }
}

impl PathsProgress {
    /// The state belongs to `paths`: it points at one of its entries, and it
    /// waits for a digest only where that entry declares one for a regular file.
    pub open spec fn wf(self, paths: Seq<PathsEntryView>) -> bool {
        match self {
            PathsProgress::ReadMetadata { entry } => entry < paths.len(),
            PathsProgress::ComputeDigest { entry } => {
                &&& entry < paths.len()
                &&& paths[entry as int].path_type == PathType::HardLink
                &&& paths[entry as int].sha256 is Some
            },
            PathsProgress::Finished(_) => true,
        }
    }
}

/// Validation starts in a state that belongs to its entries, and every step
/// leads from such a state to such a state, whatever is observed.
pub proof fn lemma_paths_states_belong(
    paths: Seq<PathsEntryView>,
    progress: PathsProgress,
    observed: EntryObservation,
)
    requires
        paths.len() <= usize::MAX,
    ensures
        PathsProgress::start(paths).wf(paths),
        progress.wf(paths) ==> progress.step(paths, observed).wf(paths),
{
}

/// A state that belongs to its entries asks for a read until validation has
/// finished, and for none after that.
pub proof fn lemma_paths_ask_until_finished(paths: Seq<PathsEntryView>, progress: PathsProgress)
    requires
        progress.wf(paths),
    ensures
        progress.request(paths) is Nothing <==> progress is Finished,
{
}

/// Takes the validation of the entries of `paths` one step further: from the
/// state `progress` and what the caller `observed` when it did what that state
/// asked for, to the state that follows.
///
/// Entries are validated in the order of declaration. Each is decided from the
/// metadata of its object and, for a regular file with a declared digest whose
/// size passed, from the digest of its content. The first entry that does not
/// match ends validation with its relative path and the cause; when the last
/// entry has matched, validation ends with success.
pub fn validate_package_directory_from_paths(
    paths: &PathsJson,
    progress: PathsValidation,
    observed: EntryObservation,
) -> (next: PathsValidation)
    ensures
        next@ == progress@.step(paths@, observed),
{
    match (progress, observed) {
        (PathsValidation::ReadMetadata { entry }, EntryObservation::Metadata(metadata)) => {
            if entry >= paths.paths.len() {
                PathsValidation::ReadMetadata { entry }
            } else {
                match validate_package_entry(&paths.paths[entry], metadata) {
                    EntryValidation::ComputeDigest => PathsValidation::ComputeDigest { entry },
                    EntryValidation::Finished(result) => PathsValidation::decided(
                        paths,
                        entry,
                        result,
                    ),
                }
            }
        },
        (PathsValidation::ComputeDigest { entry }, EntryObservation::Digest(digest)) => {
            if entry >= paths.paths.len() {
                PathsValidation::ComputeDigest { entry }
            } else {
                let result = validate_package_hard_link_digest(&paths.paths[entry], digest);
                PathsValidation::decided(paths, entry, result)
            }
        },
        (progress, _) => progress,
    }
}

/// What the caller found when it did what the validation of a package
/// directory asked for.
#[derive(Debug, PartialEq, Eq)]
pub enum Observation {
    /// The record that identifies the package.
    IndexJson(Result<IndexJson, IoError>),
    /// The list of declared contents.
    PathsJson(Result<PathsJson, IoError>),
    /// The list of declared contents as rebuilt from the deprecated file list.
    DeprecatedPaths(Result<PathsJson, IoError>),
    /// What was found about the entry that is being validated.
    Entry(EntryObservation),
}

/// The state of the validation of a package directory.
#[derive(Debug, PartialEq, Eq)]
pub enum PackageValidation {
    /// The record that identifies the package has to be read.
    ReadIndexJson,
    /// The list of declared contents has to be read.
    ReadPathsJson { index_json: IndexJson },
    /// There is no list of declared contents: it has to be rebuilt from the
    /// deprecated file list.
    ReadDeprecatedPaths { index_json: IndexJson },
    /// The entries of `paths` are being validated.
    ValidateEntries { index_json: IndexJson, paths: PathsJson, progress: PathsValidation },
    /// Validation has finished: with the identity and the declared contents of
    /// the package that was confirmed, or with the reason why it was not.
    Finished(Result<(IndexJson, PathsJson), PackageValidationError>),
}

/// The mathematical value of a [`PackageValidation`].
pub enum PackageProgress {
    ReadIndexJson,
    ReadPathsJson { index_json: IndexJson },
    ReadDeprecatedPaths { index_json: IndexJson },
    ValidateEntries { index_json: IndexJson, paths: PathsJson, progress: PathsProgress },
    Finished(Result<(IndexJson, PathsJson), PackageFailure>),
}

impl View for PackageValidation {
    type V = PackageProgress;

    open spec fn view(&self) -> PackageProgress {
        match *self {
            PackageValidation::ReadIndexJson => PackageProgress::ReadIndexJson,
            PackageValidation::ReadPathsJson { index_json } => PackageProgress::ReadPathsJson {
                index_json,
            },
            PackageValidation::ReadDeprecatedPaths { index_json } => PackageProgress::ReadDeprecatedPaths {
                index_json,
            },
            PackageValidation::ValidateEntries { index_json, paths, progress } => PackageProgress::ValidateEntries {
                index_json,
                paths,
                progress: progress@,
            },
            PackageValidation::Finished(Ok(verified)) => PackageProgress::Finished(Ok(verified)),
            PackageValidation::Finished(Err(e)) => PackageProgress::Finished(Err(e@)),
        }
    }
}

impl PackageProgress {
    /// The state in which validation starts.
    pub open spec fn start() -> PackageProgress {
        PackageProgress::ReadIndexJson
    }

    /// The state of a validation whose entries have come as far as `progress`:
    /// once the entries are decided, so is the package.
    pub open spec fn entries(
        index_json: IndexJson,
        paths: PathsJson,
        progress: PathsProgress,
    ) -> PackageProgress {
        match progress {
            PathsProgress::Finished(Ok(())) => PackageProgress::Finished(Ok((index_json, paths))),
            PathsProgress::Finished(Err((path, e))) => PackageProgress::Finished(
                Err(PackageFailure::CorruptedEntry(path, e)),
            ),
            _ => PackageProgress::ValidateEntries { index_json, paths, progress },
        }
    }

    /// The state after the attempt to read the list of declared contents. Only
    /// a list that does not exist sends validation to the deprecated file list.
    pub open spec fn paths_json_read(
        index_json: IndexJson,
        read: Result<PathsJson, IoError>,
    ) -> PackageProgress {
        match read {
            Ok(paths) => Self::entries(index_json, paths, PathsProgress::start(paths@)),
            Err(e) => if e.kind == IoErrorKind::NotFound {
                PackageProgress::ReadDeprecatedPaths { index_json }
            } else {
                PackageProgress::Finished(Err(PackageFailure::ReadPathsJsonError(e)))
            },
        }
    }

    /// The state after the attempt to rebuild the list of declared contents from
    /// the deprecated file list. Without that list the package has no
    /// declaration of its contents at all.
    pub open spec fn deprecated_paths_read(
        index_json: IndexJson,
        read: Result<PathsJson, IoError>,
    ) -> PackageProgress {
        match read {
            Ok(paths) => Self::entries(index_json, paths, PathsProgress::start(paths@)),
            Err(e) => if e.kind == IoErrorKind::NotFound {
                PackageProgress::Finished(Err(PackageFailure::MetadataMissing))
            } else {
                PackageProgress::Finished(Err(PackageFailure::ReadDeprecatedPathsJsonError(e)))
            },
        }
    }

    /// The state that follows `self` once the caller has observed `observed`.
    /// An observation that the state did not ask for leaves it as it is.
    pub open spec fn step(self, observed: Observation) -> PackageProgress {
        match (self, observed) {
            (PackageProgress::ReadIndexJson, Observation::IndexJson(read)) => match read {
                Ok(index_json) => PackageProgress::ReadPathsJson { index_json },
                Err(e) => PackageProgress::Finished(Err(PackageFailure::ReadIndexJsonError(e))),
            },
            (PackageProgress::ReadPathsJson { index_json }, Observation::PathsJson(read)) => Self::paths_json_read(
                index_json,
                read,
            ),
            (
                PackageProgress::ReadDeprecatedPaths { index_json },
                Observation::DeprecatedPaths(read),
            ) => Self::deprecated_paths_read(index_json, read),
            (
                PackageProgress::ValidateEntries { index_json, paths, progress },
                Observation::Entry(observed),
            ) => Self::entries(index_json, paths, progress.step(paths@, observed)),
            _ => self,
        }
    }

    /// What the state asks the caller to do.
    pub open spec fn request(self) -> RequestView {
        match self {
            PackageProgress::ReadIndexJson => RequestView::ReadIndexJson,
            PackageProgress::ReadPathsJson { .. } => RequestView::ReadPathsJson,
            PackageProgress::ReadDeprecatedPaths { .. } => RequestView::ReadDeprecatedPaths,
            PackageProgress::ValidateEntries { paths, progress, .. } => progress.request(paths@),
            PackageProgress::Finished(_) => RequestView::Nothing,
        }
    }
}

impl PackageValidation {
    /// The state in which the validation of a package directory starts.
    pub fn start() -> (r: PackageValidation)
        ensures
            r@ == PackageProgress::start(),
    {
        PackageValidation::ReadIndexJson
    }

    /// The state of a validation whose entries have come as far as `progress`.
    fn entries(
        index_json: IndexJson,
        paths: PathsJson,
        progress: PathsValidation,
    ) -> (r: PackageValidation)
        ensures
            r@ == PackageProgress::entries(index_json, paths, progress@),
    {
        match progress {
            PathsValidation::Finished(Ok(())) => PackageValidation::Finished(
                Ok((index_json, paths)),
            ),
            PathsValidation::Finished(Err((path, e))) => PackageValidation::Finished(
                Err(PackageValidationError::CorruptedEntry(path, e)),
            ),
            progress => PackageValidation::ValidateEntries { index_json, paths, progress },
        }
    }

    /// What the caller has to do next.
    pub fn request(&self) -> (r: Request)
        ensures
            r@ == self@.request(),
    {
        match self {
            PackageValidation::ReadIndexJson => Request::ReadIndexJson,
            PackageValidation::ReadPathsJson { .. } => Request::ReadPathsJson,
            PackageValidation::ReadDeprecatedPaths { .. } => Request::ReadDeprecatedPaths,
            PackageValidation::ValidateEntries { paths, progress, .. } => progress.request(paths),
            PackageValidation::Finished(_) => Request::Nothing,
        }
    }

    /// The result of the validation, once it has finished.
    pub fn into_result(self) -> (r: Option<Result<(IndexJson, PathsJson), PackageValidationError>>)
        ensures
            match r {
                Some(result) => self == PackageValidation::Finished(result),
                None => !(self is Finished),
            },
    {
        match self {
            PackageValidation::Finished(result) => Some(result),
            _ => None,
        }
    }
}

impl PathsValidation {
    /// The result of the validation, once it has finished.
    pub fn into_result(self) -> (r: Option<Result<(), (String, PackageEntryValidationError)>>)
        ensures
            match r {
                Some(result) => self == PathsValidation::Finished(result),
                None => !(self is Finished),
            },
    {
        match self {
            PathsValidation::Finished(result) => Some(result),
            _ => None,
        }
    }
}

impl PackageProgress {
    /// The state is sound: while entries are validated, the state of their
    /// validation belongs to them and has not finished.
    pub open spec fn wf(self) -> bool {
        match self {
            PackageProgress::ValidateEntries { paths, progress, .. } => {
                &&& progress.wf(paths@)
                &&& !(progress is Finished)
            },
            _ => true,
        }
    }
}

/// Validation starts in a sound state, and every step leads from a sound state
/// to a sound state, whatever is observed.
pub proof fn lemma_states_are_sound(progress: PackageProgress, observed: Observation)
    ensures
        PackageProgress::start().wf(),
        progress.wf() ==> progress.step(observed).wf(),
{
    match (progress, observed) {
        (PackageProgress::ReadPathsJson { .. }, Observation::PathsJson(Ok(paths))) => {
        },
        (PackageProgress::ReadDeprecatedPaths { .. }, Observation::DeprecatedPaths(Ok(paths))) => {
        },
        (PackageProgress::ValidateEntries { paths, progress, .. }, Observation::Entry(observed)) => {
            assert(paths@.len() == paths.paths.len());
            lemma_paths_states_belong(paths@, progress, observed);
        },
        _ => {},
    }
}

/// A sound state asks for a read until validation has finished, and for none
/// after that: a caller that does what it is asked for ends with a result.
pub proof fn lemma_asks_until_finished(progress: PackageProgress)
    requires
        progress.wf(),
    ensures
        progress.request() is Nothing <==> progress is Finished,
{
}

/// Takes the validation of a package directory one step further: from the state
/// `progress` and what the caller `observed` when it did what that state asked
/// for, to the state that follows.
///
/// The record that identifies the package comes first: without it the package
/// cannot be validated. Then the list of declared contents is read. Only if
/// that list does not exist, it is rebuilt from the deprecated file list; if
/// that does not exist either, the package declares nothing. Any other failure
/// to read one of the two is reported as such. Then every entry is validated,
/// and the first that does not match ends validation with its relative path and
/// the cause. When the last entry has matched, validation ends with the
/// identity and the declared contents of the package.
pub fn validate_package_directory(
    progress: PackageValidation,
    observed: Observation,
) -> (next: PackageValidation)
    ensures
        next@ == progress@.step(observed),
{
    match (progress, observed) {
        (PackageValidation::ReadIndexJson, Observation::IndexJson(read)) => match read {
            Ok(index_json) => PackageValidation::ReadPathsJson { index_json },
            Err(e) => PackageValidation::Finished(
                Err(PackageValidationError::ReadIndexJsonError(e)),
            ),
        },
        (PackageValidation::ReadPathsJson { index_json }, Observation::PathsJson(read)) => match read {
            Ok(paths) => {
                let progress = PathsValidation::start(&paths);
                PackageValidation::entries(index_json, paths, progress)
            },
            Err(e) => if e.is_not_found() {
                PackageValidation::ReadDeprecatedPaths { index_json }
            } else {
                PackageValidation::Finished(Err(PackageValidationError::ReadPathsJsonError(e)))
            },
        },
        (PackageValidation::ReadDeprecatedPaths { index_json }, Observation::DeprecatedPaths(read)) => match read {
            Ok(paths) => {
                let progress = PathsValidation::start(&paths);
                PackageValidation::entries(index_json, paths, progress)
            },
            Err(e) => if e.is_not_found() {
                PackageValidation::Finished(Err(PackageValidationError::MetadataMissing))
            } else {
                PackageValidation::Finished(
                    Err(PackageValidationError::ReadDeprecatedPathsJsonError(e)),
                )
            },
        },
        (PackageValidation::ValidateEntries { index_json, paths, progress }, Observation::Entry(observed)) => {
            let progress = validate_package_directory_from_paths(&paths, progress, observed);
            PackageValidation::entries(index_json, paths, progress)
        },
        (progress, _) => progress,
    }
}

} // verus!
