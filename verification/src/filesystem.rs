//! Plain values that describe what was found on disk.

use vstd::prelude::*;

verus! {

/// The kind of object that a path leads to, without following symbolic links.
#[derive(Clone, Copy, Debug, PartialEq, Eq, Structural)]
pub enum FileType {
    /// A regular file.
    File,
    /// A directory.
    Directory,
    /// A symbolic link.
    Symlink,
    /// Anything else: a socket, a pipe, a device.
    Other,
}

/// What the file system reports about an object, without following symbolic links.
#[derive(Clone, Copy, Debug, PartialEq, Eq, Structural)]
pub struct Metadata {
    /// The kind of the object.
    pub file_type: FileType,
    /// The size of the object in bytes.
    pub len: u64,
}

impl Metadata {
    /// Whether the object is a symbolic link.
    pub fn is_symlink(&self) -> (r: bool)
        ensures
            r == (self.file_type == FileType::Symlink),
    {
        match self.file_type {
            FileType::Symlink => true,
            _ => false,
        }
    }

    /// Whether the object is a directory.
    pub fn is_dir(&self) -> (r: bool)
        ensures
            r == (self.file_type == FileType::Directory),
    {
        match self.file_type {
            FileType::Directory => true,
            _ => false,
        }
    }

    /// Whether the object is a regular file.
    pub fn is_file(&self) -> (r: bool)
        ensures
            r == (self.file_type == FileType::File),
    {
        match self.file_type {
            FileType::File => true,
            _ => false,
        }
    }
}

/// Why an I/O operation failed, as far as validation tells failures apart.
#[derive(Clone, Copy, Debug, PartialEq, Eq, Structural)]
pub enum IoErrorKind {
    /// The object does not exist.
    NotFound,
    /// The object exists but may not be read.
    PermissionDenied,
    /// The object was read but its content is malformed.
    InvalidData,
    /// Any other failure.
    Other,
}

/// A failed I/O operation.
#[derive(Clone, Debug, PartialEq, Eq)]
pub struct IoError {
    /// Why the operation failed.
    pub kind: IoErrorKind,
    /// A description of the failure for a human reader.
    pub message: String,
}

impl IoError {
    /// Whether the operation failed because the object does not exist.
    pub fn is_not_found(&self) -> (r: bool)
        ensures
            r == (self.kind == IoErrorKind::NotFound),
    {
        match self.kind {
            IoErrorKind::NotFound => true,
            _ => false,
        }
    }
}

} // verus!
