//! Validation of extracted package directories against their declared contents.
//!
//! A package archive declares the files, links and directories it contains. Once
//! the archive has been unpacked, this library decides whether the directory on
//! disk still matches that declaration. The library performs no I/O itself: it
//! says what has to be read next, the caller reads it and reports what it found,
//! and the library decides how validation goes on.

pub mod archive;
pub mod digest;
pub mod directory;
pub mod fields;
pub mod filesystem;
pub mod package;
pub mod text;
pub mod validation;
