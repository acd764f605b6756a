//! What passes between a scanner and the one who drives it.
//!
//! A scanner never touches the file system. It says what it needs next, a
//! [`Request`], and is handed the outcome, an [`Event`].

use vstd::prelude::*;
use std::path::PathBuf;
use crate::filter::FileKind;

verus! {

/// What a scanner needs next.
#[derive(Debug, Clone, Copy, PartialEq, Eq, Structural)]
pub enum Request {
    /// The next entry of the listing that the scanner is reading.
    Pull,
    /// The type of the entry that the scanner is looking at.
    Kind,
    /// The type of what the entry that the scanner is looking at points to.
    Target,
    /// A listing of the directory that the scanner is looking at.
    Open,
    /// Nothing: the scan is over.
    Done,
}

/// An entry as a listing hands it out: a handle, its name where that is valid
/// Unicode, and its path.
pub struct Raw<D> {
    pub entry: D,
    pub name: Option<String>,
    pub path: PathBuf,
}

/// An entry whose name is valid Unicode.
pub struct Child<D> {
    pub entry: D,
    pub name: String,
    pub path: PathBuf,
}

/// The outcome of what a scanner asked for.
pub enum Event<L, D> {
    /// The listing has no more entries.
    End,
    /// The listing failed to hand out its next entry.
    Failed(std::io::Error),
    /// The listing handed out an entry.
    Entry(Raw<D>),
    /// The type of the entry, or why it could not be found out.
    Kind(Result<FileKind, std::io::Error>),
    /// The type of what the entry points to, or why it could not be found out.
    Target(Result<FileKind, std::io::Error>),
    /// A listing of the directory, or why it could not be opened.
    Opened(Result<L, std::io::Error>),
}

} // verus!
