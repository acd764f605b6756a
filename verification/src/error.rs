//! What can go wrong during a scan.

use vstd::prelude::*;
use std::path::PathBuf;

verus! {

/// `std::io::Error`, carried through the scanner as it was received.
#[verifier::external_type_specification]
#[verifier::external_body]
pub struct ExIoError(std::io::Error);

/// `std::path::PathBuf`, carried through the scanner as it was received.
#[verifier::external_type_specification]
#[verifier::external_body]
pub struct ExPathBuf(std::path::PathBuf);

/// `PathBuf::clone`: the copy is the same path as the one it was made from.
pub assume_specification[ <std::path::PathBuf as Clone>::clone ](p: &std::path::PathBuf) -> (r:
    std::path::PathBuf)
    ensures
        r == *p,
;

/// A failure met during a scan. It always names the path it concerns.
#[derive(Debug)]
pub enum Error {
    /// A directory could not be read, or the type of an entry could not be
    /// found out. The path is that of the directory, or of the entry.
    Io(std::io::Error, PathBuf),
    /// The name of an entry is not valid Unicode. The path is that of the
    /// entry.
    Decode(PathBuf),
}

/// What a scan of one directory keeps of its failures: the first one, except
/// that a failure to read replaces an undecodable name, because it means that
/// entries may be missing altogether.
pub open spec fn retained(seen: Result<(), Error>, new: Error) -> Result<(), Error> {
    match seen {
        Ok(_) => Err(new),
        Err(Error::Decode(_)) => if new is Io {
            Err(new)
        } else {
            seen
        },
        Err(Error::Io(_, _)) => seen,
    }
}

/// Records a failure in the slot of a scan of one directory.
pub fn error(seen: &mut Result<(), Error>, new: Error)
    ensures
        *final(seen) == retained(*old(seen), new),
{
    let overwrite = match &*seen {
        Ok(_) => true,
        Err(Error::Decode(_)) => match &new {
            Error::Io(_, _) => true,
            Error::Decode(_) => false,
        },
        Err(Error::Io(_, _)) => false,
    };
    if overwrite {
        *seen = Err(new);
    }
}

} // verus!
