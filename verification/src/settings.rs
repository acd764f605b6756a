//! The settings of a scan.

use vstd::prelude::*;
use crate::error::Error;

verus! {

/// Settings for a directory scan: which entries are left out.
#[derive(Debug, Clone, Copy, PartialEq, Eq, Structural)]
pub struct ScanDir {
    /// Leave out entries whose name starts with a dot.
    pub skip_hidden: bool,
    /// Leave out directories.
    pub skip_dirs: bool,
    /// Leave out everything that is not a directory.
    pub skip_files: bool,
    /// Leave out backup files of editors and version control systems.
    pub skip_backup: bool,
    /// Leave out symbolic links instead of looking at what they point to.
    pub skip_symlinks: bool,
}

impl ScanDir {
    /// Settings that report every entry.
    pub fn all() -> (r: ScanDir)
        ensures
            r == (ScanDir {
                skip_hidden: false,
                skip_dirs: false,
                skip_files: false,
                skip_backup: false,
                skip_symlinks: false,
            }),
    {
        ScanDir {
            skip_hidden: false,
            skip_dirs: false,
            skip_files: false,
            skip_backup: false,
            skip_symlinks: false,
        }
    }

    /// Settings that report files (everything but directories), without
    /// hidden and backup entries.
    pub fn files() -> (r: ScanDir)
        ensures
            r == (ScanDir {
                skip_hidden: true,
                skip_dirs: true,
                skip_files: false,
                skip_backup: true,
                skip_symlinks: false,
            }),
    {
        ScanDir {
            skip_hidden: true,
            skip_dirs: true,
            skip_files: false,
            skip_backup: true,
            skip_symlinks: false,
        }
    }

    /// Settings that report directories, without hidden and backup entries.
    pub fn dirs() -> (r: ScanDir)
        ensures
            r == (ScanDir {
                skip_hidden: true,
                skip_dirs: false,
                skip_files: true,
                skip_backup: true,
                skip_symlinks: false,
            }),
    {
        ScanDir {
            skip_hidden: true,
            skip_dirs: false,
            skip_files: true,
            skip_backup: true,
            skip_symlinks: false,
        }
    }

    /// Sets whether hidden entries, those whose name starts with a dot, are
    /// left out.
    pub fn skip_hidden(&mut self, flag: bool) -> (r: &mut ScanDir)
        ensures
            *r == (ScanDir { skip_hidden: flag, ..*old(self) }),
            *final(self) == *final(r),
    {
        self.skip_hidden = flag;
        self
    }
    /// Sets whether directories are left out.
    pub fn skip_dirs(&mut self, flag: bool) -> (r: &mut ScanDir)
        ensures
            *r == (ScanDir { skip_dirs: flag, ..*old(self) }),
            *final(self) == *final(r),
    {
        self.skip_dirs = flag;
        self
    }

    /// Sets whether files, that is everything but directories, are left out.
    pub fn skip_files(&mut self, flag: bool) -> (r: &mut ScanDir)
        ensures
            *r == (ScanDir { skip_files: flag, ..*old(self) }),
            *final(self) == *final(r),
    {
        self.skip_files = flag;
        self
    }

    /// Sets whether symbolic links are left out.
    ///
    /// Where directories or files are left out, a symbolic link stands for
    /// what it points to, unless this flag leaves links out altogether. A
    /// recursive scan never follows a link, and reports it as a file unless
    /// this flag leaves it out.
    pub fn skip_symlinks(&mut self, flag: bool) -> (r: &mut ScanDir)
        ensures
            *r == (ScanDir { skip_symlinks: flag, ..*old(self) }),
            *final(self) == *final(r),
    {
        self.skip_symlinks = flag;
        self
    }

    /// Sets whether backup files are left out: names that end in `.bak` or in
    /// `~`, and names that both start and end with `#`.
    pub fn skip_backup(&mut self, flag: bool) -> (r: &mut ScanDir)
        ensures
            *r == (ScanDir { skip_backup: flag, ..*old(self) }),
            *final(self) == *final(r),
    {
        self.skip_backup = flag;
        self
    }

    /// The result of a scan of one directory: the failure that the scan kept,
    /// if any, and else what the caller made of the entries.
    pub fn read<R>(&self, seen: Result<(), Error>, value: R) -> (r: Result<R, Error>)
        ensures
            r == match seen {
                Ok(_) => Ok::<R, Error>(value),
                Err(e) => Err(e),
            },
    {
        match seen {
            Ok(_) => Ok(value),
            Err(e) => Err(e),
        }
    }

    /// The result of a recursive scan: the failures that the scan met, if any,
    /// and else what the caller made of the entries.
    pub fn walk<R>(&self, errors: Vec<Error>, value: R) -> (r: Result<R, Vec<Error>>)
        ensures
            r == if errors@.len() > 0 {
                Err::<R, Vec<Error>>(errors)
            } else {
                Ok(value)
            },
    {
        if errors.len() > 0 {
            Err(errors)
        } else {
            Ok(value)
        }
    }
}

} // verus!
