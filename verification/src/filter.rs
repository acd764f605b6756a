//! The rules that decide whether an entry is reported.

use vstd::prelude::*;
use vstd::string::StrSliceExecFns;
use crate::settings::ScanDir;

verus! {

/// What an entry of a directory is.
#[derive(Debug, Clone, Copy, PartialEq, Eq, Structural)]
pub enum FileKind {
    /// Anything that is neither a directory nor a symbolic link.
    File,
    /// A directory.
    Dir,
    /// A symbolic link.
    Symlink,
}

/// What is known of an entry decides whether it is reported, or what has to be
/// found out about it before that can be told.
#[derive(Debug, Clone, Copy, PartialEq, Eq, Structural)]
pub enum Verdict {
    /// The entry is reported.
    Accept,
    /// The entry is left out.
    Reject,
    /// The type of the entry is needed.
    NeedKind,
    /// The entry is a symbolic link, and the type of what it points to is
    /// needed.
    NeedTarget,
}

/// A name is hidden when it starts with a dot.
pub open spec fn is_hidden(name: Seq<char>) -> bool {
    name.len() > 0 && name[0] == '.'
}

/// A name is that of a backup file when it ends with `~` or with `.bak`, or
/// when it both starts and ends with `#`.
pub open spec fn is_backup(name: Seq<char>) -> bool {
    let n = name.len() as int;
    ||| (n >= 1 && name[n - 1] == '~')
    ||| (n >= 4 && name[n - 4] == '.' && name[n - 3] == 'b' && name[n - 2] == 'a' && name[n - 1]
        == 'k')
    ||| (n >= 1 && name[0] == '#' && name[n - 1] == '#')
}

/// Whether the settings let a name through: it is not hidden where hidden
/// entries are left out, and no backup name where backups are left out.
pub open spec fn name_accepted(s: ScanDir, name: Seq<char>) -> bool {
    &&& !(s.skip_hidden && is_hidden(name))
    &&& !(s.skip_backup && is_backup(name))
}

/// Tells whether the settings let the name through.
pub fn name_matches(s: &ScanDir, name: &String) -> (r: bool)
    ensures
        r == name_accepted(*s, name@),
{
    let text = name.as_str();
    let n: usize = text.unicode_len();
    if n == 0 {
        return true;
    }
    let first = text.get_char(0);
    if s.skip_hidden && first == '.' {
        return false;
    }
    if s.skip_backup {
        let last = text.get_char(n - 1);
        if last == '~' {
            return false;
        }
        if first == '#' && last == '#' {
            return false;
        }
        if n >= 4 && last == 'k' && text.get_char(n - 2) == 'a' && text.get_char(n - 3) == 'b'
            && text.get_char(n - 4) == '.' {
            return false;
        }
    }
    true
}

/// Whether the settings let an entry of the given type through, once its name
/// has passed.
pub open spec fn kind_accepted(s: ScanDir, kind: FileKind) -> bool {
    &&& !(s.skip_dirs && kind is Dir)
    &&& !(s.skip_files && !(kind is Dir))
}

/// The verdict on an entry of which the name is known, and perhaps its type
/// and the type of what it points to.
///
/// The name is judged first, so that an entry left out by its name costs no
/// question about its type. The type matters only where directories or files
/// are left out. A symbolic link is left out where the settings say so, and
/// otherwise stands for what it points to.
pub open spec fn verdict(
    s: ScanDir,
    name: Seq<char>,
    kind: Option<FileKind>,
    target: Option<FileKind>,
) -> Verdict {
    if !name_accepted(s, name) {
        Verdict::Reject
    } else if !s.skip_dirs && !s.skip_files {
        Verdict::Accept
    } else {
        match kind {
            None => Verdict::NeedKind,
            Some(FileKind::Symlink) => if s.skip_symlinks {
                Verdict::Reject
            } else {
                match target {
                    None => Verdict::NeedTarget,
                    Some(t) => if kind_accepted(s, t) {
                        Verdict::Accept
                    } else {
                        Verdict::Reject
                    },
                }
            },
            Some(k) => if kind_accepted(s, k) {
                Verdict::Accept
            } else {
                Verdict::Reject
            },
        }
    }
}

/// Judges an entry by what is known of it: its name, its type if that has been
/// asked for, and the type of what it points to if that has been asked for.
pub fn matches(s: &ScanDir, name: &String, kind: Option<FileKind>, target: Option<FileKind>) -> (r:
    Verdict)
    ensures
        r == verdict(*s, name@, kind, target),
{
    if !name_matches(s, name) {
        return Verdict::Reject;
    }
    if !s.skip_dirs && !s.skip_files {
        return Verdict::Accept;
    }
    let effective = match kind {
        None => {
            return Verdict::NeedKind;
        },
        Some(FileKind::Symlink) => {
            if s.skip_symlinks {
                return Verdict::Reject;
            }
            match target {
                None => {
                    return Verdict::NeedTarget;
                },
                Some(t) => t,
            }
        },
        Some(k) => k,
    };
    if s.skip_dirs && is_dir(effective) {
        return Verdict::Reject;
    }
    if s.skip_files && !is_dir(effective) {
        return Verdict::Reject;
    }
    Verdict::Accept
}

/// Tells whether the type is that of a directory.
pub fn is_dir(kind: FileKind) -> (r: bool)
    ensures
        r == (kind is Dir),
{
    match kind {
        FileKind::Dir => true,
        _ => false,
    }
}

/// The names of a list that the settings let through, in their order.
pub open spec fn accepted_names(s: ScanDir, names: Seq<Seq<char>>) -> Seq<Seq<char>> {
    names.filter(|name: Seq<char>| name_accepted(s, name))
}

/// Filtering twice is filtering once: every name that the settings let
/// through, they let through again.
pub proof fn filtering_is_idempotent(s: ScanDir, names: Seq<Seq<char>>)
    ensures
        accepted_names(s, accepted_names(s, names)) == accepted_names(s, names),
        forall|i: int|
            0 <= i < accepted_names(s, names).len() ==> name_accepted(
                s,
                #[trigger] accepted_names(s, names)[i],
            ),
    decreases names.len(),
{
    let keep = |name: Seq<char>| name_accepted(s, name);
    reveal(Seq::filter);
    if names.len() > 0 {
        let shorter = names.drop_last();
        filtering_is_idempotent(s, shorter);
        let kept = shorter.filter(keep);
        assert(accepted_names(s, shorter) == kept);
        if keep(names.last()) {
            kept.lemma_filter_push(names.last(), keep);
        }
    }
}

} // verus!
