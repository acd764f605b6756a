//! The recursive scan: depth first, each directory before what it holds.

use vstd::prelude::*;
use std::path::PathBuf;
use crate::settings::ScanDir;
use crate::error::Error;
use crate::event::{Child, Event, Raw, Request};
use crate::filter::{name_accepted, name_matches, FileKind};

verus! {

/// One directory that is being read: its listing, and its path.
pub struct Frame<L> {
    pub listing: L,
    pub path: PathBuf,
}

/// The entry that a walker is looking at, if any, and what it is waiting for.
pub enum Waiting<D> {
    /// No entry is being looked at.
    Nothing,
    /// The type of this entry is awaited.
    Kind(Child<D>),
    /// This entry is a directory, and its listing is awaited.
    Open(Child<D>),
}

/// The state of a recursive scan.
pub struct WalkState<L, D> {
    /// The settings of the scan.
    pub settings: ScanDir,
    /// The directory that is being read; none when the scan is over.
    pub cur: Option<Frame<L>>,
    /// The directories above it that are still to be resumed, the innermost
    /// last.
    pub stack: Seq<Frame<L>>,
    /// The entry that is being looked at.
    pub waiting: Waiting<D>,
}

/// What one event does to a recursive scan.
pub struct Outcome<L, D> {
    /// The state after the event.
    pub state: WalkState<L, D>,
    /// The entry that is reported, with its name.
    pub yielded: Option<(D, String)>,
    /// The failures that are recorded, in order.
    pub errors: Seq<Error>,
}

impl<L, D> WalkState<L, D> {
    /// An entry is looked at only while a directory is being read, and only if
    /// its name has passed the settings.
    pub open spec fn wf(self) -> bool {
        match self.waiting {
            Waiting::Nothing => true,
            Waiting::Kind(c) => self.cur is Some && name_accepted(self.settings, c.name@),
            Waiting::Open(c) => self.cur is Some && name_accepted(self.settings, c.name@),
        }
    }

    /// What the scan needs next.
    pub open spec fn request(self) -> Request {
        match self.waiting {
            Waiting::Kind(_) => Request::Kind,
            Waiting::Open(_) => Request::Open,
            Waiting::Nothing => if self.cur is Some {
                Request::Pull
            } else {
                Request::Done
            },
        }
    }

    /// The event changes nothing.
    pub open spec fn stay(self) -> Outcome<L, D> {
        Outcome { state: self, yielded: None, errors: Seq::empty() }
    }

    /// The entry that was looked at is dealt with, and reported or not.
    pub open spec fn settle(self, c: Child<D>, report: bool) -> Outcome<L, D> {
        Outcome {
            state: WalkState { waiting: Waiting::Nothing, ..self },
            yielded: if report {
                Some((c.entry, c.name))
            } else {
                None
            },
            errors: Seq::empty(),
        }
    }

    /// The listing that is being read has come to its end: the directory above
    /// is resumed, or the scan is over.
    pub open spec fn leave(self) -> Outcome<L, D> {
        if self.stack.len() > 0 {
            WalkState { cur: Some(self.stack.last()), stack: self.stack.drop_last(), ..self }.stay()
        } else {
            WalkState { cur: None, ..self }.stay()
        }
    }

    /// The listing that is being read has handed out an entry. One whose name
    /// is not valid Unicode is recorded as a failure, one whose name the
    /// settings leave out is passed over, and of any other the type is asked
    /// for.
    pub open spec fn meet(self, raw: Raw<D>) -> Outcome<L, D> {
        match raw.name {
            None => Outcome { errors: seq![Error::Decode(raw.path)], ..self.stay() },
            Some(name) => if name_accepted(self.settings, name@) {
                WalkState {
                    waiting: Waiting::Kind(Child { entry: raw.entry, name: name, path: raw.path }),
                    ..self
                }.stay()
            } else {
                self.stay()
            },
        }
    }

    /// The type of the entry is known. A directory is to be opened. A symbolic
    /// link is passed over where the settings leave links out. Anything else
    /// is reported unless files are left out.
    pub open spec fn classify(self, c: Child<D>, kind: FileKind) -> Outcome<L, D> {
        match kind {
            FileKind::Dir => WalkState { waiting: Waiting::Open(c), ..self }.stay(),
            FileKind::Symlink => self.settle(c, !self.settings.skip_symlinks && !self.settings.skip_files),
            FileKind::File => self.settle(c, !self.settings.skip_files),
        }
    }

    /// The directory has been opened: the one that was being read waits on the
    /// stack, and the new listing is read next. The directory itself is
    /// reported unless directories are left out.
    pub open spec fn descend(self, c: Child<D>, listing: L) -> Outcome<L, D> {
        WalkState {
            cur: Some(Frame { listing: listing, path: c.path }),
            stack: self.stack.push(self.cur->Some_0),
            ..self
        }.settle(c, !self.settings.skip_dirs)
    }

    /// What the event does to the scan. An event that is not what the scan
    /// asked for changes nothing.
    pub open spec fn step(self, event: Event<L, D>) -> Outcome<L, D> {
        match (self.waiting, event) {
            (Waiting::Nothing, Event::End) => if self.cur is Some {
                self.leave()
            } else {
                self.stay()
            },
            (Waiting::Nothing, Event::Failed(e)) => if self.cur is Some {
                Outcome { errors: seq![Error::Io(e, self.cur->Some_0.path)], ..self.stay() }
            } else {
                self.stay()
            },
            (Waiting::Nothing, Event::Entry(raw)) => if self.cur is Some {
                self.meet(raw)
            } else {
                self.stay()
            },
            (Waiting::Kind(c), Event::Kind(Ok(kind))) => self.classify(c, kind),
            (Waiting::Kind(c), Event::Kind(Err(e))) => Outcome {
                errors: seq![Error::Io(e, c.path)],
                ..self.settle(c, false)
            },
            (Waiting::Open(c), Event::Opened(Ok(listing))) => self.descend(c, listing),
            (Waiting::Open(c), Event::Opened(Err(e))) => Outcome {
                errors: seq![Error::Io(e, c.path)],
                ..self.settle(c, !self.settings.skip_dirs)
            },
            _ => self.stay(),
        }
    }
}

/// A recursive scan of a directory tree.
///
/// The walker reports the entries depth first and in the order in which the
/// listings hand them out. The same settings hold at every level. A directory
/// that the settings leave out by its name is not entered.
pub struct Walker<L, D> {
    settings: ScanDir,
    cur: Option<Frame<L>>,
    stack: Vec<Frame<L>>,
    waiting: Waiting<D>,
}

impl<L, D> View for Walker<L, D> {
    type V = WalkState<L, D>;

    closed spec fn view(&self) -> WalkState<L, D> {
        WalkState {
            settings: self.settings,
            cur: self.cur,
            stack: self.stack@,
            waiting: self.waiting,
        }
    }
}

/// The state in which a scan starts: at the root if it could be opened, and
/// over if not.
pub open spec fn start<L, D>(settings: ScanDir, path: PathBuf, opened: Result<L, std::io::Error>)
    -> Outcome<L, D> {
    Outcome {
        state: WalkState {
            settings: settings,
            cur: match opened {
                Ok(listing) => Some(Frame { listing: listing, path: path }),
                Err(_) => None,
            },
            stack: Seq::empty(),
            waiting: Waiting::Nothing,
        },
        yielded: None,
        errors: match opened {
            Ok(_) => Seq::empty(),
            Err(e) => seq![Error::Io(e, path)],
        },
    }
}

/// Starts a recursive scan at `path`, given the outcome of opening it. Where
/// the root could not be opened, that failure is recorded and the scan is over
/// before it began.
pub fn new<L, D>(
    settings: &ScanDir,
    errors: &mut Vec<Error>,
    path: PathBuf,
    opened: Result<L, std::io::Error>,
) -> (w: Walker<L, D>)
    ensures
        w@ == start::<L, D>(*settings, path, opened).state,
        final(errors)@ == old(errors)@ + start::<L, D>(*settings, path, opened).errors,
        w@.wf(),
{
    let cur = match opened {
        Ok(listing) => Some(Frame { listing: listing, path: path }),
        Err(e) => {
            errors.push(Error::Io(e, path));
            None
        },
    };
    Walker { settings: *settings, cur: cur, stack: Vec::new(), waiting: Waiting::Nothing }
}

impl<L, D> Walker<L, D> {
    /// What the walker needs next.
    pub fn request(&self) -> (r: Request)
        ensures
            r == self@.request(),
    {
        match &self.waiting {
            Waiting::Kind(_) => Request::Kind,
            Waiting::Open(_) => Request::Open,
            Waiting::Nothing => if self.cur.is_some() {
                Request::Pull
            } else {
                Request::Done
            },
        }
    }

    /// The listing that is being read, to pull its next entry from.
    pub fn listing(&mut self) -> (r: Option<&mut L>)
        ensures
            r is Some == (old(self)@.cur is Some),
            r is Some ==> *r->Some_0 == old(self)@.cur->Some_0.listing
                && final(self)@ == (WalkState {
                cur: Some(Frame { listing: *final(r->Some_0), path: old(self)@.cur->Some_0.path }),
                ..old(self)@
            }),
            r is None ==> final(self)@ == old(self)@,
    {
        match &mut self.cur {
            Some(frame) => Some(&mut frame.listing),
            None => None,
        }
    }

    /// The entry that the walker is looking at, to find out its type or to
    /// open it.
    pub fn pending(&self) -> (r: Option<&Child<D>>)
        ensures
            r == match self@.waiting {
                Waiting::Nothing => None,
                Waiting::Kind(c) => Some(&c),
                Waiting::Open(c) => Some(&c),
            },
    {
        match &self.waiting {
            Waiting::Nothing => None,
            Waiting::Kind(c) => Some(c),
            Waiting::Open(c) => Some(c),
        }
    }

    /// Takes one event, and reports an entry if the event completes one.
    ///
    /// Failures are added to `errors` and never end the scan: an unreadable
    /// entry is passed over, and a directory that cannot be opened is reported
    /// like any other but not entered. An event that is not what the walker
    /// asked for changes nothing.
    pub fn next(&mut self, errors: &mut Vec<Error>, event: Event<L, D>) -> (r: Option<(D, String)>)
        requires
            old(self)@.wf(),
        ensures
            final(self)@ == old(self)@.step(event).state,
            r == old(self)@.step(event).yielded,
            final(errors)@ == old(errors)@ + old(self)@.step(event).errors,
            final(self)@.wf(),
            final(self)@.settings == old(self)@.settings,
            r is Some ==> name_accepted(old(self)@.settings, r->Some_0.1@),
            old(self)@.settings.skip_dirs && old(self)@.settings.skip_files ==> r is None,
    {
        let mut waiting = Waiting::Nothing;
        std::mem::swap(&mut waiting, &mut self.waiting);
        proof {
            assert(old(errors)@ + Seq::<Error>::empty() =~= old(errors)@);
        }
        match (waiting, event) {
            (Waiting::Nothing, Event::End) => {
                if self.cur.is_some() {
                    let above = self.stack.pop();
                    self.cur = above;
                }
                None
            },
            (Waiting::Nothing, Event::Failed(e)) => {
                match &self.cur {
                    Some(frame) => {
                        let path = frame.path.clone();
                        errors.push(Error::Io(e, path));
                    },
                    None => {},
                }
                None
            },
            (Waiting::Nothing, Event::Entry(raw)) => {
                if self.cur.is_some() {
                    match raw.name {
                        None => {
                            errors.push(Error::Decode(raw.path));
                        },
                        Some(name) => {
                            if name_matches(&self.settings, &name) {
                                self.waiting = Waiting::Kind(
                                    Child { entry: raw.entry, name: name, path: raw.path },
                                );
                            }
                        },
                    }
                }
                None
            },
            (Waiting::Kind(c), Event::Kind(Ok(kind))) => {
                match kind {
                    FileKind::Dir => {
                        self.waiting = Waiting::Open(c);
                        None
                    },
                    FileKind::Symlink => {
                        if !self.settings.skip_symlinks && !self.settings.skip_files {
                            Some((c.entry, c.name))
                        } else {
                            None
                        }
                    },
                    FileKind::File => {
                        if !self.settings.skip_files {
                            Some((c.entry, c.name))
                        } else {
                            None
                        }
                    },
                }
            },
            (Waiting::Kind(c), Event::Kind(Err(e))) => {
                errors.push(Error::Io(e, c.path));
                None
            },
            (Waiting::Open(c), Event::Opened(opened)) => {
                match opened {
                    Ok(listing) => {
                        let mut frame = Some(Frame { listing: listing, path: c.path });
                        std::mem::swap(&mut frame, &mut self.cur);
                        match frame {
                            Some(above) => {
                                self.stack.push(above);
                            },
                            None => {},
                        }
                    },
                    Err(e) => {
                        errors.push(Error::Io(e, c.path));
                    },
                }
                if !self.settings.skip_dirs {
                    Some((c.entry, c.name))
                } else {
                    None
                }
            },
            (waiting, _) => {
                self.waiting = waiting;
                None
            },
        }
    }
}

} // verus!
