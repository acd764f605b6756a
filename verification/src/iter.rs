//! The scan of one directory, without entering its subdirectories.

use vstd::prelude::*;
use std::path::PathBuf;
use crate::settings::ScanDir;
use crate::error::{error, retained, Error};
use crate::event::{Child, Event, Raw, Request};
use crate::filter::{name_accepted, verdict, FileKind, Verdict};

verus! {

/// The entry that a scan of one directory is looking at, if any, and what it
/// is waiting for.
pub enum Probing<D> {
    /// No entry is being looked at.
    Nothing,
    /// The type of this entry is awaited.
    Kind(Child<D>),
    /// This entry is a symbolic link, and the type of what it points to is
    /// awaited.
    Target(Child<D>),
}

/// The state of a scan of one directory.
pub struct IterState<L, D> {
    /// The settings of the scan.
    pub settings: ScanDir,
    /// The path of the directory.
    pub path: PathBuf,
    /// The listing of the directory; none if it could not be opened.
    pub iter: Option<L>,
    /// The entry that is being looked at.
    pub waiting: Probing<D>,
}

/// What one event does to a scan of one directory.
pub struct IterOutcome<L, D> {
    /// The state after the event.
    pub state: IterState<L, D>,
    /// The entry that is reported, with its name.
    pub yielded: Option<(D, String)>,
    /// The failure that the event brings, if any.
    pub failure: Option<Error>,
}

/// The slot of a scan after an event: a failure that the event brings is
/// weighed against what the slot holds.
pub open spec fn slot_after(seen: Result<(), Error>, failure: Option<Error>) -> Result<(), Error> {
    match failure {
        Some(e) => retained(seen, e),
        None => seen,
    }
}

impl<L, D> IterState<L, D> {
    /// An entry is looked at only while the directory is being read, and only
    /// if what is known of it leaves open the question that is being asked.
    pub open spec fn wf(self) -> bool {
        match self.waiting {
            Probing::Nothing => true,
            Probing::Kind(c) => self.iter is Some && verdict(self.settings, c.name@, None, None)
                == Verdict::NeedKind,
            Probing::Target(c) => self.iter is Some && verdict(
                self.settings,
                c.name@,
                Some(FileKind::Symlink),
                None,
            ) == Verdict::NeedTarget,
        }
    }

    /// What the scan needs next.
    pub open spec fn request(self) -> Request {
        match self.waiting {
            Probing::Kind(_) => Request::Kind,
            Probing::Target(_) => Request::Target,
            Probing::Nothing => if self.iter is Some {
                Request::Pull
            } else {
                Request::Done
            },
        }
    }

    /// The event changes nothing.
    pub open spec fn stay(self) -> IterOutcome<L, D> {
        IterOutcome { state: self, yielded: None, failure: None }
    }

    /// The entry has been judged as far as a verdict goes: it is reported,
    /// passed over, or looked at further.
    pub open spec fn judge(self, c: Child<D>, v: Verdict) -> IterOutcome<L, D> {
        let state = IterState {
            waiting: match v {
                Verdict::NeedKind => Probing::Kind(c),
                Verdict::NeedTarget => Probing::Target(c),
                _ => Probing::Nothing,
            },
            ..self
        };
        IterOutcome {
            state: state,
            yielded: if v is Accept {
                Some((c.entry, c.name))
            } else {
                None
            },
            failure: None,
        }
    }

    /// The event brings a failure, and no entry is looked at any more.
    pub open spec fn fail(self, e: Error) -> IterOutcome<L, D> {
        IterOutcome {
            state: IterState { waiting: Probing::Nothing, ..self },
            yielded: None,
            failure: Some(e),
        }
    }

    /// What the event does to the scan. An event that is not what the scan
    /// asked for changes nothing.
    pub open spec fn step(self, event: Event<L, D>) -> IterOutcome<L, D> {
        match (self.waiting, event) {
            (Probing::Nothing, Event::Failed(e)) => if self.iter is Some {
                self.fail(Error::Io(e, self.path))
            } else {
                self.stay()
            },
            (Probing::Nothing, Event::Entry(raw)) => if self.iter is Some {
                match raw.name {
                    None => self.fail(Error::Decode(raw.path)),
                    Some(name) => self.judge(
                        Child { entry: raw.entry, name: name, path: raw.path },
                        verdict(self.settings, name@, None, None),
                    ),
                }
            } else {
                self.stay()
            },
            (Probing::Kind(c), Event::Kind(Ok(kind))) => self.judge(
                c,
                verdict(self.settings, c.name@, Some(kind), None),
            ),
            (Probing::Kind(c), Event::Kind(Err(e))) => self.fail(Error::Io(e, c.path)),
            (Probing::Target(c), Event::Target(Ok(kind))) => self.judge(
                c,
                verdict(self.settings, c.name@, Some(FileKind::Symlink), Some(kind)),
            ),
            (Probing::Target(c), Event::Target(Err(e))) => self.fail(Error::Io(e, c.path)),
            _ => self.stay(),
        }
    }
}

/// A scan of one directory.
///
/// Every entry that it reports has a name that is valid Unicode. Of the
/// failures it meets only one is kept.
pub struct Iter<L, D> {
    settings: ScanDir,
    path: PathBuf,
    iter: Option<L>,
    waiting: Probing<D>,
}

impl<L, D> View for Iter<L, D> {
    type V = IterState<L, D>;

    closed spec fn view(&self) -> IterState<L, D> {
        IterState {
            settings: self.settings,
            path: self.path,
            iter: self.iter,
            waiting: self.waiting,
        }
    }
}

/// Starts the scan of the directory at `path`, given the outcome of opening
/// it. Where it could not be opened, that failure is put in the slot, whatever
/// the slot held, and the scan is over before it began.
pub fn new<L, D>(
    settings: &ScanDir,
    slot: &mut Result<(), Error>,
    path: PathBuf,
    opened: Result<L, std::io::Error>,
) -> (it: Iter<L, D>)
    ensures
        it@ == (IterState::<L, D> {
            settings: *settings,
            path: path,
            iter: match opened {
                Ok(listing) => Some(listing),
                Err(_) => None,
            },
            waiting: Probing::Nothing,
        }),
        *final(slot) == match opened {
            Ok(_) => *old(slot),
            Err(e) => Err(Error::Io(e, path)),
        },
        it@.wf(),
{
    let iter = match opened {
        Ok(listing) => Some(listing),
        Err(e) => {
            *slot = Err(Error::Io(e, path.clone()));
            None
        },
    };
    Iter { settings: *settings, path: path, iter: iter, waiting: Probing::Nothing }
}

impl<L, D> Iter<L, D> {
    /// What the scan needs next.
    pub fn request(&self) -> (r: Request)
        ensures
            r == self@.request(),
    {
        match &self.waiting {
            Probing::Kind(_) => Request::Kind,
            Probing::Target(_) => Request::Target,
            Probing::Nothing => if self.iter.is_some() {
                Request::Pull
            } else {
                Request::Done
            },
        }
    }

    /// The listing of the directory, to pull its next entry from.
    pub fn listing(&mut self) -> (r: Option<&mut L>)
        ensures
            r is Some == (old(self)@.iter is Some),
            r is Some ==> *r->Some_0 == old(self)@.iter->Some_0 && final(self)@ == (IterState {
                iter: Some(*final(r->Some_0)),
                ..old(self)@
            }),
            r is None ==> final(self)@ == old(self)@,
    {
        self.iter.as_mut()
    }

    /// The entry that the scan is looking at, to find out its type or the type
    /// of what it points to.
    pub fn pending(&self) -> (r: Option<&Child<D>>)
        ensures
            r == match self@.waiting {
                Probing::Nothing => None,
                Probing::Kind(c) => Some(&c),
                Probing::Target(c) => Some(&c),
            },
    {
        match &self.waiting {
            Probing::Nothing => None,
            Probing::Kind(c) => Some(c),
            Probing::Target(c) => Some(c),
        }
    }

    /// Takes one event, and reports an entry if the event completes one.
    ///
    /// A failure is weighed against what the slot holds and never ends the
    /// scan. An event that is not what the scan asked for changes nothing.
    pub fn next(&mut self, slot: &mut Result<(), Error>, event: Event<L, D>) -> (r: Option<
        (D, String),
    >)
        requires
            old(self)@.wf(),
        ensures
            final(self)@ == old(self)@.step(event).state,
            r == old(self)@.step(event).yielded,
            *final(slot) == slot_after(*old(slot), old(self)@.step(event).failure),
            final(self)@.wf(),
            final(self)@.settings == old(self)@.settings,
            r is Some ==> name_accepted(old(self)@.settings, r->Some_0.1@),
            old(self)@.settings.skip_dirs && old(self)@.settings.skip_files ==> r is None,
    {
        let mut waiting = Probing::Nothing;
        std::mem::swap(&mut waiting, &mut self.waiting);
        match (waiting, event) {
            (Probing::Nothing, Event::Failed(e)) => {
                if self.iter.is_some() {
                    error(slot, Error::Io(e, self.path.clone()));
                }
                None
            },
            (Probing::Nothing, Event::Entry(raw)) => {
                if self.iter.is_some() {
                    match raw.name {
                        None => {
                            error(slot, Error::Decode(raw.path));
                            None
                        },
                        Some(name) => {
                            let v = crate::filter::matches(&self.settings, &name, None, None);
                            self.settle(Child { entry: raw.entry, name: name, path: raw.path }, v)
                        },
                    }
                } else {
                    None
                }
            },
            (Probing::Kind(c), Event::Kind(Ok(kind))) => {
                let v = crate::filter::matches(&self.settings, &c.name, Some(kind), None);
                self.settle(c, v)
            },
            (Probing::Kind(c), Event::Kind(Err(e))) => {
                error(slot, Error::Io(e, c.path));
                None
            },
            (Probing::Target(c), Event::Target(Ok(kind))) => {
                let v = crate::filter::matches(&self.settings, &c.name, Some(FileKind::Symlink), Some(kind));
                self.settle(c, v)
            },
            (Probing::Target(c), Event::Target(Err(e))) => {
                error(slot, Error::Io(e, c.path));
                None
            },
            (waiting, _) => {
                self.waiting = waiting;
                None
            },
        }
    }

    /// Does what the filter has decided: the entry is handed out, dropped, or
    /// looked at further.
    fn settle(&mut self, c: Child<D>, v: Verdict) -> (r: Option<(D, String)>)
        requires
            old(self)@.waiting is Nothing,
        ensures
            final(self)@ == old(self)@.judge(c, v).state,
            r == old(self)@.judge(c, v).yielded,
    {
        match v {
            Verdict::Accept => Some((c.entry, c.name)),
            Verdict::Reject => None,
            Verdict::NeedKind => {
                self.waiting = Probing::Kind(c);
                None
            },
            Verdict::NeedTarget => {
                self.waiting = Probing::Target(c);
                None
            },
        }
    }
}

} // verus!
