//! A directory tree as a recursive scan sees it, and what the scan makes of
//! it.
//!
//! The tree is a model: it says what every question of a walker would be
//! answered with. The walk of a tree is defined directly, by recursion over
//! the tree, and the walker is proved to produce exactly that walk.

use vstd::prelude::*;
use std::path::PathBuf;
use crate::settings::ScanDir;
use crate::error::Error;
use crate::event::{Child, Event, Raw, Request};
use crate::filter::{name_accepted, FileKind};
use crate::walk::{start, Frame, Outcome, Waiting, WalkState};

verus! {

/// An entry of a directory, with the answers to all that can be asked of it.
pub struct Node {
    /// Its name, where that is valid Unicode.
    pub name: Option<String>,
    /// Its path.
    pub path: PathBuf,
    /// Its type, or why that cannot be found out.
    pub kind: Result<FileKind, std::io::Error>,
    /// What a listing of it hands out, or why it cannot be opened. This
    /// matters for a directory only.
    pub listing: Result<Seq<Item>, std::io::Error>,
}

/// What a listing hands out at one pull.
pub enum Item {
    /// A failure to read the directory.
    Broken(std::io::Error),
    /// An entry.
    Entry(Node),
}

/// What a scan produces: the entries it reports, and the failures it records,
/// each in order.
pub struct Trace {
    pub yields: Seq<(Node, String)>,
    pub errors: Seq<Error>,
}

impl Trace {
    /// Nothing reported, nothing recorded.
    pub open spec fn empty() -> Trace {
        Trace { yields: Seq::empty(), errors: Seq::empty() }
    }

    /// One failure.
    pub open spec fn failure(e: Error) -> Trace {
        Trace { yields: Seq::empty(), errors: seq![e] }
    }

    /// The entry, if it is reported.
    pub open spec fn report(wanted: bool, n: Node, name: String) -> Trace {
        Trace {
            yields: if wanted {
                seq![(n, name)]
            } else {
                Seq::empty()
            },
            errors: Seq::empty(),
        }
    }

    /// This trace, and then the other.
    pub open spec fn followed_by(self, other: Trace) -> Trace {
        Trace { yields: self.yields + other.yields, errors: self.errors + other.errors }
    }
}

/// The walk of one entry: the entry itself, and then, for a directory that
/// can be opened, all that it holds.
pub open spec fn walk_node(s: ScanDir, n: Node) -> Trace
    decreases n, 0nat,
{
    match n.name {
        None => Trace::failure(Error::Decode(n.path)),
        Some(name) => if !name_accepted(s, name@) {
            Trace::empty()
        } else {
            match n.kind {
                Err(e) => Trace::failure(Error::Io(e, n.path)),
                Ok(FileKind::File) => Trace::report(!s.skip_files, n, name),
                Ok(FileKind::Symlink) => Trace::report(!s.skip_symlinks && !s.skip_files, n, name),
                Ok(FileKind::Dir) => match n.listing {
                    Err(e) => Trace::failure(Error::Io(e, n.path)).followed_by(
                        Trace::report(!s.skip_dirs, n, name),
                    ),
                    Ok(items) => Trace::report(!s.skip_dirs, n, name).followed_by(
                        walk_items(s, n.path, items),
                    ),
                },
            }
        }
    }
}

/// The walk of what a listing of the directory at `dir` hands out: the walk of
/// the first item, and then that of the others.
pub open spec fn walk_items(s: ScanDir, dir: PathBuf, items: Seq<Item>) -> Trace
    decreases items, 1nat,
{
    if items.len() == 0 {
        Trace::empty()
    } else {
        let first = match items[0] {
            Item::Broken(e) => Trace::failure(Error::Io(e, dir)),
            Item::Entry(n) => walk_node(s, n),
        };
        first.followed_by(walk_items(s, dir, items.drop_first()))
    }
}

/// The number of events that the walk of one entry takes.
pub open spec fn steps_node(s: ScanDir, n: Node) -> nat
    decreases n, 0nat,
{
    match n.name {
        None => 1,
        Some(name) => if !name_accepted(s, name@) {
            1
        } else {
            match n.kind {
                Err(_) => 2,
                Ok(FileKind::Dir) => match n.listing {
                    Err(_) => 3,
                    Ok(items) => 3 + steps_items(s, items),
                },
                Ok(_) => 2,
            }
        }
    }
}

/// The number of events that the walk of a listing takes, the one that ends
/// the listing included.
pub open spec fn steps_items(s: ScanDir, items: Seq<Item>) -> nat
    decreases items, 1nat,
{
    if items.len() == 0 {
        1
    } else {
        let first: nat = match items[0] {
            Item::Broken(_) => 1,
            Item::Entry(n) => steps_node(s, n),
        };
        first + steps_items(s, items.drop_first())
    }
}

/// The state of a walker over a tree: a listing is what is left of it, and an
/// entry is its node.
pub type TreeWalk = WalkState<Seq<Item>, Node>;

/// The event that an item of a listing arrives as.
pub open spec fn arrival(item: Item) -> Event<Seq<Item>, Node> {
    match item {
        Item::Broken(e) => Event::Failed(e),
        Item::Entry(n) => Event::Entry(Raw { entry: n, name: n.name, path: n.path }),
    }
}

/// The walker's state once the listing that it reads has handed out its first
/// item.
pub open spec fn pulled(st: TreeWalk) -> TreeWalk {
    let frame = st.cur->Some_0;
    WalkState { cur: Some(Frame { listing: frame.listing.drop_first(), path: frame.path }), ..st }
}

/// One turn of a walk over a tree: the tree answers what the walker asks for,
/// and the walker takes the answer.
pub open spec fn turn(st: TreeWalk) -> Outcome<Seq<Item>, Node> {
    match st.request() {
        Request::Pull => {
            let items = st.cur->Some_0.listing;
            if items.len() == 0 {
                st.step(Event::End)
            } else {
                pulled(st).step(arrival(items[0]))
            }
        },
        Request::Kind => st.step(Event::Kind(st.waiting->Kind_0.entry.kind)),
        Request::Open => st.step(Event::Opened(st.waiting->Open_0.entry.listing)),
        _ => st.stay(),
    }
}

/// What one turn produces.
pub open spec fn produced(o: Outcome<Seq<Item>, Node>) -> Trace {
    Trace {
        yields: match o.yielded {
            Some(pair) => seq![pair],
            None => Seq::empty(),
        },
        errors: o.errors,
    }
}

/// Where a number of turns lead, and what they produce.
pub struct Run {
    pub state: TreeWalk,
    pub trace: Trace,
}

/// The walker after `n` turns over a tree.
pub open spec fn run(st: TreeWalk, n: nat) -> Run
    decreases n,
{
    if n == 0 {
        Run { state: st, trace: Trace::empty() }
    } else {
        let o = turn(st);
        let r = run(o.state, (n - 1) as nat);
        Run { state: r.state, trace: produced(o).followed_by(r.trace) }
    }
}

/// Traces follow one another without regard to grouping, and an empty trace
/// adds nothing.
pub proof fn lemma_followed_by_assoc(a: Trace, b: Trace, c: Trace)
    ensures
        a.followed_by(b).followed_by(c) == a.followed_by(b.followed_by(c)),
        a.followed_by(Trace::empty()) == a,
        Trace::empty().followed_by(a) == a,
{
    assert((a.yields + b.yields) + c.yields =~= a.yields + (b.yields + c.yields));
    assert((a.errors + b.errors) + c.errors =~= a.errors + (b.errors + c.errors));
    assert(a.yields + Seq::empty() =~= a.yields);
    assert(a.errors + Seq::empty() =~= a.errors);
    assert(Seq::empty() + a.yields =~= a.yields);
    assert(Seq::empty() + a.errors =~= a.errors);
}

/// Turns add up: `a + b` turns are `a` turns and then `b` more.
pub proof fn lemma_run_add(st: TreeWalk, a: nat, b: nat)
    ensures
        run(st, a + b).state == run(run(st, a).state, b).state,
        run(st, a + b).trace == run(st, a).trace.followed_by(run(run(st, a).state, b).trace),
    decreases a,
{
    if a == 0 {
        lemma_followed_by_assoc(run(st, b).trace, Trace::empty(), Trace::empty());
    } else {
        let o = turn(st);
        let rest = (a - 1) as nat;
        lemma_run_add(o.state, rest, b);
        assert((a + b - 1) as nat == rest + b);
        let mid = run(o.state, rest);
        let tail = run(mid.state, b);
        assert(run(st, a).state == mid.state);
        assert(run(st, a + b).trace == produced(o).followed_by(run(o.state, rest + b).trace));
        assert(run(st, a).trace == produced(o).followed_by(mid.trace));
        lemma_followed_by_assoc(produced(o), mid.trace, tail.trace);
    }
}

/// One more turn: `m + 1` turns are one turn and then `m` more.
pub proof fn lemma_run_first(st: TreeWalk, m: nat)
    ensures
        run(st, m + 1).state == run(turn(st).state, m).state,
        run(st, m + 1).trace == produced(turn(st)).followed_by(run(turn(st).state, m).trace),
        run(st, 0) == (Run { state: st, trace: Trace::empty() }),
{
    assert((m + 1 - 1) as nat == m);
}

/// The walker, about to pull an entry from a listing, takes as many turns as
/// the walk of that entry counts. It then stands behind the entry in that
/// listing, or at the head of the entry's own listing if it entered it and has
/// walked it to its end, and has produced the walk of the entry.
proof fn lemma_walk_node(st: TreeWalk, n: Node)
    requires
        st.waiting is Nothing,
        st.cur is Some,
        st.cur->Some_0.listing.len() > 0,
        st.cur->Some_0.listing[0] == Item::Entry(n),
    ensures
        run(st, steps_node(st.settings, n)) == (Run {
            state: pulled(st),
            trace: walk_node(st.settings, n),
        }),
    decreases n, 0nat,
{
    let s = st.settings;
    let st1 = pulled(st);
    let o1 = turn(st);
    lemma_run_first(st, 0);
    lemma_followed_by_assoc(produced(o1), Trace::empty(), Trace::empty());
    match n.name {
        None => {
            assert(produced(o1) == Trace::failure(Error::Decode(n.path)));
        },
        Some(name) => {
            if !name_accepted(s, name@) {
                assert(produced(o1) == Trace::empty());
            } else {
                let c = Child { entry: n, name: name, path: n.path };
                let st2 = WalkState { waiting: Waiting::Kind(c), ..st1 };
                assert(o1.state == st2);
                assert(produced(o1) == Trace::empty());
                let o2 = turn(st2);
                lemma_run_first(st, 1);
                lemma_run_first(st2, 0);
                lemma_followed_by_assoc(produced(o2), Trace::empty(), Trace::empty());
                match n.kind {
                    Err(e) => {
                        assert(o2.state == st1);
                        assert(produced(o2) == Trace::failure(Error::Io(e, n.path)));
                    },
                    Ok(FileKind::File) => {
                        assert(o2.state == st1);
                        assert(produced(o2) == Trace::report(!s.skip_files, n, name));
                    },
                    Ok(FileKind::Symlink) => {
                        assert(o2.state == st1);
                        assert(produced(o2) == Trace::report(
                            !s.skip_symlinks && !s.skip_files,
                            n,
                            name,
                        ));
                    },
                    Ok(FileKind::Dir) => {
                        let st3 = WalkState { waiting: Waiting::Open(c), ..st1 };
                        assert(o2.state == st3);
                        assert(produced(o2) == Trace::empty());
                        let o3 = turn(st3);
                        lemma_run_first(st3, 0);
                        lemma_followed_by_assoc(produced(o3), Trace::empty(), Trace::empty());
                        match n.listing {
                            Err(e) => {
                                lemma_run_first(st, 2);
                                lemma_run_first(st2, 1);
                                assert(o3.state == st1);
                                assert(produced(o3).yields =~= Trace::failure(
                                    Error::Io(e, n.path),
                                ).followed_by(Trace::report(!s.skip_dirs, n, name)).yields);
                                assert(produced(o3).errors =~= Trace::failure(
                                    Error::Io(e, n.path),
                                ).followed_by(Trace::report(!s.skip_dirs, n, name)).errors);
                            },
                            Ok(items) => {
                                let k = steps_items(s, items);
                                let st4 = o3.state;
                                assert(st4.cur == Some(Frame { listing: items, path: n.path }));
                                assert(st4.stack == st1.stack.push(st1.cur->Some_0));
                                lemma_walk_items(st4, items);
                                assert(st4.stack.drop_last() =~= st1.stack);
                                assert(st4.leave().state == st1);
                                assert(produced(o3) == Trace::report(!s.skip_dirs, n, name));
                                lemma_run_first(st, 2 + k);
                                lemma_run_first(st2, 1 + k);
                                lemma_run_first(st3, k);
                                lemma_followed_by_assoc(
                                    produced(o3),
                                    walk_items(s, n.path, items),
                                    Trace::empty(),
                                );
                            },
                        }
                    },
                }
            }
        },
    }
}

/// The walker, at the head of a listing, takes as many turns as the walk of
/// the listing counts. It has then left the listing, and has produced the walk
/// of it.
proof fn lemma_walk_items(st: TreeWalk, items: Seq<Item>)
    requires
        st.waiting is Nothing,
        st.cur is Some,
        st.cur->Some_0.listing == items,
    ensures
        run(st, steps_items(st.settings, items)) == (Run {
            state: st.leave().state,
            trace: walk_items(st.settings, st.cur->Some_0.path, items),
        }),
    decreases items, 1nat,
{
    let s = st.settings;
    let dir = st.cur->Some_0.path;
    if items.len() == 0 {
        lemma_run_first(st, 0);
        lemma_followed_by_assoc(produced(turn(st)), Trace::empty(), Trace::empty());
        assert(produced(turn(st)) == Trace::empty());
    } else {
        let st1 = pulled(st);
        let rest = items.drop_first();
        let k = steps_items(s, rest);
        lemma_walk_items(st1, rest);
        assert(st1.leave().state == st.leave().state);
        match items[0] {
            Item::Broken(e) => {
                lemma_run_first(st, k);
                assert(turn(st).state == st1);
                assert(produced(turn(st)) == Trace::failure(Error::Io(e, dir)));
            },
            Item::Entry(n) => {
                lemma_walk_node(st, n);
                lemma_run_add(st, steps_node(s, n), k);
            },
        }
    }
}

/// A walker that starts at the root of a tree produces the walk of the tree,
/// and is then done.
///
/// The walk of a tree reports a directory before all that it holds, and all
/// that it holds before what follows the directory in the listing it came
/// from. So the walker reports the entries depth first, each listing in its
/// own order.
pub proof fn walker_walks_tree(s: ScanDir, root: PathBuf, items: Seq<Item>)
    ensures
        run(start::<Seq<Item>, Node>(s, root, Ok(items)).state, steps_items(s, items)).trace
            == walk_items(s, root, items),
        run(
            start::<Seq<Item>, Node>(s, root, Ok(items)).state,
            steps_items(s, items),
        ).state.request() == Request::Done,
{
    lemma_walk_items(start::<Seq<Item>, Node>(s, root, Ok(items)).state, items);
}

/// The walk of a listing in two parts is the walk of the first part and then
/// that of the second.
pub proof fn lemma_walk_concat(s: ScanDir, dir: PathBuf, a: Seq<Item>, b: Seq<Item>)
    ensures
        walk_items(s, dir, a + b) == walk_items(s, dir, a).followed_by(walk_items(s, dir, b)),
    decreases a.len(),
{
    let wb = walk_items(s, dir, b);
    if a.len() == 0 {
        assert(a + b =~= b);
        lemma_followed_by_assoc(wb, Trace::empty(), Trace::empty());
    } else {
        assert((a + b).drop_first() =~= a.drop_first() + b);
        assert((a + b)[0] == a[0]);
        lemma_walk_concat(s, dir, a.drop_first(), b);
        let first = match a[0] {
            Item::Broken(e) => Trace::failure(Error::Io(e, dir)),
            Item::Entry(n) => walk_node(s, n),
        };
        lemma_followed_by_assoc(first, walk_items(s, dir, a.drop_first()), wb);
    }
}

/// The walk of a listing around one of its entries: what comes before the
/// entry, the walk of the entry, and what comes after it.
pub proof fn lemma_walk_around(
    s: ScanDir,
    dir: PathBuf,
    before: Seq<Item>,
    n: Node,
    after: Seq<Item>,
)
    ensures
        walk_items(s, dir, before + seq![Item::Entry(n)] + after) == walk_items(
            s,
            dir,
            before,
        ).followed_by(walk_node(s, n)).followed_by(walk_items(s, dir, after)),
{
    let one = seq![Item::Entry(n)];
    lemma_walk_concat(s, dir, before + one, after);
    lemma_walk_concat(s, dir, before, one);
    assert(one.drop_first() =~= Seq::<Item>::empty());
    assert(walk_items(s, dir, one.drop_first()) == Trace::empty());
    assert(walk_items(s, dir, one) == walk_node(s, n).followed_by(Trace::empty()));
    lemma_followed_by_assoc(walk_node(s, n), Trace::empty(), Trace::empty());
}

/// Depth first, each directory before what it holds: where a listing holds a
/// directory that is entered, the walk reports what comes before it in the
/// listing, then the directory itself unless directories are left out, then
/// all that the directory holds, and only then what follows it in the listing.
pub proof fn directory_before_contents(
    s: ScanDir,
    dir: PathBuf,
    before: Seq<Item>,
    d: Node,
    after: Seq<Item>,
)
    requires
        d.name is Some,
        name_accepted(s, d.name->Some_0@),
        d.kind == Ok::<FileKind, std::io::Error>(FileKind::Dir),
        d.listing is Ok,
    ensures
        walk_items(s, dir, before + seq![Item::Entry(d)] + after).yields == walk_items(
            s,
            dir,
            before,
        ).yields + Trace::report(!s.skip_dirs, d, d.name->Some_0).yields + walk_items(
            s,
            d.path,
            d.listing->Ok_0,
        ).yields + walk_items(s, dir, after).yields,
{
    lemma_walk_around(s, dir, before, d, after);
    let inner = walk_items(s, d.path, d.listing->Ok_0).yields;
    let own = Trace::report(!s.skip_dirs, d, d.name->Some_0).yields;
    let head = walk_items(s, dir, before).yields;
    assert(head + (own + inner) =~= head + own + inner);
}

/// An entry whose name is not valid Unicode costs one failure, which names the
/// entry, and nothing else: what comes before and after it in the listing is
/// walked as if it were not there.
pub proof fn undecodable_name_is_one_failure(
    s: ScanDir,
    dir: PathBuf,
    before: Seq<Item>,
    n: Node,
    after: Seq<Item>,
)
    requires
        n.name is None,
    ensures
        walk_items(s, dir, before + seq![Item::Entry(n)] + after) == walk_items(
            s,
            dir,
            before,
        ).followed_by(Trace::failure(Error::Decode(n.path))).followed_by(
            walk_items(s, dir, after),
        ),
{
    lemma_walk_around(s, dir, before, n, after);
}

/// A directory that cannot be opened costs one failure, which names the
/// directory. It is reported unless directories are left out, and nothing is
/// reported from inside it.
pub proof fn unlistable_directory_is_reported(
    s: ScanDir,
    dir: PathBuf,
    before: Seq<Item>,
    d: Node,
    after: Seq<Item>,
)
    requires
        d.name is Some,
        name_accepted(s, d.name->Some_0@),
        d.kind == Ok::<FileKind, std::io::Error>(FileKind::Dir),
        d.listing is Err,
    ensures
        walk_items(s, dir, before + seq![Item::Entry(d)] + after) == walk_items(
            s,
            dir,
            before,
        ).followed_by(
            Trace {
                yields: Trace::report(!s.skip_dirs, d, d.name->Some_0).yields,
                errors: seq![Error::Io(d.listing->Err_0, d.path)],
            },
        ).followed_by(walk_items(s, dir, after)),
{
    lemma_walk_around(s, dir, before, d, after);
    let own = Trace::report(!s.skip_dirs, d, d.name->Some_0);
    let fail = Trace::failure(Error::Io(d.listing->Err_0, d.path));
    assert(fail.followed_by(own).yields =~= own.yields);
    assert(fail.followed_by(own).errors =~= fail.errors);
}

/// Every entry that a trace reports has the name it is reported with, and the
/// settings let that name through.
pub open spec fn names_pass(s: ScanDir, t: Trace) -> bool {
    forall|i: int|
        0 <= i < t.yields.len() ==> (#[trigger] t.yields[i]).0.name == Some(t.yields[i].1)
            && name_accepted(s, t.yields[i].1@)
}

/// The walk of an entry reports nothing under a name that the settings leave
/// out, and nothing at all where both directories and files are left out.
pub proof fn lemma_walk_node_filtered(s: ScanDir, n: Node)
    ensures
        names_pass(s, walk_node(s, n)),
        s.skip_dirs && s.skip_files ==> walk_node(s, n).yields.len() == 0,
    decreases n, 0nat,
{
    match n.listing {
        Ok(items) => {
            lemma_walk_items_filtered(s, n.path, items);
        },
        Err(_) => {},
    }
}

/// The walk of a listing reports nothing under a name that the settings leave
/// out: no hidden name where hidden entries are left out, and no backup name
/// where backups are left out. Where both directories and files are left out
/// it reports nothing at all, though it may still record failures.
pub proof fn lemma_walk_items_filtered(s: ScanDir, dir: PathBuf, items: Seq<Item>)
    ensures
        names_pass(s, walk_items(s, dir, items)),
        s.skip_dirs && s.skip_files ==> walk_items(s, dir, items).yields.len() == 0,
    decreases items, 1nat,
{
    if items.len() > 0 {
        lemma_walk_items_filtered(s, dir, items.drop_first());
        match items[0] {
            Item::Broken(_) => {},
            Item::Entry(n) => {
                lemma_walk_node_filtered(s, n);
            },
        }
    }
}

} // verus!
