use scan_dir::error::Error;
use scan_dir::event::{Event, Raw, Request};
use scan_dir::filter::FileKind;
use scan_dir::walk::Walker;
use scan_dir::ScanDir;
use std::collections::VecDeque;
use std::io;
use std::path::PathBuf;

#[derive(Clone, Debug)]
struct Node {
    name: Option<String>,
    path: PathBuf,
    kind: Result<FileKind, io::ErrorKind>,
    listing: Result<Vec<Item>, io::ErrorKind>,
}

#[derive(Clone, Debug)]
enum Item {
    Broken(io::ErrorKind),
    Entry(Node),
}

type Listing = VecDeque<Item>;

fn file(dir: &str, name: &str) -> Item {
    Item::Entry(Node {
        name: Some(name.to_string()),
        path: PathBuf::from(dir).join(name),
        kind: Ok(FileKind::File),
        listing: Err(io::ErrorKind::NotADirectory),
    })
}

fn link(dir: &str, name: &str) -> Item {
    Item::Entry(Node {
        name: Some(name.to_string()),
        path: PathBuf::from(dir).join(name),
        kind: Ok(FileKind::Symlink),
        listing: Err(io::ErrorKind::NotADirectory),
    })
}

fn dir(parent: &str, name: &str, items: Vec<Item>) -> Item {
    Item::Entry(Node {
        name: Some(name.to_string()),
        path: PathBuf::from(parent).join(name),
        kind: Ok(FileKind::Dir),
        listing: Ok(items),
    })
}

fn locked(parent: &str, name: &str) -> Item {
    Item::Entry(Node {
        name: Some(name.to_string()),
        path: PathBuf::from(parent).join(name),
        kind: Ok(FileKind::Dir),
        listing: Err(io::ErrorKind::PermissionDenied),
    })
}

fn unnamed(parent: &str, tag: &str) -> Item {
    Item::Entry(Node {
        name: None,
        path: PathBuf::from(parent).join(tag),
        kind: Ok(FileKind::File),
        listing: Err(io::ErrorKind::NotADirectory),
    })
}

fn untyped(parent: &str, name: &str) -> Item {
    Item::Entry(Node {
        name: Some(name.to_string()),
        path: PathBuf::from(parent).join(name),
        kind: Err(io::ErrorKind::PermissionDenied),
        listing: Err(io::ErrorKind::PermissionDenied),
    })
}

fn answer(w: &mut Walker<Listing, Node>) -> Option<Event<Listing, Node>> {
    match w.request() {
        Request::Done => None,
        Request::Pull => Some(match w.listing().unwrap().pop_front() {
            None => Event::End,
            Some(Item::Broken(kind)) => Event::Failed(kind.into()),
            Some(Item::Entry(n)) => {
                Event::Entry(Raw { name: n.name.clone(), path: n.path.clone(), entry: n })
            }
        }),
        Request::Kind => {
            let n = &w.pending().unwrap().entry;
            Some(Event::Kind(n.kind.clone().map_err(io::Error::from)))
        }
        Request::Open => {
            let n = &w.pending().unwrap().entry;
            Some(Event::Opened(n.listing.clone().map(Listing::from).map_err(io::Error::from)))
        }
        Request::Target => panic!("a walker never asks what a link points to"),
    }
}

fn scan(
    settings: &ScanDir,
    root: &str,
    opened: Result<Vec<Item>, io::ErrorKind>,
) -> (Vec<(PathBuf, String)>, Vec<Error>) {
    let mut errors = Vec::new();
    let mut w: Walker<Listing, Node> = scan_dir::walk::new(
        settings,
        &mut errors,
        PathBuf::from(root),
        opened.map(Listing::from).map_err(io::Error::from),
    );
    let mut seen = Vec::new();
    let mut turns = 0;
    while let Some(event) = answer(&mut w) {
        if let Some((n, name)) = w.next(&mut errors, event) {
            assert_eq!(n.name.as_ref(), Some(&name));
            seen.push((n.path, name));
        }
        turns += 1;
        assert!(turns < 10_000);
    }
    assert!(w.listing().is_none());
    assert!(w.pending().is_none());
    (seen, errors)
}

fn names(seen: &[(PathBuf, String)]) -> Vec<&str> {
    seen.iter().map(|(_, name)| name.as_str()).collect()
}

fn brief(errors: &[Error]) -> Vec<String> {
    errors
        .iter()
        .map(|e| match e {
            Error::Io(e, p) => format!("io {:?} {}", e.kind(), p.display()),
            Error::Decode(p) => format!("decode {}", p.display()),
        })
        .collect()
}

fn sample() -> Vec<Item> {
    vec![
        file("root", "a.txt"),
        file("root", ".hidden"),
        dir("root", "sub", vec![file("root/sub", "b.rs")]),
        file("root", "notes.bak"),
    ]
}

#[test]
fn walk_reports_tree_without_hidden_and_backup() {
    let mut s = ScanDir::all();
    s.skip_hidden(true).skip_backup(true);
    let (seen, errors) = scan(&s, "root", Ok(sample()));
    assert_eq!(names(&seen), vec!["a.txt", "sub", "b.rs"]);
    assert_eq!(seen[1].0, PathBuf::from("root/sub"));
    assert_eq!(seen[2].0, PathBuf::from("root/sub/b.rs"));
    assert!(errors.is_empty());
}

#[test]
fn walk_reports_everything_by_default() {
    let (seen, errors) = scan(&ScanDir::all(), "root", Ok(sample()));
    assert_eq!(names(&seen), vec!["a.txt", ".hidden", "sub", "b.rs", "notes.bak"]);
    assert!(errors.is_empty());
}

#[test]
fn walk_of_missing_root_records_one_failure() {
    let (seen, errors) = scan(&ScanDir::all(), "nowhere", Err(io::ErrorKind::NotFound));
    assert!(seen.is_empty());
    assert_eq!(brief(&errors), vec!["io NotFound nowhere"]);
}

#[test]
fn walk_of_missing_root_is_done_at_once() {
    let mut errors = vec![Error::Decode(PathBuf::from("earlier"))];
    let mut w: Walker<Listing, Node> = scan_dir::walk::new(
        &ScanDir::all(),
        &mut errors,
        PathBuf::from("nowhere"),
        Err(io::ErrorKind::NotFound.into()),
    );
    assert_eq!(w.request(), Request::Done);
    assert!(w.next(&mut errors, Event::End).is_none());
    assert!(w.next(&mut errors, Event::Entry(Raw {
        entry: Node {
            name: None,
            path: PathBuf::from("x"),
            kind: Ok(FileKind::File),
            listing: Ok(vec![]),
        },
        name: None,
        path: PathBuf::from("x"),
    })).is_none());
    assert_eq!(w.request(), Request::Done);
    assert_eq!(brief(&errors), vec!["decode earlier", "io NotFound nowhere"]);
}

#[test]
fn walk_leaves_out_symlinks_on_demand() {
    let tree = vec![
        link("root", "link"),
        dir("root", "sub", vec![file("root/sub", "b.rs")]),
    ];
    let mut s = ScanDir::all();
    s.skip_symlinks(true);
    let (seen, errors) = scan(&s, "root", Ok(tree.clone()));
    assert_eq!(names(&seen), vec!["sub", "b.rs"]);
    assert!(errors.is_empty());
    let (seen, errors) = scan(&ScanDir::all(), "root", Ok(tree));
    assert_eq!(names(&seen), vec!["link", "sub", "b.rs"]);
    assert!(errors.is_empty());
}

#[test]
fn walk_never_enters_a_symlink() {
    let mut tree = vec![link("root", "link"), file("root", "z")];
    if let Item::Entry(n) = &mut tree[0] {
        n.listing = Ok(vec![file("root/link", "inside")]);
    }
    let (seen, _) = scan(&ScanDir::all(), "root", Ok(tree.clone()));
    assert_eq!(names(&seen), vec!["link", "z"]);
    let (seen, _) = scan(&ScanDir::dirs(), "root", Ok(tree));
    assert!(seen.is_empty());
}

#[test]
fn walk_reports_nothing_when_dirs_and_files_are_skipped() {
    let mut tree = sample();
    tree.push(unnamed("root", "bad"));
    tree.push(locked("root", "locked"));
    let mut s = ScanDir::all();
    s.skip_dirs(true).skip_files(true);
    let (seen, errors) = scan(&s, "root", Ok(tree));
    assert!(seen.is_empty());
    assert_eq!(brief(&errors), vec!["decode root/bad", "io PermissionDenied root/locked"]);
}

#[test]
fn walk_is_depth_first_and_keeps_listing_order() {
    let tree = vec![
        file("r", "1"),
        dir(
            "r",
            "d",
            vec![
                file("r/d", "2"),
                dir("r/d", "e", vec![file("r/d/e", "3"), dir("r/d/e", "f", vec![])]),
                file("r/d", "4"),
            ],
        ),
        dir("r", "g", vec![file("r/g", "5")]),
        file("r", "6"),
    ];
    let (seen, errors) = scan(&ScanDir::all(), "r", Ok(tree.clone()));
    assert_eq!(names(&seen), vec!["1", "d", "2", "e", "3", "f", "4", "g", "5", "6"]);
    assert!(errors.is_empty());
    let (seen, _) = scan(&ScanDir::files(), "r", Ok(tree.clone()));
    assert_eq!(names(&seen), vec!["1", "2", "3", "4", "5", "6"]);
    let (seen, _) = scan(&ScanDir::dirs(), "r", Ok(tree));
    assert_eq!(names(&seen), vec!["d", "e", "f", "g"]);
}

#[test]
fn walk_does_not_enter_a_directory_left_out_by_name() {
    let tree = vec![
        dir("r", ".git", vec![file("r/.git", "config")]),
        dir("r", "old~", vec![file("r/old~", "x")]),
        dir("r", "src", vec![file("r/src", "lib.rs"), file("r/src", "lib.rs.bak")]),
    ];
    let (seen, errors) = scan(&ScanDir::files(), "r", Ok(tree));
    assert_eq!(names(&seen), vec!["lib.rs"]);
    assert!(errors.is_empty());
}

#[test]
fn walk_passes_over_an_undecodable_name() {
    let tree = vec![
        file("r", "a"),
        unnamed("r", "bad"),
        file("r", "b"),
        dir("r", "d", vec![unnamed("r/d", "worse"), file("r/d", "c")]),
    ];
    let (seen, errors) = scan(&ScanDir::all(), "r", Ok(tree));
    assert_eq!(names(&seen), vec!["a", "b", "d", "c"]);
    assert_eq!(brief(&errors), vec!["decode r/bad", "decode r/d/worse"]);
}

#[test]
fn walk_reports_but_does_not_enter_an_unlistable_directory() {
    let tree = vec![file("r", "a"), locked("r", "d"), file("r", "b")];
    let (seen, errors) = scan(&ScanDir::all(), "r", Ok(tree.clone()));
    assert_eq!(names(&seen), vec!["a", "d", "b"]);
    assert_eq!(brief(&errors), vec!["io PermissionDenied r/d"]);
    let (seen, errors) = scan(&ScanDir::files(), "r", Ok(tree));
    assert_eq!(names(&seen), vec!["a", "b"]);
    assert_eq!(brief(&errors), vec!["io PermissionDenied r/d"]);
}

#[test]
fn walk_records_a_broken_listing_under_the_directory() {
    let tree = vec![
        file("r", "a"),
        Item::Broken(io::ErrorKind::Interrupted),
        dir("r", "d", vec![Item::Broken(io::ErrorKind::TimedOut), file("r/d", "c")]),
        file("r", "b"),
    ];
    let (seen, errors) = scan(&ScanDir::all(), "r", Ok(tree));
    assert_eq!(names(&seen), vec!["a", "d", "c", "b"]);
    assert_eq!(brief(&errors), vec!["io Interrupted r", "io TimedOut r/d"]);
}

#[test]
fn walk_records_an_entry_of_unknown_type() {
    let tree = vec![untyped("r", "x"), untyped("r", ".y"), file("r", "b")];
    let (seen, errors) = scan(&ScanDir::files(), "r", Ok(tree));
    assert_eq!(names(&seen), vec!["b"]);
    assert_eq!(brief(&errors), vec!["io PermissionDenied r/x"]);
}

#[test]
fn walk_adds_to_the_failures_it_is_given() {
    let mut errors = vec![Error::Decode(PathBuf::from("earlier"))];
    let mut w: Walker<Listing, Node> =
        scan_dir::walk::new(&ScanDir::all(), &mut errors, PathBuf::from("r"), Ok(Listing::new()));
    assert_eq!(w.request(), Request::Pull);
    assert!(w.next(&mut errors, Event::Failed(io::ErrorKind::Other.into())).is_none());
    assert_eq!(brief(&errors), vec!["decode earlier", "io Other r"]);
    assert_eq!(w.request(), Request::Pull);
    assert!(w.next(&mut errors, Event::End).is_none());
    assert_eq!(w.request(), Request::Done);
}

#[test]
fn walk_asks_for_the_type_only_after_the_name_has_passed() {
    let mut errors = Vec::new();
    let mut w: Walker<Listing, Node> =
        scan_dir::walk::new(&ScanDir::files(), &mut errors, PathBuf::from("r"), Ok(Listing::new()));
    let hidden = match file("r", ".x") {
        Item::Entry(n) => n,
        Item::Broken(_) => unreachable!(),
    };
    let plain = match file("r", "x") {
        Item::Entry(n) => n,
        Item::Broken(_) => unreachable!(),
    };
    let raw = |n: Node| Event::Entry(Raw { name: n.name.clone(), path: n.path.clone(), entry: n });
    assert!(w.next(&mut errors, raw(hidden)).is_none());
    assert_eq!(w.request(), Request::Pull);
    assert!(w.pending().is_none());
    assert!(w.next(&mut errors, raw(plain)).is_none());
    assert_eq!(w.request(), Request::Kind);
    assert_eq!(w.pending().unwrap().name, "x");
    assert_eq!(w.pending().unwrap().path, PathBuf::from("r/x"));
    let got = w.next(&mut errors, Event::Kind(Ok(FileKind::File)));
    assert_eq!(got.map(|(_, name)| name), Some("x".to_string()));
    assert_eq!(w.request(), Request::Pull);
    assert!(errors.is_empty());
}

#[test]
fn walk_enters_a_directory_on_the_turn_after_it_is_reported() {
    let mut errors = Vec::new();
    let mut w: Walker<Listing, Node> = scan_dir::walk::new(
        &ScanDir::all(),
        &mut errors,
        PathBuf::from("r"),
        Ok(Listing::from(vec![file("r", "after")])),
    );
    let d = match dir("r", "d", vec![file("r/d", "in")]) {
        Item::Entry(n) => n,
        Item::Broken(_) => unreachable!(),
    };
    let inner = Listing::from(d.listing.clone().unwrap());
    assert!(w
        .next(&mut errors, Event::Entry(Raw { name: d.name.clone(), path: d.path.clone(), entry: d }))
        .is_none());
    assert!(w.next(&mut errors, Event::Kind(Ok(FileKind::Dir))).is_none());
    assert_eq!(w.request(), Request::Open);
    assert_eq!(w.listing().unwrap().len(), 1);
    let got = w.next(&mut errors, Event::Opened(Ok(inner)));
    assert_eq!(got.map(|(_, name)| name), Some("d".to_string()));
    assert_eq!(w.request(), Request::Pull);
    assert!(matches!(w.listing().unwrap().front(), Some(Item::Entry(n)) if n.path == PathBuf::from("r/d/in")));
    assert!(w.next(&mut errors, Event::Failed(io::ErrorKind::Other.into())).is_none());
    assert_eq!(brief(&errors), vec!["io Other r/d"]);
    assert!(w.next(&mut errors, Event::End).is_none());
    assert_eq!(w.request(), Request::Pull);
    assert!(matches!(w.listing().unwrap().front(), Some(Item::Entry(n)) if n.path == PathBuf::from("r/after")));
    assert!(w.next(&mut errors, Event::Failed(io::ErrorKind::Other.into())).is_none());
    assert_eq!(brief(&errors), vec!["io Other r/d", "io Other r"]);
}

#[test]
fn walk_ignores_an_event_it_did_not_ask_for() {
    let mut errors = Vec::new();
    let mut w: Walker<Listing, Node> = scan_dir::walk::new(
        &ScanDir::all(),
        &mut errors,
        PathBuf::from("r"),
        Ok(Listing::from(vec![file("r", "a")])),
    );
    assert!(w.next(&mut errors, Event::Kind(Ok(FileKind::File))).is_none());
    assert!(w.next(&mut errors, Event::Kind(Err(io::ErrorKind::Other.into()))).is_none());
    assert!(w.next(&mut errors, Event::Opened(Ok(Listing::new()))).is_none());
    assert!(w.next(&mut errors, Event::Opened(Err(io::ErrorKind::Other.into()))).is_none());
    assert!(w.next(&mut errors, Event::Target(Ok(FileKind::Dir))).is_none());
    assert_eq!(w.request(), Request::Pull);
    assert_eq!(w.listing().unwrap().len(), 1);
    assert!(errors.is_empty());
    let event = answer(&mut w).unwrap();
    assert!(w.next(&mut errors, event).is_none());
    assert_eq!(w.request(), Request::Kind);
    assert!(w.next(&mut errors, Event::End).is_none());
    assert!(w.next(&mut errors, Event::Failed(io::ErrorKind::Other.into())).is_none());
    assert!(w.next(&mut errors, Event::Opened(Ok(Listing::new()))).is_none());
    assert_eq!(w.request(), Request::Kind);
    assert_eq!(w.pending().unwrap().name, "a");
    assert!(errors.is_empty());
}
