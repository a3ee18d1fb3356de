use organize_rt::mover::{move_files, settle, MoveEngine};
use organize_rt::options::Options;
use organize_rt::protocol::{Reply, Request, Turn};
use organize_rt::record::Move;
use organize_rt::rules::{CompiledRules, RawRules};
use organize_rt::undoer::{undo, UndoEngine};
use std::collections::BTreeMap;

/// A disk held in memory: files by resolved path, and what was done to it.
#[derive(Clone, Debug, PartialEq, Eq)]
struct Disk {
    files: BTreeMap<String, String>,
    log: Option<(String, Vec<Move>)>,
    made: Vec<String>,
    removed: Vec<String>,
    locked: Vec<String>,
    no_logs: bool,
}

fn resolved(path: &str) -> String {
    if path.starts_with('/') {
        path.to_owned()
    } else {
        format!("/work/{}", path)
    }
}

fn disk(files: &[(&str, &str)]) -> Disk {
    Disk {
        files: files.iter().map(|(p, c)| (resolved(p), c.to_string())).collect(),
        log: None,
        made: Vec::new(),
        removed: Vec::new(),
        locked: Vec::new(),
        no_logs: false,
    }
}

fn perform(disk: &mut Disk, ask: &Request) -> Reply {
    match ask {
        Request::Canonicalize { path } => {
            if disk.files.contains_key(&resolved(path)) {
                Reply::with(resolved(path))
            } else {
                Reply::failed("No such file or directory".to_owned())
            }
        }
        Request::Exists { path } => Reply::found(disk.files.contains_key(&resolved(path))),
        Request::Rename { from, to } => {
            if disk.locked.contains(&resolved(from)) {
                return Reply::failed("Permission denied".to_owned());
            }
            match disk.files.remove(&resolved(from)) {
                Some(content) => {
                    disk.files.insert(resolved(to), content);
                    Reply::done()
                }
                None => Reply::failed("No such file or directory".to_owned()),
            }
        }
        Request::CreateDirAll { path } => {
            disk.made.push(path.clone());
            Reply::done()
        }
        Request::RemoveDirAll { path } => {
            let prefix = format!("{}/", resolved(path));
            disk.files.retain(|p, _| !p.starts_with(&prefix));
            disk.removed.push(path.clone());
            Reply::done()
        }
        Request::WriteLog { path, records } => {
            if disk.no_logs {
                return Reply::failed("Read-only file system".to_owned());
            }
            disk.log = Some((path.clone(), records.clone()));
            Reply::done()
        }
        Request::Finish => Reply::done(),
        Request::Abort { .. } => Reply::done(),
    }
}

struct Ran {
    said: Vec<String>,
    asked: Vec<Request>,
}

fn run_moves(mut engine: MoveEngine, disk: &mut Disk) -> Ran {
    let mut ran = Ran { said: Vec::new(), asked: Vec::new() };
    let mut reply = Reply::done();
    loop {
        let (next, Turn { say, ask }) = engine.advance(reply);
        engine = next;
        ran.said.extend(say);
        ran.asked.push(ask.clone());
        if matches!(ask, Request::Finish | Request::Abort { .. }) {
            assert!(engine.is_finished());
            return ran;
        }
        assert!(!engine.is_finished());
        reply = perform(disk, &ask);
    }
}

fn run_undo(mut engine: UndoEngine, disk: &mut Disk) -> Ran {
    let mut ran = Ran { said: Vec::new(), asked: Vec::new() };
    let mut reply = Reply::done();
    loop {
        let (next, Turn { say, ask }) = engine.advance(reply);
        engine = next;
        ran.said.extend(say);
        ran.asked.push(ask.clone());
        if matches!(ask, Request::Finish | Request::Abort { .. }) {
            assert!(engine.is_finished());
            return ran;
        }
        reply = perform(disk, &ask);
    }
}

fn options(dry_run: bool) -> Options {
    Options {
        recursive: true,
        hidden: false,
        verbose: false,
        quiet: false,
        dry_run,
        undo: false,
        log_path: "logs/organize-rt.log".to_owned(),
        source_raw: Some("src".to_owned()),
        source: "src".to_owned(),
        output_raw: Some("out".to_owned()),
        output: "out".to_owned(),
    }
}

fn rules(list: &[(&str, &str)]) -> CompiledRules {
    RawRules { rules: list.iter().map(|(p, c)| (p.to_string(), c.to_string())).collect() }
        .compile("out")
        .unwrap()
}

fn paths(list: &[&str]) -> Vec<String> {
    list.iter().map(|p| p.to_string()).collect()
}

fn record(from: &str, to: &str) -> Move {
    Move::new(from.to_owned(), to.to_owned())
}

const CATEGORIES: [&str; 13] = [
    "Audio",
    "Compressed",
    "Garbage",
    "Downloads",
    "Code",
    "Documents",
    "Images",
    "ISO",
    "Configuration",
    "Encrypted",
    "Video",
    "Unsorted",
    "REMOVE",
];

fn category_requests() -> Vec<Request> {
    CATEGORIES.iter().map(|c| Request::CreateDirAll { path: format!("out/{}", c) }).collect()
}

/// Answers the requests for the category directories, and gives the turn
/// that follows them.
fn past_the_directories(mut engine: MoveEngine) -> (MoveEngine, Turn) {
    let expected = category_requests();
    for request in expected {
        let (next, turn) = engine.advance(Reply::done());
        assert_eq!(turn.ask, request);
        assert_eq!(turn.say, Vec::<String>::new());
        engine = next;
    }
    engine.advance(Reply::done())
}

fn music_rules() -> CompiledRules {
    rules(&[(r"\.mp3$", "Audio"), (r"\.zip$", "Compressed")])
}

#[test]
fn files_go_where_their_rule_says() {
    let mut d = disk(&[("src/a.mp3", "A"), ("src/b.zip", "B"), ("src/c.xyz", "C")]);
    let engine =
        move_files(paths(&["src/a.mp3", "src/b.zip", "src/c.xyz"]), music_rules(), &options(false));
    let ran = run_moves(engine, &mut d);
    assert_eq!(ran.said, Vec::<String>::new());
    assert_eq!(d.files.get("/work/out/Audio/a.mp3"), Some(&"A".to_owned()));
    assert_eq!(d.files.get("/work/out/Compressed/b.zip"), Some(&"B".to_owned()));
    assert_eq!(d.files.get("/work/src/c.xyz"), Some(&"C".to_owned()));
    assert_eq!(d.files.len(), 3);
    let (path, records) = d.log.clone().unwrap();
    assert_eq!(path, "logs/organize-rt.log");
    assert_eq!(
        records,
        vec![
            record("/work/src/a.mp3", "/work/out/Audio/a.mp3"),
            record("/work/src/b.zip", "/work/out/Compressed/b.zip"),
        ]
    );
    assert_eq!(ran.asked.last(), Some(&Request::Finish));
}

#[test]
fn the_requests_of_one_move_come_in_order() {
    let mut d = disk(&[("src/a.mp3", "A")]);
    let engine = move_files(paths(&["src/a.mp3"]), music_rules(), &options(false));
    let ran = run_moves(engine, &mut d);
    assert_eq!(ran.asked[..13], category_requests()[..]);
    assert_eq!(
        ran.asked[13..],
        vec![
            Request::Canonicalize { path: "src/a.mp3".to_owned() },
            Request::Exists { path: "out/Audio/a.mp3".to_owned() },
            Request::Rename {
                from: "/work/src/a.mp3".to_owned(),
                to: "out/Audio/a.mp3".to_owned()
            },
            Request::Canonicalize { path: "out/Audio/a.mp3".to_owned() },
            Request::CreateDirAll { path: "logs".to_owned() },
            Request::WriteLog {
                path: "logs/organize-rt.log".to_owned(),
                records: vec![record("/work/src/a.mp3", "/work/out/Audio/a.mp3")],
            },
            Request::RemoveDirAll { path: "out/REMOVE".to_owned() },
            Request::Finish,
        ]
    );
}

#[test]
fn a_taken_name_is_not_overwritten() {
    let mut d = disk(&[("src/one/x.mp3", "first"), ("src/two/x.mp3", "second")]);
    let engine =
        move_files(paths(&["src/one/x.mp3", "src/two/x.mp3"]), music_rules(), &options(false));
    run_moves(engine, &mut d);
    assert_eq!(d.files.get("/work/out/Audio/x.mp3"), Some(&"first".to_owned()));
    assert_eq!(d.files.get("/work/out/Audio/x.mp3.COPY1"), Some(&"second".to_owned()));
    assert_eq!(d.files.len(), 2);
    assert_eq!(
        d.log.unwrap().1,
        vec![
            record("/work/src/one/x.mp3", "/work/out/Audio/x.mp3"),
            record("/work/src/two/x.mp3", "/work/out/Audio/x.mp3.COPY1"),
        ]
    );
}

#[test]
fn the_mark_is_the_position_among_all_files() {
    let mut d = disk(&[
        ("src/a/x.mp3", "1"),
        ("src/skip.xyz", "2"),
        ("src/b/x.mp3", "3"),
        ("src/c/x.mp3", "4"),
    ]);
    let files = paths(&["src/a/x.mp3", "src/skip.xyz", "src/b/x.mp3", "src/c/x.mp3"]);
    run_moves(move_files(files, music_rules(), &options(false)), &mut d);
    assert_eq!(d.files.get("/work/out/Audio/x.mp3"), Some(&"1".to_owned()));
    assert_eq!(d.files.get("/work/out/Audio/x.mp3.COPY2"), Some(&"3".to_owned()));
    assert_eq!(d.files.get("/work/out/Audio/x.mp3.COPY3"), Some(&"4".to_owned()));
}

#[test]
fn the_same_state_gives_the_same_names() {
    let start = disk(&[
        ("out/Audio/x.mp3", "old"),
        ("src/a/x.mp3", "1"),
        ("src/b/x.mp3", "2"),
        ("src/c.zip", "3"),
    ]);
    let files = ["src/a/x.mp3", "src/b/x.mp3", "src/c.zip"];
    let mut one = start.clone();
    let mut two = start.clone();
    let first = run_moves(move_files(paths(&files), music_rules(), &options(false)), &mut one);
    let second = run_moves(move_files(paths(&files), music_rules(), &options(false)), &mut two);
    assert_eq!(first.asked, second.asked);
    assert_eq!(one, two);
    assert_eq!(one.files.get("/work/out/Audio/x.mp3.COPY0"), Some(&"1".to_owned()));
    assert_eq!(one.files.get("/work/out/Audio/x.mp3.COPY1"), Some(&"2".to_owned()));
    assert_eq!(one.files.get("/work/out/Audio/x.mp3"), Some(&"old".to_owned()));
}

#[test]
fn settle_gives_the_plain_path_where_it_is_free() {
    assert_eq!(settle("out/Audio", "x.mp3", "/work/src/x.mp3", 5, false), "out/Audio/x.mp3");
}

#[test]
fn settle_marks_the_resolved_name_where_the_path_is_taken() {
    assert_eq!(settle("out/Audio", "x.mp3", "/work/src/x.mp3", 5, true), "out/Audio/x.mp3.COPY5");
    assert_eq!(settle("out/Audio", "link.mp3", "/real/song.mp3", 12, true), "out/Audio/song.mp3.COPY12");
    assert_eq!(settle("out/Audio", "x.mp3", "/", 0, true), "out/Audio/x.mp3.COPY0");
}

#[test]
fn a_dry_run_shows_and_moves_nothing() {
    let start = disk(&[("src/a.mp3", "A"), ("src/b.zip", "B"), ("src/c.xyz", "C")]);
    let mut d = start.clone();
    let files = paths(&["src/a.mp3", "src/b.zip", "src/c.xyz"]);
    let ran = run_moves(move_files(files, music_rules(), &options(true)), &mut d);
    assert_eq!(ran.said, vec!["src/a.mp3 -> out/Audio/a.mp3", "src/b.zip -> out/Compressed/b.zip"]);
    assert_eq!(d.files, start.files);
    assert_eq!(d.removed, Vec::<String>::new());
    assert_eq!(
        ran.asked,
        vec![
            Request::Exists { path: "out/Audio/a.mp3".to_owned() },
            Request::Exists { path: "out/Compressed/b.zip".to_owned() },
            Request::CreateDirAll { path: "logs".to_owned() },
            Request::WriteLog { path: "logs/organize-rt.log".to_owned(), records: Vec::new() },
            Request::Finish,
        ]
    );
}

#[test]
fn a_dry_run_sees_what_is_in_place_now() {
    let mut d =
        disk(&[("out/Audio/x.mp3", "old"), ("src/one/x.mp3", "1"), ("src/two/x.mp3", "2")]);
    let files = paths(&["src/one/x.mp3", "src/two/x.mp3"]);
    let ran = run_moves(move_files(files, music_rules(), &options(true)), &mut d);
    assert_eq!(
        ran.said,
        vec![
            "src/one/x.mp3 -> out/Audio/x.mp3.COPY0",
            "src/two/x.mp3 -> out/Audio/x.mp3.COPY1",
        ]
    );
}

#[test]
fn a_quiet_dry_run_says_nothing() {
    let mut d = disk(&[("src/a.mp3", "A")]);
    let mut o = options(true);
    o.quiet = true;
    let ran = run_moves(move_files(paths(&["src/a.mp3"]), music_rules(), &o), &mut d);
    assert_eq!(ran.said, Vec::<String>::new());
}

#[test]
fn a_failed_move_is_reported_and_the_run_goes_on() {
    let mut d = disk(&[("src/a.mp3", "A"), ("src/b.zip", "B")]);
    d.locked.push("/work/src/a.mp3".to_owned());
    let files = paths(&["src/a.mp3", "src/b.zip"]);
    let ran = run_moves(move_files(files, music_rules(), &options(false)), &mut d);
    assert_eq!(ran.said, vec!["Failed to move file /work/src/a.mp3 with error Permission denied"]);
    assert_eq!(d.files.get("/work/src/a.mp3"), Some(&"A".to_owned()));
    assert_eq!(d.files.get("/work/out/Compressed/b.zip"), Some(&"B".to_owned()));
    assert_eq!(d.log.unwrap().1, vec![record("/work/src/b.zip", "/work/out/Compressed/b.zip")]);
    assert_eq!(ran.asked.last(), Some(&Request::Finish));
}

#[test]
fn a_file_that_is_gone_is_reported_and_the_run_goes_on() {
    let mut d = disk(&[("src/b.zip", "B")]);
    let files = paths(&["src/a.mp3", "src/b.zip"]);
    let ran = run_moves(move_files(files, music_rules(), &options(false)), &mut d);
    assert_eq!(ran.said, vec!["Failed to move file src/a.mp3 with error No such file or directory"]);
    assert_eq!(d.log.unwrap().1, vec![record("/work/src/b.zip", "/work/out/Compressed/b.zip")]);
}

#[test]
fn a_quiet_run_keeps_failures_to_itself() {
    let mut d = disk(&[("src/a.mp3", "A")]);
    d.locked.push("/work/src/a.mp3".to_owned());
    let mut o = options(false);
    o.quiet = true;
    let ran = run_moves(move_files(paths(&["src/a.mp3"]), music_rules(), &o), &mut d);
    assert_eq!(ran.said, Vec::<String>::new());
    assert_eq!(d.log.unwrap().1, Vec::<Move>::new());
}

#[test]
fn the_log_is_written_even_for_no_files() {
    let mut d = disk(&[]);
    let ran = run_moves(move_files(Vec::new(), music_rules(), &options(false)), &mut d);
    assert_eq!(d.log, Some(("logs/organize-rt.log".to_owned(), Vec::new())));
    assert_eq!(d.made.len(), 14);
    assert_eq!(d.made[0], "out/Audio");
    assert_eq!(d.made[12], "out/REMOVE");
    assert_eq!(d.made[13], "logs");
    assert_eq!(d.removed, vec!["out/REMOVE"]);
    assert_eq!(ran.asked.len(), 17);
}

#[test]
fn a_log_that_cannot_be_written_ends_the_run() {
    let mut d = disk(&[("src/a.mp3", "A")]);
    d.no_logs = true;
    let ran = run_moves(move_files(paths(&["src/a.mp3"]), music_rules(), &options(false)), &mut d);
    assert_eq!(
        ran.asked.last(),
        Some(&Request::Abort { reason: "Read-only file system".to_owned() })
    );
    assert_eq!(d.removed, Vec::<String>::new());
    assert_eq!(d.files.get("/work/out/Audio/a.mp3"), Some(&"A".to_owned()));
}

#[test]
fn a_verbose_run_tells_of_the_removal() {
    let mut d = disk(&[]);
    let mut o = options(false);
    o.verbose = true;
    let ran = run_moves(move_files(Vec::new(), music_rules(), &o), &mut d);
    assert_eq!(ran.said, vec!["Creating dirs...", "Done!", "Removing REMOVE dir...", "Done!"]);
}

#[test]
fn a_category_directory_that_cannot_be_made_ends_the_run() {
    let engine = move_files(paths(&["src/a.mp3"]), music_rules(), &options(false));
    let (engine, first) = engine.advance(Reply::done());
    assert_eq!(first.ask, Request::CreateDirAll { path: "out/Audio".to_owned() });
    let (engine, second) = engine.advance(Reply::done());
    assert_eq!(second.ask, Request::CreateDirAll { path: "out/Compressed".to_owned() });
    let (engine, third) = engine.advance(Reply::failed("Permission denied".to_owned()));
    assert_eq!(third.say, vec!["Failed to create output dirs"]);
    assert_eq!(third.ask, Request::Abort { reason: "Permission denied".to_owned() });
    assert!(engine.is_finished());
}

#[test]
fn a_dry_run_makes_no_category_directory() {
    let engine = move_files(paths(&["src/a.mp3"]), music_rules(), &options(true));
    let (_, first) = engine.advance(Reply::done());
    assert_eq!(first.ask, Request::Exists { path: "out/Audio/a.mp3".to_owned() });
}

#[test]
fn what_goes_to_the_removal_category_is_gone() {
    let mut d = disk(&[("src/a.tmp", "T"), ("src/b.zip", "B")]);
    let list = rules(&[(r"\.tmp$", "REMOVE"), (r"\.zip$", "Compressed")]);
    let ran = run_moves(move_files(paths(&["src/a.tmp", "src/b.zip"]), list, &options(false)), &mut d);
    assert_eq!(d.files.len(), 1);
    assert_eq!(d.files.get("/work/out/Compressed/b.zip"), Some(&"B".to_owned()));
    let records = d.log.clone().unwrap().1;
    assert_eq!(
        records,
        vec![
            record("/work/src/a.tmp", "/work/out/REMOVE/a.tmp"),
            record("/work/src/b.zip", "/work/out/Compressed/b.zip"),
        ]
    );
    let n = ran.asked.len();
    assert_eq!(ran.asked[n - 2], Request::RemoveDirAll { path: "out/REMOVE".to_owned() });

    let back = run_undo(undo(&options(false), records), &mut d);
    assert_eq!(
        back.said,
        vec![
            "Failed to move /work/out/REMOVE/a.tmp back to /work/src/a.tmp with error 'No such file or directory' (skipped it)"
        ]
    );
    assert_eq!(back.asked.last(), Some(&Request::Finish));
    assert_eq!(d.files.get("/work/src/b.zip"), Some(&"B".to_owned()));
    assert_eq!(d.files.len(), 1);
}

#[test]
fn undo_puts_every_file_back() {
    let start = disk(&[("src/a.mp3", "A"), ("src/sub/b.zip", "B"), ("src/c.xyz", "C")]);
    let mut d = start.clone();
    let files = paths(&["src/a.mp3", "src/sub/b.zip", "src/c.xyz"]);
    run_moves(move_files(files, music_rules(), &options(false)), &mut d);
    assert!(d.files != start.files);
    let records = d.log.clone().unwrap().1;

    let back = run_undo(undo(&options(false), records.clone()), &mut d);
    assert_eq!(back.said, Vec::<String>::new());
    assert_eq!(d.files, start.files);
    assert_eq!(
        back.asked,
        vec![
            Request::CreateDirAll { path: "/work/src".to_owned() },
            Request::Rename {
                from: "/work/out/Audio/a.mp3".to_owned(),
                to: "/work/src/a.mp3".to_owned()
            },
            Request::CreateDirAll { path: "/work/src/sub".to_owned() },
            Request::Rename {
                from: "/work/out/Compressed/b.zip".to_owned(),
                to: "/work/src/sub/b.zip".to_owned()
            },
            Request::Finish,
        ]
    );

    let again = run_undo(undo(&options(false), records), &mut d);
    assert_eq!(
        again.said,
        vec![
            "Failed to move /work/out/Audio/a.mp3 back to /work/src/a.mp3 with error 'No such file or directory' (skipped it)",
            "Failed to move /work/out/Compressed/b.zip back to /work/src/sub/b.zip with error 'No such file or directory' (skipped it)",
        ]
    );
    assert_eq!(again.asked.last(), Some(&Request::Finish));
    assert_eq!(d.files, start.files);
}

#[test]
fn undo_of_nothing_is_over_at_once() {
    let mut d = disk(&[]);
    let back = run_undo(undo(&options(false), Vec::new()), &mut d);
    assert_eq!(back.asked, vec![Request::Finish]);
    assert_eq!(back.said, Vec::<String>::new());
}

#[test]
fn a_dry_undo_shows_the_way_back() {
    let start = disk(&[("out/Audio/a.mp3", "A")]);
    let mut d = start.clone();
    let records = vec![record("/work/src/a.mp3", "/work/out/Audio/a.mp3")];
    let back = run_undo(undo(&options(true), records), &mut d);
    assert_eq!(back.said, vec!["/work/out/Audio/a.mp3 -> /work/src/a.mp3"]);
    assert_eq!(d.files, start.files);
    assert_eq!(
        back.asked,
        vec![Request::CreateDirAll { path: "/work/src".to_owned() }, Request::Finish]
    );
}

#[test]
fn a_quiet_undo_keeps_failures_to_itself() {
    let mut d = disk(&[]);
    let mut o = options(false);
    o.quiet = true;
    let records = vec![record("/work/src/a.mp3", "/work/out/Audio/a.mp3")];
    let back = run_undo(undo(&o, records), &mut d);
    assert_eq!(back.said, Vec::<String>::new());
    assert_eq!(back.asked.last(), Some(&Request::Finish));
}

#[test]
fn an_undo_that_cannot_make_a_directory_ends() {
    let records = vec![record("/work/src/a.mp3", "/work/out/Audio/a.mp3")];
    let engine = undo(&options(false), records);
    let (engine, first) = engine.advance(Reply::done());
    assert_eq!(first.ask, Request::CreateDirAll { path: "/work/src".to_owned() });
    assert_eq!(engine.considered(), 0);
    let (engine, second) = engine.advance(Reply::failed("Permission denied".to_owned()));
    assert_eq!(second.ask, Request::Abort { reason: "Permission denied".to_owned() });
    assert!(engine.is_finished());
    let (_, third) = engine.advance(Reply::done());
    assert_eq!(third.ask, Request::Finish);
}

#[test]
fn the_engine_counts_the_files_it_is_done_with() {
    let engine = move_files(paths(&["src/c.xyz", "src/a.mp3"]), music_rules(), &options(false));
    assert_eq!(engine.considered(), 0);
    let (engine, turn) = past_the_directories(engine);
    assert_eq!(turn.ask, Request::Canonicalize { path: "src/a.mp3".to_owned() });
    assert_eq!(engine.considered(), 1);
    let (engine, turn) = engine.advance(Reply::failed("gone".to_owned()));
    assert_eq!(turn.say, vec!["Failed to move file src/a.mp3 with error gone"]);
    assert_eq!(turn.ask, Request::CreateDirAll { path: "logs".to_owned() });
    assert_eq!(engine.considered(), 2);
}

#[test]
fn a_destination_that_cannot_be_resolved_is_recorded_as_asked() {
    let engine = move_files(paths(&["src/a.mp3"]), music_rules(), &options(false));
    let (engine, _) = past_the_directories(engine);
    let (engine, _) = engine.advance(Reply::with("/work/src/a.mp3".to_owned()));
    let (engine, turn) = engine.advance(Reply::found(false));
    assert_eq!(
        turn.ask,
        Request::Rename { from: "/work/src/a.mp3".to_owned(), to: "out/Audio/a.mp3".to_owned() }
    );
    let (engine, _) = engine.advance(Reply::done());
    let (engine, _) = engine.advance(Reply::failed("gone".to_owned()));
    let (_, turn) = engine.advance(Reply::done());
    assert_eq!(
        turn.ask,
        Request::WriteLog {
            path: "logs/organize-rt.log".to_owned(),
            records: vec![record("/work/src/a.mp3", "out/Audio/a.mp3")],
        }
    );
}
