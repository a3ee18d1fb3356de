use organize_rt::files::{create_dirs, get_files, max_depth, Entry};
use organize_rt::options::{Options, UsageError};
use organize_rt::record::Move;

fn options() -> Options {
    Options {
        recursive: false,
        hidden: false,
        verbose: false,
        quiet: false,
        dry_run: false,
        undo: false,
        log_path: "./organize-rt.log".to_owned(),
        source_raw: Some("src".to_owned()),
        source: String::new(),
        output_raw: Some("out".to_owned()),
        output: String::new(),
    }
}

fn entry(path: &str, is_dir: bool) -> Entry {
    Entry { path: path.to_owned(), is_dir }
}

#[test]
fn verbose_lines_only_when_verbose() {
    let mut o = options();
    assert_eq!(o.verbose_print("Counting files..."), None);
    o.verbose = true;
    assert_eq!(o.verbose_print("Counting files..."), Some("Counting files...".to_owned()));
}

#[test]
fn default_lines_unless_quiet() {
    let mut o = options();
    assert_eq!(o.default_print("a -> b"), Some("a -> b".to_owned()));
    o.quiet = true;
    assert_eq!(o.default_print("a -> b"), None);
}

#[test]
fn quiet_and_verbose_exclude_each_other() {
    let mut o = options();
    o.quiet = true;
    o.verbose = true;
    assert_eq!(o.validate(), Err(UsageError::QuietAndVerbose));
    o.undo = true;
    assert_eq!(o.validate(), Err(UsageError::QuietAndVerbose));
}

#[test]
fn a_normal_run_needs_source_and_output() {
    let mut o = options();
    assert_eq!(o.validate(), Ok(()));
    o.output_raw = None;
    assert_eq!(o.validate(), Err(UsageError::MissingOutput));
    o.source_raw = None;
    assert_eq!(o.validate(), Err(UsageError::MissingSource));
}

#[test]
fn an_undo_needs_neither() {
    let mut o = options();
    o.undo = true;
    o.source_raw = None;
    o.output_raw = None;
    assert_eq!(o.validate(), Ok(()));
}

#[test]
fn resolve_takes_the_paths_as_given() {
    let mut o = options();
    o.dry_run = true;
    o.resolve();
    assert_eq!(o.source, "src");
    assert_eq!(o.output, "out");
    assert_eq!(o.source_raw, Some("src".to_owned()));
    assert_eq!(o.output_raw, Some("out".to_owned()));
    assert!(o.dry_run);
    assert_eq!(o.log_path, "./organize-rt.log");
}

#[test]
fn progress_is_shown_in_a_plain_run_only() {
    let mut o = options();
    assert!(o.shows_progress());
    o.quiet = true;
    assert!(!o.shows_progress());
    o.quiet = false;
    o.dry_run = true;
    assert!(!o.shows_progress());
}

#[test]
fn depth_is_one_unless_recursive() {
    assert_eq!(max_depth(false), Some(1));
    assert_eq!(max_depth(true), None);
}

#[test]
fn get_files_drops_directories_and_hidden_entries() {
    let entries = vec![
        entry("src", true),
        entry("src/a.mp3", false),
        entry("src/.cache", true),
        entry("src/.cache/b.zip", false),
        entry("src/sub", true),
        entry("src/sub/c.xyz", false),
        entry("src/.profile", false),
    ];
    assert_eq!(get_files(false, &entries), vec!["src/a.mp3", "src/sub/c.xyz"]);
}

#[test]
fn get_files_takes_hidden_entries_when_asked() {
    let entries = vec![
        entry("src", true),
        entry("src/a.mp3", false),
        entry("src/.cache", true),
        entry("src/.cache/b.zip", false),
        entry("src/.profile", false),
    ];
    assert_eq!(get_files(true, &entries), vec!["src/a.mp3", "src/.cache/b.zip", "src/.profile"]);
}

#[test]
fn get_files_keeps_the_order_found() {
    let entries = vec![entry("z", false), entry("a", false), entry("m", false)];
    assert_eq!(get_files(false, &entries), vec!["z", "a", "m"]);
    assert_eq!(get_files(false, &Vec::new()), Vec::<String>::new());
}

#[test]
fn a_path_through_the_parent_counts_as_hidden() {
    let entries = vec![entry("./src/a.mp3", false), entry("src/../other/b.mp3", false)];
    assert_eq!(get_files(false, &entries), vec!["./src/a.mp3"]);
    assert_eq!(get_files(true, &entries), vec!["./src/a.mp3", "src/../other/b.mp3"]);
}

#[test]
fn create_dirs_lists_every_category() {
    let mut o = options();
    o.resolve();
    assert_eq!(
        create_dirs(&o),
        vec![
            "out/Audio",
            "out/Compressed",
            "out/Garbage",
            "out/Downloads",
            "out/Code",
            "out/Documents",
            "out/Images",
            "out/ISO",
            "out/Configuration",
            "out/Encrypted",
            "out/Video",
            "out/Unsorted",
            "out/REMOVE",
        ]
    );
}

#[test]
fn create_dirs_joins_as_paths_are_joined() {
    let mut o = options();
    o.output_raw = Some("/srv/sorted/".to_owned());
    o.resolve();
    let dirs = create_dirs(&o);
    assert_eq!(dirs.len(), 13);
    assert_eq!(dirs[0], "/srv/sorted/Audio");
    assert_eq!(dirs[12], "/srv/sorted/REMOVE");
}

#[test]
fn a_move_holds_both_paths() {
    let record = Move::new("/work/src/a.mp3".to_owned(), "/work/out/Audio/a.mp3".to_owned());
    assert_eq!(record.from, "/work/src/a.mp3");
    assert_eq!(record.to, "/work/out/Audio/a.mp3");
}
