use organize_rt::options::Options;
use organize_rt::rules::{CompiledRule, CompiledRules, Placement, RawRules, RuleError};

fn raw(rules: &[(&str, &str)]) -> RawRules {
    RawRules { rules: rules.iter().map(|(p, c)| (p.to_string(), c.to_string())).collect() }
}

fn compiled(rules: &[(&str, &str)], output: &str) -> CompiledRules {
    raw(rules).compile(output).unwrap()
}

fn placed(dir: &str, name: &str) -> Option<Placement> {
    Some(Placement { dir: dir.to_owned(), name: name.to_owned() })
}

#[test]
fn compile_keeps_order_and_binds_directories() {
    let rules = compiled(&[(r"\.mp3$", "Audio"), (r"\.zip$", "Compressed"), (r".*", "Unsorted")], "out");
    assert_eq!(rules.len(), 3);
    assert_eq!(rules.rule(0).pattern(), r"\.mp3$");
    assert_eq!(rules.rule(0).dir(), "out/Audio");
    assert_eq!(rules.rule(1).pattern(), r"\.zip$");
    assert_eq!(rules.rule(1).dir(), "out/Compressed");
    assert_eq!(rules.rule(2).dir(), "out/Unsorted");
    let seen: Vec<(String, String)> =
        rules.iter().map(|r| (r.pattern().clone(), r.dir().clone())).collect();
    assert_eq!(
        seen,
        vec![
            (r"\.mp3$".to_owned(), "out/Audio".to_owned()),
            (r"\.zip$".to_owned(), "out/Compressed".to_owned()),
            (r".*".to_owned(), "out/Unsorted".to_owned()),
        ]
    );
}

#[test]
fn compile_of_no_rules_is_no_rules() {
    let rules = raw(&[]).compile("out").unwrap();
    assert_eq!(rules.len(), 0);
    assert_eq!(rules.first_match("a.mp3"), None);
    assert_eq!(rules.placement("a.mp3"), None);
}

#[test]
fn one_bad_pattern_fails_the_whole_list() {
    let result = raw(&[(r"\.mp3$", "Audio"), (r"foo(bar", "Garbage"), (r"\.zip$", "Compressed")])
        .compile("out");
    match result {
        Ok(_) => panic!("an unclosed group must not compile"),
        Err(e) => assert_eq!(e, RuleError { index: 1, pattern: "foo(bar".to_owned() }),
    }
}

#[test]
fn the_first_bad_pattern_is_reported() {
    let result = raw(&[(r"[", "Audio"), (r"(", "Garbage")]).compile("out");
    assert_eq!(result.err().map(|e| e.index), Some(0));
}

#[test]
fn load_compiles_for_the_output_of_the_options() {
    let options = Options {
        recursive: false,
        hidden: false,
        verbose: false,
        quiet: false,
        dry_run: false,
        undo: false,
        log_path: "./organize-rt.log".to_owned(),
        source_raw: None,
        source: "src".to_owned(),
        output_raw: None,
        output: "/srv/sorted".to_owned(),
    };
    let rules = CompiledRules::load(raw(&[(r"\.iso$", "ISO")]), &options).unwrap();
    assert_eq!(rules.rule(0).dir(), "/srv/sorted/ISO");
    assert!(CompiledRules::load(raw(&[(r"*", "ISO")]), &options).is_err());
}

#[test]
fn matching_ignores_case() {
    let rules = compiled(&[(r"\.mp3$", "Audio")], "out");
    assert_eq!(rules.first_match("song.mp3"), Some(0));
    assert_eq!(rules.first_match("SONG.MP3"), Some(0));
    assert_eq!(rules.first_match("Song.Mp3"), Some(0));
    assert_eq!(rules.first_match("song.mp4"), None);
    assert!(rules.rule(0).accepts("A.MP3"));
    assert!(!rules.rule(0).accepts("a.zip"));
}

#[test]
fn matching_is_a_search_not_a_whole_match() {
    let rules = compiled(&[(r"report", "Documents"), (r"^x$", "Garbage")], "out");
    assert_eq!(rules.first_match("annual-report-2020.txt"), Some(0));
    assert_eq!(rules.first_match("x"), Some(1));
    assert_eq!(rules.first_match("xx"), None);
}

#[test]
fn first_match_wins() {
    let rules = compiled(
        &[(r"\.tar\.gz$", "Compressed"), (r"\.gz$", "Garbage"), (r".*", "Unsorted")],
        "out",
    );
    assert_eq!(rules.first_match("backup.tar.gz"), Some(0));
    assert_eq!(rules.first_match("notes.gz"), Some(1));
    assert_eq!(rules.first_match("anything"), Some(2));
    assert_eq!(rules.placement("dl/backup.tar.gz"), placed("out/Compressed", "backup.tar.gz"));
    assert_eq!(rules.placement("dl/notes.gz"), placed("out/Garbage", "notes.gz"));
}

#[test]
fn first_match_wins_whatever_follows() {
    let short = compiled(&[(r"\.mp3$", "Audio")], "out");
    let long = compiled(&[(r"\.mp3$", "Audio"), (r"mp3", "Video"), (r".*", "Unsorted")], "out");
    assert_eq!(short.placement("a.mp3"), long.placement("a.mp3"));
    assert_eq!(long.placement("a.mp3"), placed("out/Audio", "a.mp3"));
}

#[test]
fn the_order_of_the_rules_decides() {
    let one = compiled(&[(r"\.gz$", "Garbage"), (r"\.tar\.gz$", "Compressed")], "out");
    assert_eq!(one.placement("backup.tar.gz"), placed("out/Garbage", "backup.tar.gz"));
}

#[test]
fn no_match_goes_nowhere() {
    let rules = compiled(&[(r"\.mp3$", "Audio"), (r"\.zip$", "Compressed")], "out");
    assert_eq!(rules.placement("src/c.xyz"), None);
    assert_eq!(rules.first_match("c.xyz"), None);
}

#[test]
fn only_the_base_name_is_matched() {
    let rules = compiled(&[(r"music", "Audio")], "out");
    assert_eq!(rules.placement("music/notes.txt"), None);
    assert_eq!(rules.placement("docs/music.txt"), placed("out/Audio", "music.txt"));
}

#[test]
fn a_path_without_a_base_name_goes_nowhere() {
    let rules = compiled(&[(r".*", "Unsorted")], "out");
    assert_eq!(rules.placement("dir/"), None);
    assert_eq!(rules.placement(".."), None);
    assert_eq!(rules.placement(""), None);
}

#[test]
fn from_attempt_takes_what_compiled() {
    let attempt = regex::RegexBuilder::new(r"\.png$").case_insensitive(true).build();
    let rule =
        CompiledRule::from_attempt(r"\.png$".to_owned(), "out/Images".to_owned(), 4, attempt).unwrap();
    assert_eq!(rule.pattern(), r"\.png$");
    assert_eq!(rule.dir(), "out/Images");
    assert!(rule.accepts("Photo.PNG"));
    assert!(!rule.accepts("photo.jpg"));
}

#[test]
fn from_attempt_reports_what_was_refused() {
    let attempt = regex::RegexBuilder::new(r"(").case_insensitive(true).build();
    let made = CompiledRule::from_attempt("(".to_owned(), "out/Images".to_owned(), 4, attempt);
    assert_eq!(made.err(), Some(RuleError { index: 4, pattern: "(".to_owned() }));
}

#[test]
fn the_built_in_rules_compile() {
    let raw = RawRules::default();
    assert_eq!(raw.rules.len(), 20);
    assert_eq!(raw.rules[0], (r"\.(mp3|flac|ogg|wav|m4a|aac|opus|wma)$".to_owned(), "Audio".to_owned()));
    assert_eq!(raw.rules[19], ("^license".to_owned(), "Documents".to_owned()));
    let rules = raw.compile("out").unwrap();
    assert_eq!(rules.len(), 20);
}

#[test]
fn the_built_in_rules_name_known_categories() {
    let categories = [
        "Audio",
        "Compressed",
        "Garbage",
        "Downloads",
        "Code",
        "Documents",
        "Images",
        "ISO",
        "Configuration",
        "Encrypted",
        "Video",
        "Unsorted",
        "REMOVE",
    ];
    for (pattern, category) in RawRules::default().rules {
        assert!(categories.contains(&category.as_str()), "{} -> {}", pattern, category);
    }
}

#[test]
fn the_built_in_rules_sort_common_files() {
    let rules = RawRules::default().compile("out").unwrap();
    assert_eq!(rules.placement("dl/Song.MP3"), placed("out/Audio", "Song.MP3"));
    assert_eq!(rules.placement("dl/backup.tar.gz"), placed("out/Compressed", "backup.tar.gz"));
    assert_eq!(rules.placement("dl/photo.jpeg"), placed("out/Images", "photo.jpeg"));
    assert_eq!(rules.placement("dl/Thumbs.db"), placed("out/REMOVE", "Thumbs.db"));
    assert_eq!(rules.placement("dl/README.md"), placed("out/Documents", "README.md"));
    assert_eq!(rules.placement("dl/README"), placed("out/Documents", "README"));
    assert_eq!(rules.placement("dl/notes.xyz"), None);
}

#[test]
fn a_refused_pattern_fails_wherever_it_stands() {
    for at in 0..3 {
        let mut list = vec![(r"\.mp3$", "Audio"), (r"\.zip$", "Compressed"), (r"\.iso$", "ISO")];
        list[at].0 = "(";
        let result = raw(&list).compile("/out");
        assert_eq!(result.err(), Some(RuleError { index: at, pattern: "(".to_owned() }));
    }
}

#[test]
fn a_pattern_too_large_is_refused() {
    let result = raw(&[(r"\.mp3$", "Audio"), (r"\w{1000}", "Garbage")]).compile("out");
    assert_eq!(result.err().map(|e| e.index), Some(1));
}
