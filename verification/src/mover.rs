//! The move engine: the category directories first, and for each file in
//! turn the first rule that accepts its name, a destination that overwrites
//! nothing, the move, and its record.

use vstd::prelude::*;
use crate::files::{category_dirs, create_dirs};
use crate::naming::{copy_name, copy_name_of};
use crate::options::Options;
use crate::paths::{base_name, base_of, join, joined, parent, parent_of};
use crate::protocol::{
    lines_unless, mapping_line, mapping_text, no_lines, only_if, unless, Reply, ReplyView, Request,
    RequestView, Turn, TurnView,
};
use crate::record::{Move, MoveView};
use crate::rules::{placement_of, CompiledRules, Placement, RuleView};

verus! {

/// How far the engine is: with the category directories, with the file at
/// its cursor, and after the last file with the end of the run.
#[derive(Debug, Clone, PartialEq, Eq)]
pub enum Stage {
    /// Nothing has been asked yet.
    Starting,
    /// Asked to create the category directory at position `next`.
    Creating { next: usize },
    /// Nothing is pending for the file at the cursor.
    Scanning,
    /// Asked for the resolved path of the file, which goes under `dir` as
    /// `name`.
    Resolving { dir: String, name: String },
    /// Asked whether `name` is taken under `dir`.
    Probing { source: String, dir: String, name: String },
    /// Asked to rename `source` to `dest`.
    Renaming { source: String, dest: String },
    /// Asked for the resolved path of `dest`, where `source` now is.
    Locating { source: String, dest: String },
    /// Asked to create the directory of the log.
    LogDir,
    /// Asked to write the log.
    Logging,
    /// Asked to remove the directory of the removal category.
    Pruning,
    /// The run is over.
    Finished,
}

pub enum StageView {
    Starting,
    Creating { next: nat },
    Scanning,
    Resolving { dir: Seq<char>, name: Seq<char> },
    Probing { source: Seq<char>, dir: Seq<char>, name: Seq<char> },
    Renaming { source: Seq<char>, dest: Seq<char> },
    Locating { source: Seq<char>, dest: Seq<char> },
    LogDir,
    Logging,
    Pruning,
    Finished,
}

impl View for Stage {
    type V = StageView;

    open spec fn view(&self) -> StageView {
        match self {
            Stage::Starting => StageView::Starting,
            Stage::Creating { next } => StageView::Creating { next: *next as nat },
            Stage::Scanning => StageView::Scanning,
            Stage::Resolving { dir, name } => StageView::Resolving { dir: dir@, name: name@ },
            Stage::Probing { source, dir, name } => StageView::Probing {
                source: source@,
                dir: dir@,
                name: name@,
            },
            Stage::Renaming { source, dest } => StageView::Renaming {
                source: source@,
                dest: dest@,
            },
            Stage::Locating { source, dest } => StageView::Locating {
                source: source@,
                dest: dest@,
            },
            Stage::LogDir => StageView::LogDir,
            Stage::Logging => StageView::Logging,
            Stage::Pruning => StageView::Pruning,
            Stage::Finished => StageView::Finished,
        }
    }
}

impl StageView {
    /// Whether the stage belongs to the file at the cursor.
    pub open spec fn holds_file(self) -> bool {
        self is Resolving || self is Probing || self is Renaming || self is Locating
    }
}

/// A run of the move engine.
pub struct MoveEngine {
    files: Vec<String>,
    rules: CompiledRules,
    dirs: Vec<String>,
    dry_run: bool,
    quiet: bool,
    verbose: bool,
    log_path: String,
    removal_dir: String,
    cursor: usize,
    stage: Stage,
    records: Vec<Move>,
}

/// A run of the move engine as plain values.
pub struct MoveEngineView {
    /// The candidate files, in the order in which they are processed.
    pub files: Seq<Seq<char>>,
    pub rules: Seq<RuleView>,
    /// The category directories, in the order in which they are made.
    pub dirs: Seq<Seq<char>>,
    pub dry_run: bool,
    pub quiet: bool,
    pub verbose: bool,
    pub log_path: Seq<char>,
    /// The directory of the removal category.
    pub removal_dir: Seq<char>,
    /// Position of the file being processed.
    pub cursor: nat,
    pub stage: StageView,
    /// The moves made so far, oldest first.
    pub records: Seq<MoveView>,
}

impl View for MoveEngine {
    type V = MoveEngineView;

    closed spec fn view(&self) -> MoveEngineView {
        MoveEngineView {
            files: self.files.deep_view(),
            rules: self.rules@,
            dirs: self.dirs.deep_view(),
            dry_run: self.dry_run,
            quiet: self.quiet,
            verbose: self.verbose,
            log_path: self.log_path@,
            removal_dir: self.removal_dir@,
            cursor: self.cursor as nat,
            stage: self.stage@,
            records: self.records.deep_view(),
        }
    }
}

/// The name of the removal category: what is moved into its directory is
/// deleted with it at the end of a run.
pub open spec fn removal_category() -> Seq<char> {
    "REMOVE"@
}

/// The line that reports a file that could not be moved.
pub open spec fn move_failure_line(file: Seq<char>, error: Seq<char>) -> Seq<char> {
    "Failed to move file "@ + file + " with error "@ + error
}

/// The path that the file processed at `index` is moved to. It goes under
/// `dir` by its name. Where that path is taken, nothing is overwritten: the
/// file goes under `dir` by the base name of `source`, marked with `index`.
pub open spec fn destination(
    dir: Seq<char>,
    name: Seq<char>,
    source: Seq<char>,
    index: nat,
    taken: bool,
) -> Seq<char> {
    if taken {
        let own = match base_of(source) {
            Some(base) => base,
            None => name,
        };
        joined(dir, copy_name_of(own, index))
    } else {
        joined(dir, name)
    }
}

/// The engine as it starts.
pub open spec fn initial(
    files: Seq<Seq<char>>,
    rules: Seq<RuleView>,
    dry_run: bool,
    quiet: bool,
    verbose: bool,
    log_path: Seq<char>,
    output: Seq<char>,
) -> MoveEngineView {
    MoveEngineView {
        files,
        rules,
        dirs: category_dirs(output),
        dry_run,
        quiet,
        verbose,
        log_path,
        removal_dir: joined(output, removal_category()),
        cursor: 0,
        stage: StageView::Starting,
        records: Seq::empty(),
    }
}

impl MoveEngineView {
    /// The cursor is within the files, and on a file while one is in work;
    /// the directory being made is one of the category directories.
    pub open spec fn well_formed(self) -> bool {
        &&& self.cursor <= self.files.len()
        &&& self.stage.holds_file() ==> self.cursor < self.files.len()
        &&& self.stage matches StageView::Creating { next } ==> next < self.dirs.len()
    }

    /// Done with the file at the cursor.
    pub open spec fn past_file(self) -> MoveEngineView {
        MoveEngineView { cursor: self.cursor + 1, stage: StageView::Scanning, ..self }
    }

    /// The run has failed for good.
    pub open spec fn abort(self, say: Seq<Seq<char>>, reason: Seq<char>) -> (
        MoveEngineView,
        TurnView,
    ) {
        (
            MoveEngineView { stage: StageView::Finished, ..self },
            TurnView { say, ask: RequestView::Abort { reason } },
        )
    }

    /// Asks for the category directory at position `next`; once all are
    /// made, turns to the files.
    pub open spec fn prepare(self, next: nat, say: Seq<Seq<char>>) -> (MoveEngineView, TurnView) {
        if next < self.dirs.len() {
            (
                MoveEngineView { stage: StageView::Creating { next }, ..self },
                TurnView { say, ask: RequestView::CreateDirAll { path: self.dirs[next as int] } },
            )
        } else {
            (MoveEngineView { stage: StageView::Scanning, ..self }).scan(
                say + only_if(self.verbose, "Done!"@),
            )
        }
    }

    /// From the cursor on, passes over every file that goes nowhere, and asks
    /// the first question about the first file that goes somewhere: in a dry
    /// run whether its place is taken, otherwise for its resolved path. After
    /// the last file, asks for the directory of the log.
    pub open spec fn scan(self, say: Seq<Seq<char>>) -> (MoveEngineView, TurnView)
        decreases self.files.len() - self.cursor,
    {
        if self.cursor >= self.files.len() {
            (
                MoveEngineView { stage: StageView::LogDir, ..self },
                TurnView {
                    say,
                    ask: RequestView::CreateDirAll { path: parent_of(self.log_path) },
                },
            )
        } else {
            let file = self.files[self.cursor as int];
            match placement_of(self.rules, file) {
                None => (MoveEngineView { cursor: self.cursor + 1, ..self }).scan(say),
                Some(place) => {
                    if self.dry_run {
                        (
                            MoveEngineView {
                                stage: StageView::Probing {
                                    source: file,
                                    dir: place.dir,
                                    name: place.name,
                                },
                                ..self
                            },
                            TurnView {
                                say,
                                ask: RequestView::Exists { path: joined(place.dir, place.name) },
                            },
                        )
                    } else {
                        (
                            MoveEngineView {
                                stage: StageView::Resolving { dir: place.dir, name: place.name },
                                ..self
                            },
                            TurnView { say, ask: RequestView::Canonicalize { path: file } },
                        )
                    }
                },
            }
        }
    }

    /// What the engine does on a reply to its last request: its next state,
    /// what it says and what it asks. The first step takes any reply.
    ///
    /// A run that is not dry first makes the category directories; one that
    /// cannot be made ends the run. A file is resolved, probed, renamed and
    /// located, in that order. A failure to resolve or rename is reported and
    /// ends the work on that file only. A dry run probes and reports, and
    /// goes no further. After the last file the log is written, and in a run
    /// that is not dry the directory of the removal category is removed; a
    /// failure there ends the run.
    pub open spec fn step(self, reply: ReplyView) -> (MoveEngineView, TurnView) {
        match self.stage {
            StageView::Starting => {
                if self.dry_run {
                    (MoveEngineView { stage: StageView::Scanning, ..self }).scan(Seq::empty())
                } else {
                    self.prepare(0, only_if(self.verbose, "Creating dirs..."@))
                }
            },
            StageView::Creating { next } => {
                if reply.succeeded {
                    self.prepare(next + 1, Seq::empty())
                } else {
                    self.abort(seq!["Failed to create output dirs"@], reply.detail)
                }
            },
            StageView::Scanning => self.scan(Seq::empty()),
            StageView::Resolving { dir, name } => {
                if reply.succeeded {
                    (
                        MoveEngineView {
                            stage: StageView::Probing { source: reply.detail, dir, name },
                            ..self
                        },
                        TurnView {
                            say: Seq::empty(),
                            ask: RequestView::Exists { path: joined(dir, name) },
                        },
                    )
                } else {
                    self.past_file().scan(
                        unless(
                            self.quiet,
                            move_failure_line(self.files[self.cursor as int], reply.detail),
                        ),
                    )
                }
            },
            StageView::Probing { source, dir, name } => {
                let dest = destination(dir, name, source, self.cursor, reply.succeeded);
                if self.dry_run {
                    self.past_file().scan(unless(self.quiet, mapping_line(source, dest)))
                } else {
                    (
                        MoveEngineView { stage: StageView::Renaming { source, dest }, ..self },
                        TurnView {
                            say: Seq::empty(),
                            ask: RequestView::Rename { from: source, to: dest },
                        },
                    )
                }
            },
            StageView::Renaming { source, dest } => {
                if reply.succeeded {
                    (
                        MoveEngineView { stage: StageView::Locating { source, dest }, ..self },
                        TurnView {
                            say: Seq::empty(),
                            ask: RequestView::Canonicalize { path: dest },
                        },
                    )
                } else {
                    self.past_file().scan(
                        unless(self.quiet, move_failure_line(source, reply.detail)),
                    )
                }
            },
            StageView::Locating { source, dest } => {
                let to = if reply.succeeded {
                    reply.detail
                } else {
                    dest
                };
                (MoveEngineView {
                    records: self.records.push(MoveView { from: source, to }),
                    ..self.past_file()
                }).scan(Seq::empty())
            },
            StageView::LogDir => {
                if reply.succeeded {
                    (
                        MoveEngineView {
                            stage: StageView::Logging,
                            records: Seq::empty(),
                            ..self
                        },
                        TurnView {
                            say: Seq::empty(),
                            ask: RequestView::WriteLog {
                                path: self.log_path,
                                records: self.records,
                            },
                        },
                    )
                } else {
                    self.abort(Seq::empty(), reply.detail)
                }
            },
            StageView::Logging => {
                if !reply.succeeded {
                    self.abort(Seq::empty(), reply.detail)
                } else if self.dry_run {
                    (
                        MoveEngineView { stage: StageView::Finished, ..self },
                        TurnView { say: Seq::empty(), ask: RequestView::Finish },
                    )
                } else {
                    (
                        MoveEngineView { stage: StageView::Pruning, ..self },
                        TurnView {
                            say: only_if(self.verbose, "Removing REMOVE dir..."@),
                            ask: RequestView::RemoveDirAll { path: self.removal_dir },
                        },
                    )
                }
            },
            StageView::Pruning => {
                if reply.succeeded {
                    (
                        MoveEngineView { stage: StageView::Finished, ..self },
                        TurnView {
                            say: only_if(self.verbose, "Done!"@),
                            ask: RequestView::Finish,
                        },
                    )
                } else {
                    self.abort(Seq::empty(), reply.detail)
                }
            },
            StageView::Finished => (
                self,
                TurnView { say: Seq::empty(), ask: RequestView::Finish },
            ),
        }
    }

    /// A bound on the requests that are still to come: it falls with every
    /// step that does not end the run.
    pub open spec fn effort(self) -> nat {
        let left: nat = if self.cursor < self.files.len() {
            (self.files.len() - self.cursor) as nat
        } else {
            0
        };
        match self.stage {
            StageView::Finished => 0,
            StageView::Pruning => 1,
            StageView::Logging => 2,
            StageView::LogDir => 3,
            StageView::Locating { .. } => 5 * left + 5,
            StageView::Renaming { .. } => 5 * left + 6,
            StageView::Probing { .. } => 5 * left + 7,
            StageView::Resolving { .. } => 5 * left + 8,
            StageView::Scanning => 5 * left + 9,
            StageView::Creating { next } => 5 * left + 10 + (if next < self.dirs.len() {
                (self.dirs.len() - next) as nat
            } else {
                0
            }),
            StageView::Starting => 5 * left + 11 + self.dirs.len(),
        }
    }

    /// What a scan from here comes to. It stops at the first file from the
    /// cursor on that goes somewhere and asks the first question about it;
    /// where there is no such file it stops at the end of the files and asks
    /// for the directory of the log. It passes over files that go nowhere
    /// only, says what it was given to say, and changes nothing but the
    /// cursor and the stage.
    pub open spec fn scan_stops(
        self,
        say: Seq<Seq<char>>,
        next: MoveEngineView,
        turn: TurnView,
    ) -> bool {
        &&& next == (MoveEngineView { cursor: next.cursor, stage: next.stage, ..self })
        &&& self.cursor <= next.cursor
        &&& turn.say == say
        &&& forall|k: int|
            self.cursor <= k < next.cursor && k < self.files.len() ==> placement_of(
                self.rules,
                #[trigger] self.files[k],
            ) is None
        &&& if next.cursor >= self.files.len() {
            &&& next.cursor == self.cursor || next.cursor == self.files.len()
            &&& next.stage is LogDir
            &&& turn.ask == (RequestView::CreateDirAll { path: parent_of(self.log_path) })
        } else {
            let file = self.files[next.cursor as int];
            placement_of(self.rules, file) matches Some(place) && (if self.dry_run {
                &&& next.stage == (StageView::Probing {
                    source: file,
                    dir: place.dir,
                    name: place.name,
                })
                &&& turn.ask == (RequestView::Exists { path: joined(place.dir, place.name) })
            } else {
                &&& next.stage == (StageView::Resolving { dir: place.dir, name: place.name })
                &&& turn.ask == (RequestView::Canonicalize { path: file })
            })
        }
    }

    /// A scan stops as `scan_stops` says.
    pub proof fn lemma_scan(self, say: Seq<Seq<char>>)
        ensures
            self.scan_stops(say, self.scan(say).0, self.scan(say).1),
        decreases self.files.len() - self.cursor,
    {
        if self.cursor < self.files.len() {
            if placement_of(self.rules, self.files[self.cursor as int]) is None {
                (MoveEngineView { cursor: self.cursor + 1, ..self }).lemma_scan(say);
            }
        }
    }

    /// Where a step goes on to scan, what it scans from and with which
    /// lines.
    pub open spec fn scanned(self, reply: ReplyView) -> Option<(MoveEngineView, Seq<Seq<char>>)> {
        let ready = MoveEngineView { stage: StageView::Scanning, ..self };
        match self.stage {
            StageView::Starting => if self.dry_run {
                Some((ready, Seq::empty()))
            } else if self.dirs.len() == 0 {
                Some(
                    (
                        ready,
                        only_if(self.verbose, "Creating dirs..."@) + only_if(
                            self.verbose,
                            "Done!"@,
                        ),
                    ),
                )
            } else {
                None
            },
            StageView::Creating { next } => if reply.succeeded && next + 1 >= self.dirs.len() {
                Some((ready, Seq::empty() + only_if(self.verbose, "Done!"@)))
            } else {
                None
            },
            StageView::Scanning => Some((self, Seq::empty())),
            StageView::Resolving { dir, name } => if reply.succeeded {
                None
            } else {
                Some(
                    (
                        self.past_file(),
                        unless(
                            self.quiet,
                            move_failure_line(self.files[self.cursor as int], reply.detail),
                        ),
                    ),
                )
            },
            StageView::Probing { source, dir, name } => if self.dry_run {
                Some(
                    (
                        self.past_file(),
                        unless(
                            self.quiet,
                            mapping_line(
                                source,
                                destination(dir, name, source, self.cursor, reply.succeeded),
                            ),
                        ),
                    ),
                )
            } else {
                None
            },
            StageView::Renaming { source, dest } => if reply.succeeded {
                None
            } else {
                Some(
                    (self.past_file(), unless(self.quiet, move_failure_line(source, reply.detail))),
                )
            },
            StageView::Locating { source, dest } => Some(
                (
                    MoveEngineView {
                        records: self.records.push(
                            MoveView {
                                from: source,
                                to: if reply.succeeded {
                                    reply.detail
                                } else {
                                    dest
                                },
                            },
                        ),
                        ..self.past_file()
                    },
                    Seq::empty(),
                ),
            ),
            _ => None,
        }
    }

    /// A step that goes on to scan comes to what the scan comes to.
    pub proof fn lemma_step_scans(self, reply: ReplyView)
        ensures
            self.scanned(reply) matches Some((from, say)) ==> {
                &&& self.step(reply) == from.scan(say)
                &&& from.scan_stops(say, self.step(reply).0, self.step(reply).1)
            },
    {
        if let Some((from, say)) = self.scanned(reply) {
            from.lemma_scan(say);
        }
    }

    /// Every step that does not end the run lowers the effort, and keeps the
    /// engine well formed and its settings as they are.
    pub proof fn lemma_step(self, reply: ReplyView)
        ensures
            ({
                let (next, turn) = self.step(reply);
                &&& !turn.ask.is_last() ==> next.effort() < self.effort()
                &&& turn.ask.is_last() <==> next.stage is Finished
                &&& self.well_formed() ==> next.well_formed()
                &&& next.files == self.files
                &&& next.rules == self.rules
                &&& next.dirs == self.dirs
                &&& next.dry_run == self.dry_run
                &&& next.quiet == self.quiet
                &&& next.verbose == self.verbose
                &&& next.log_path == self.log_path
                &&& next.removal_dir == self.removal_dir
            }),
    {
        self.lemma_step_scans(reply);
    }
}

fn move_failure_text(file: &str, error: &str) -> (line: String)
    ensures
        line@ == move_failure_line(file@, error@),
{
    let mut line = "Failed to move file ".to_owned();
    line.append(file);
    line.append(" with error ");
    line.append(error);
    line
}

fn lines_if(verbose: bool, line: &str) -> (say: Vec<String>)
    ensures
        say.deep_view() == only_if(verbose, line@),
{
    let mut say: Vec<String> = Vec::new();
    if verbose {
        say.push(line.to_owned());
    }
    assert(say.deep_view() =~= only_if(verbose, line@));
    say
}

fn and_if(say: Vec<String>, verbose: bool, line: &str) -> (more: Vec<String>)
    ensures
        more.deep_view() == say.deep_view() + only_if(verbose, line@),
{
    let mut more = say;
    if verbose {
        more.push(line.to_owned());
    }
    assert(more.deep_view() =~= say.deep_view() + only_if(verbose, line@));
    more
}

fn one_line(line: &str) -> (say: Vec<String>)
    ensures
        say.deep_view() == seq![line@],
{
    let mut say: Vec<String> = Vec::new();
    say.push(line.to_owned());
    assert(say.deep_view() =~= seq![line@]);
    say
}

fn no_records() -> (records: Vec<Move>)
    ensures
        records.deep_view() == Seq::<MoveView>::empty(),
{
    let records: Vec<Move> = Vec::new();
    assert(records.deep_view() =~= Seq::<MoveView>::empty());
    records
}

/// The path for the file at `index`; see `destination`.
pub fn settle(dir: &str, name: &str, source: &str, index: usize, taken: bool) -> (dest: String)
    ensures
        dest@ == destination(dir@, name@, source@, index as nat, taken),
{
    if taken {
        let renamed = match base_name(source) {
            Some(base) => copy_name(base.as_str(), index),
            None => copy_name(name, index),
        };
        join(dir, renamed.as_str())
    } else {
        join(dir, name)
    }
}

/// Starts a run over `files`, in their order, under `rules`.
pub fn move_files(files: Vec<String>, rules: CompiledRules, options: &Options) -> (engine:
    MoveEngine)
    ensures
        engine@ == initial(
            files.deep_view(),
            rules@,
            options.dry_run,
            options.quiet,
            options.verbose,
            options.log_path@,
            options.output@,
        ),
        engine@.well_formed(),
{
    MoveEngine {
        files,
        rules,
        dirs: create_dirs(options),
        dry_run: options.dry_run,
        quiet: options.quiet,
        verbose: options.verbose,
        log_path: options.log_path.clone(),
        removal_dir: join(options.output.as_str(), "REMOVE"),
        cursor: 0,
        stage: Stage::Starting,
        records: no_records(),
    }
}

impl MoveEngine {
    #[verifier::type_invariant]
    spec fn inv(self) -> bool {
        self@.well_formed()
    }

    /// The number of files the engine is done with.
    pub fn considered(&self) -> (n: usize)
        ensures
            n == self@.cursor,
            self@.well_formed(),
    {
        proof {
            use_type_invariant(self);
        }
        self.cursor
    }

    /// Whether the run is over.
    pub fn is_finished(&self) -> (over: bool)
        ensures
            over == (self@.stage is Finished),
    {
        match self.stage {
            Stage::Finished => true,
            _ => false,
        }
    }

    fn enter(self, stage: Stage) -> (next: MoveEngine)
        requires
            stage@.holds_file() ==> self@.cursor < self@.files.len(),
            stage@ matches StageView::Creating { next } ==> next < self@.dirs.len(),
        ensures
            next@ == (MoveEngineView { stage: stage@, ..self@ }),
    {
        proof {
            use_type_invariant(&self);
        }
        let mut next = self;
        next.stage = stage;
        next
    }

    fn abort(self, say: Vec<String>, reason: String) -> (next: (MoveEngine, Turn))
        ensures
            (next.0@, next.1@) == self@.abort(say.deep_view(), reason@),
    {
        (self.enter(Stage::Finished), Turn { say, ask: Request::Abort { reason } })
    }

    fn past_file(self) -> (next: MoveEngine)
        requires
            self@.cursor < self@.files.len(),
        ensures
            next@ == self@.past_file(),
    {
        proof {
            use_type_invariant(&self);
        }
        assert(self.files.deep_view().len() == self.files.len());
        let mut next = self;
        next.stage = Stage::Scanning;
        next.cursor = next.cursor + 1;
        next
    }

    fn record(self, record: Move) -> (next: MoveEngine)
        ensures
            next@ == (MoveEngineView { records: self@.records.push(record@), ..self@ }),
    {
        proof {
            use_type_invariant(&self);
        }
        let MoveEngine {
            files,
            rules,
            dirs,
            dry_run,
            quiet,
            verbose,
            log_path,
            removal_dir,
            cursor,
            stage,
            records,
        } = self;
        let mut records = records;
        let ghost before = records.deep_view();
        records.push(record);
        assert(records.deep_view() =~= before.push(record@));
        MoveEngine {
            files,
            rules,
            dirs,
            dry_run,
            quiet,
            verbose,
            log_path,
            removal_dir,
            cursor,
            stage,
            records,
        }
    }

    fn prepare(self, next: usize, say: Vec<String>) -> (turn: (MoveEngine, Turn))
        ensures
            (turn.0@, turn.1@) == self@.prepare(next as nat, say.deep_view()),
    {
        proof {
            use_type_invariant(&self);
        }
        assert(self.dirs.deep_view().len() == self.dirs.len());
        if next < self.dirs.len() {
            assert(self.dirs.deep_view()[next as int] == self.dirs[next as int]@);
            let path = self.dirs[next].clone();
            (self.enter(Stage::Creating { next }), Turn { say, ask: Request::CreateDirAll { path } })
        } else {
            let say = and_if(say, self.verbose, "Done!");
            self.enter(Stage::Scanning).scan(say)
        }
    }

    fn scan(self, say: Vec<String>) -> (next: (MoveEngine, Turn))
        requires
            self@.stage is Scanning,
        ensures
            (next.0@, next.1@) == self@.scan(say.deep_view()),
    {
        proof {
            use_type_invariant(&self);
        }
        let ghost start = self@;
        let mut engine = self;
        assert(engine.files.deep_view().len() == engine.files.len());
        while engine.cursor < engine.files.len()
            invariant
                engine.cursor <= engine.files.len(),
                engine@ == (MoveEngineView { cursor: engine.cursor as nat, ..start }),
                engine@.scan(say.deep_view()) == start.scan(say.deep_view()),
                start.stage is Scanning,
                start == self@,
            decreases engine.files.len() - engine.cursor,
        {
            let at: usize = engine.cursor;
            assert(engine@.files[at as int] == engine.files[at as int]@);
            match engine.rules.placement(engine.files[at].as_str()) {
                None => {
                    engine.cursor = at + 1;
                },
                Some(place) => {
                    let Placement { dir, name } = place;
                    if engine.dry_run {
                        let path = join(dir.as_str(), name.as_str());
                        let source = engine.files[at].clone();
                        let next = engine.enter(Stage::Probing { source, dir, name });
                        return (next, Turn { say, ask: Request::Exists { path } });
                    } else {
                        let path = engine.files[at].clone();
                        let next = engine.enter(Stage::Resolving { dir, name });
                        return (next, Turn { say, ask: Request::Canonicalize { path } });
                    }
                },
            }
        }
        let path = parent(engine.log_path.as_str());
        (engine.enter(Stage::LogDir), Turn { say, ask: Request::CreateDirAll { path } })
    }

    fn hand_over_log(self) -> (next: (MoveEngine, Turn))
        ensures
            next.0@ == (MoveEngineView {
                stage: StageView::Logging,
                records: Seq::empty(),
                ..self@
            }),
            next.1@ == (TurnView {
                say: Seq::empty(),
                ask: RequestView::WriteLog { path: self@.log_path, records: self@.records },
            }),
    {
        proof {
            use_type_invariant(&self);
        }
        let MoveEngine {
            files,
            rules,
            dirs,
            dry_run,
            quiet,
            verbose,
            log_path,
            removal_dir,
            cursor,
            stage,
            records,
        } = self;
        let path = log_path.clone();
        (
            MoveEngine {
                files,
                rules,
                dirs,
                dry_run,
                quiet,
                verbose,
                log_path,
                removal_dir,
                cursor,
                stage: Stage::Logging,
                records: no_records(),
            },
            Turn { say: no_lines(), ask: Request::WriteLog { path, records } },
        )
    }

    /// Takes the reply to the request of the turn before and gives the next
    /// turn. The first call takes any reply.
    pub fn advance(self, reply: Reply) -> (next: (MoveEngine, Turn))
        ensures
            (next.0@, next.1@) == self@.step(reply@),
            next.0@.well_formed(),
    {
        let next = self.advance_inner(reply);
        proof {
            use_type_invariant(&next.0);
        }
        next
    }

    fn advance_inner(self, reply: Reply) -> (next: (MoveEngine, Turn))
        ensures
            (next.0@, next.1@) == self@.step(reply@),
    {
        proof {
            use_type_invariant(&self);
        }
        let Reply { succeeded, detail } = reply;
        assert(self.dirs.deep_view().len() == self.dirs.len());
        match &self.stage {
            Stage::Starting => {
                if self.dry_run {
                    self.enter(Stage::Scanning).scan(no_lines())
                } else {
                    let say = lines_if(self.verbose, "Creating dirs...");
                    self.prepare(0, say)
                }
            },
            Stage::Creating { next } => {
                if succeeded {
                    let next: usize = *next + 1;
                    self.prepare(next, no_lines())
                } else {
                    self.abort(one_line("Failed to create output dirs"), detail)
                }
            },
            Stage::Scanning => self.scan(no_lines()),
            Stage::Resolving { dir, name } => {
                if succeeded {
                    let path = join(dir.as_str(), name.as_str());
                    let stage = Stage::Probing {
                        source: detail,
                        dir: dir.clone(),
                        name: name.clone(),
                    };
                    (self.enter(stage), Turn { say: no_lines(), ask: Request::Exists { path } })
                } else {
                    let line = move_failure_text(self.files[self.cursor].as_str(), detail.as_str());
                    let say = lines_unless(self.quiet, line);
                    self.past_file().scan(say)
                }
            },
            Stage::Probing { source, dir, name } => {
                let dest = settle(
                    dir.as_str(),
                    name.as_str(),
                    source.as_str(),
                    self.cursor,
                    succeeded,
                );
                if self.dry_run {
                    let line = mapping_text(source.as_str(), dest.as_str());
                    let say = lines_unless(self.quiet, line);
                    self.past_file().scan(say)
                } else {
                    let from = source.clone();
                    let to = dest.clone();
                    let stage = Stage::Renaming { source: source.clone(), dest };
                    (self.enter(stage), Turn { say: no_lines(), ask: Request::Rename { from, to } })
                }
            },
            Stage::Renaming { source, dest } => {
                if succeeded {
                    let path = dest.clone();
                    let stage = Stage::Locating { source: source.clone(), dest: dest.clone() };
                    (
                        self.enter(stage),
                        Turn { say: no_lines(), ask: Request::Canonicalize { path } },
                    )
                } else {
                    let line = move_failure_text(source.as_str(), detail.as_str());
                    let say = lines_unless(self.quiet, line);
                    self.past_file().scan(say)
                }
            },
            Stage::Locating { source, dest } => {
                let to = if succeeded {
                    detail
                } else {
                    dest.clone()
                };
                let record = Move::new(source.clone(), to);
                self.past_file().record(record).scan(no_lines())
            },
            Stage::LogDir => {
                if succeeded {
                    self.hand_over_log()
                } else {
                    self.abort(no_lines(), detail)
                }
            },
            Stage::Logging => {
                if !succeeded {
                    self.abort(no_lines(), detail)
                } else if self.dry_run {
                    (self.enter(Stage::Finished), Turn { say: no_lines(), ask: Request::Finish })
                } else {
                    let say = lines_if(self.verbose, "Removing REMOVE dir...");
                    let path = self.removal_dir.clone();
                    (self.enter(Stage::Pruning), Turn { say, ask: Request::RemoveDirAll { path } })
                }
            },
            Stage::Pruning => {
                if succeeded {
                    let say = lines_if(self.verbose, "Done!");
                    (self.enter(Stage::Finished), Turn { say, ask: Request::Finish })
                } else {
                    self.abort(no_lines(), detail)
                }
            },
            Stage::Finished => (self, Turn { say: no_lines(), ask: Request::Finish }),
        }
    }
}

} // verus!
