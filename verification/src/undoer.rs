//! The undo engine: every recorded move reversed, oldest first.

use vstd::prelude::*;
use crate::options::Options;
use crate::paths::{parent, parent_of};
use crate::protocol::{
    lines_unless, mapping_line, mapping_text, no_lines, unless, Reply, ReplyView, Request,
    RequestView, Turn, TurnView,
};
use crate::record::{Move, MoveView};

verus! {

/// How far the engine is with the record at its cursor.
#[derive(PartialEq, Eq, Structural, Clone, Copy, Debug)]
pub enum UndoStage {
    /// Nothing is pending.
    Idle,
    /// Asked to create the directory that the file goes back to.
    Preparing,
    /// Asked to rename the file back.
    Reverting,
    /// The run is over.
    Finished,
}

/// A run of the undo engine.
pub struct UndoEngine {
    records: Vec<Move>,
    dry_run: bool,
    quiet: bool,
    cursor: usize,
    stage: UndoStage,
}

/// A run of the undo engine as plain values.
pub struct UndoEngineView {
    /// The moves to reverse, in the order in which they were made.
    pub records: Seq<MoveView>,
    pub dry_run: bool,
    pub quiet: bool,
    /// Position of the record being reversed.
    pub cursor: nat,
    pub stage: UndoStage,
}

impl View for UndoEngine {
    type V = UndoEngineView;

    closed spec fn view(&self) -> UndoEngineView {
        UndoEngineView {
            records: self.records.deep_view(),
            dry_run: self.dry_run,
            quiet: self.quiet,
            cursor: self.cursor as nat,
            stage: self.stage,
        }
    }
}

/// The line that reports a file that could not be moved back.
pub open spec fn undo_failure_line(to: Seq<char>, from: Seq<char>, error: Seq<char>) -> Seq<
    char,
> {
    "Failed to move "@ + to + " back to "@ + from + " with error '"@ + error + "' (skipped it)"@
}

/// The undo engine as it starts.
pub open spec fn undo_initial(records: Seq<MoveView>, dry_run: bool, quiet: bool) -> UndoEngineView {
    UndoEngineView { records, dry_run, quiet, cursor: 0, stage: UndoStage::Idle }
}

impl UndoEngineView {
    /// The cursor is within the records, and on a record while one is in
    /// work.
    pub open spec fn well_formed(self) -> bool {
        &&& self.cursor <= self.records.len()
        &&& (self.stage is Preparing || self.stage is Reverting) ==> self.cursor
            < self.records.len()
    }

    /// Done with the record at the cursor.
    pub open spec fn past_record(self) -> UndoEngineView {
        UndoEngineView { cursor: self.cursor + 1, stage: UndoStage::Idle, ..self }
    }

    /// Turns to the record at the cursor: asks for the directory that its
    /// file goes back to. After the last record the run is over.
    pub open spec fn turn_to(self, say: Seq<Seq<char>>) -> (UndoEngineView, TurnView) {
        if self.cursor < self.records.len() {
            (
                UndoEngineView { stage: UndoStage::Preparing, ..self },
                TurnView {
                    say,
                    ask: RequestView::CreateDirAll {
                        path: parent_of(self.records[self.cursor as int].from),
                    },
                },
            )
        } else {
            (
                UndoEngineView { stage: UndoStage::Finished, ..self },
                TurnView { say, ask: RequestView::Finish },
            )
        }
    }

    /// What the engine does on a reply to its last request. The first step
    /// takes any reply.
    ///
    /// For each record, oldest first, the directory that the file came from
    /// is made sure of, and the file is renamed from where it went to where
    /// it was. A dry run shows the renaming and does not ask for it. A renaming
    /// that fails is reported and the next record is turned to; a directory
    /// that cannot be made ends the run.
    pub open spec fn step(self, reply: ReplyView) -> (UndoEngineView, TurnView) {
        match self.stage {
            UndoStage::Idle => self.turn_to(Seq::empty()),
            UndoStage::Preparing => {
                let record = self.records[self.cursor as int];
                if !reply.succeeded {
                    (
                        UndoEngineView { stage: UndoStage::Finished, ..self },
                        TurnView {
                            say: Seq::empty(),
                            ask: RequestView::Abort { reason: reply.detail },
                        },
                    )
                } else if self.dry_run {
                    self.past_record().turn_to(
                        unless(self.quiet, mapping_line(record.to, record.from)),
                    )
                } else {
                    (
                        UndoEngineView { stage: UndoStage::Reverting, ..self },
                        TurnView {
                            say: Seq::empty(),
                            ask: RequestView::Rename { from: record.to, to: record.from },
                        },
                    )
                }
            },
            UndoStage::Reverting => {
                let record = self.records[self.cursor as int];
                if reply.succeeded {
                    self.past_record().turn_to(Seq::empty())
                } else {
                    self.past_record().turn_to(
                        unless(
                            self.quiet,
                            undo_failure_line(record.to, record.from, reply.detail),
                        ),
                    )
                }
            },
            UndoStage::Finished => (
                self,
                TurnView { say: Seq::empty(), ask: RequestView::Finish },
            ),
        }
    }
}

impl UndoEngineView {
    /// A bound on the requests that are still to come: it falls with every
    /// step that does not end the run.
    pub open spec fn effort(self) -> nat {
        let left: nat = if self.cursor < self.records.len() {
            (self.records.len() - self.cursor) as nat
        } else {
            0
        };
        match self.stage {
            UndoStage::Finished => 0,
            UndoStage::Reverting => 3 * left + 1,
            UndoStage::Preparing => 3 * left + 2,
            UndoStage::Idle => 3 * left + 3,
        }
    }

    /// Every step that does not end the run lowers the effort, and keeps the
    /// engine well formed.
    pub proof fn lemma_step(self, reply: ReplyView)
        ensures
            ({
                let (next, turn) = self.step(reply);
                &&& !turn.ask.is_last() ==> next.effort() < self.effort()
                &&& turn.ask.is_last() ==> next.stage is Finished
                &&& self.well_formed() ==> next.well_formed()
                &&& next.records == self.records
                &&& next.dry_run == self.dry_run
                &&& next.quiet == self.quiet
            }),
    {
    }
}

fn undo_failure_text(to: &str, from: &str, error: &str) -> (line: String)
    ensures
        line@ == undo_failure_line(to@, from@, error@),
{
    let mut line = "Failed to move ".to_owned();
    line.append(to);
    line.append(" back to ");
    line.append(from);
    line.append(" with error '");
    line.append(error);
    line.append("' (skipped it)");
    line
}

/// Starts the reversal of `records`, which are taken in their order.
pub fn undo(options: &Options, records: Vec<Move>) -> (engine: UndoEngine)
    ensures
        engine@ == undo_initial(records.deep_view(), options.dry_run, options.quiet),
        engine@.well_formed(),
{
    UndoEngine {
        records,
        dry_run: options.dry_run,
        quiet: options.quiet,
        cursor: 0,
        stage: UndoStage::Idle,
    }
}

impl UndoEngine {
    #[verifier::type_invariant]
    spec fn inv(self) -> bool {
        self@.well_formed()
    }

    /// The number of records the engine is done with.
    pub fn considered(&self) -> (n: usize)
        ensures
            n == self@.cursor,
            self@.well_formed(),
    {
        proof {
            use_type_invariant(self);
        }
        self.cursor
    }

    /// Whether the run is over.
    pub fn is_finished(&self) -> (over: bool)
        ensures
            over == (self@.stage is Finished),
    {
        match self.stage {
            UndoStage::Finished => true,
            _ => false,
        }
    }

    fn turn_to(self, say: Vec<String>) -> (next: (UndoEngine, Turn))
        requires
            self@.stage is Idle,
        ensures
            (next.0@, next.1@) == self@.turn_to(say.deep_view()),
    {
        proof {
            use_type_invariant(&self);
        }
        let UndoEngine { records, dry_run, quiet, cursor, stage } = self;
        assert(records.deep_view().len() == records.len());
        if cursor < records.len() {
            assert(records.deep_view()[cursor as int] == records[cursor as int]@);
            let path = parent(records[cursor].from.as_str());
            (
                UndoEngine { records, dry_run, quiet, cursor, stage: UndoStage::Preparing },
                Turn { say, ask: Request::CreateDirAll { path } },
            )
        } else {
            (
                UndoEngine { records, dry_run, quiet, cursor, stage: UndoStage::Finished },
                Turn { say, ask: Request::Finish },
            )
        }
    }

    fn past_record(self) -> (next: UndoEngine)
        requires
            self@.cursor < self@.records.len(),
        ensures
            next@ == self@.past_record(),
    {
        let UndoEngine { records, dry_run, quiet, cursor, stage } = self;
        assert(records.deep_view().len() == records.len());
        UndoEngine { records, dry_run, quiet, cursor: cursor + 1, stage: UndoStage::Idle }
    }

    fn enter(self, stage: UndoStage) -> (next: UndoEngine)
        requires
            (stage is Preparing || stage is Reverting) ==> self@.cursor < self@.records.len(),
        ensures
            next@ == (UndoEngineView { stage, ..self@ }),
    {
        proof {
            use_type_invariant(&self);
        }
        let UndoEngine { records, dry_run, quiet, cursor, stage: _ } = self;
        UndoEngine { records, dry_run, quiet, cursor, stage }
    }

    /// Takes the reply to the request of the turn before and gives the next
    /// turn. The first call takes any reply.
    pub fn advance(self, reply: Reply) -> (next: (UndoEngine, Turn))
        ensures
            (next.0@, next.1@) == self@.step(reply@),
            next.0@.well_formed(),
    {
        let next = self.advance_inner(reply);
        proof {
            use_type_invariant(&next.0);
        }
        next
    }

    fn advance_inner(self, reply: Reply) -> (next: (UndoEngine, Turn))
        ensures
            (next.0@, next.1@) == self@.step(reply@),
    {
        proof {
            use_type_invariant(&self);
        }
        let Reply { succeeded, detail } = reply;
        assert(self.records.deep_view().len() == self.records.len());
        match self.stage {
            UndoStage::Idle => self.turn_to(no_lines()),
            UndoStage::Preparing => {
                assert(self.records.deep_view()[self.cursor as int] == self.records[self.cursor as int]@);
                if !succeeded {
                    (
                        self.enter(UndoStage::Finished),
                        Turn { say: no_lines(), ask: Request::Abort { reason: detail } },
                    )
                } else if self.dry_run {
                    let record = &self.records[self.cursor];
                    let line = mapping_text(record.to.as_str(), record.from.as_str());
                    let say = lines_unless(self.quiet, line);
                    self.past_record().turn_to(say)
                } else {
                    let record = &self.records[self.cursor];
                    let from = record.to.clone();
                    let to = record.from.clone();
                    (
                        self.enter(UndoStage::Reverting),
                        Turn { say: no_lines(), ask: Request::Rename { from, to } },
                    )
                }
            },
            UndoStage::Reverting => {
                assert(self.records.deep_view()[self.cursor as int] == self.records[self.cursor as int]@);
                if succeeded {
                    self.past_record().turn_to(no_lines())
                } else {
                    let record = &self.records[self.cursor];
                    let line = undo_failure_text(
                        record.to.as_str(),
                        record.from.as_str(),
                        detail.as_str(),
                    );
                    let say = lines_unless(self.quiet, line);
                    self.past_record().turn_to(say)
                }
            },
            UndoStage::Finished => (self, Turn { say: no_lines(), ask: Request::Finish }),
        }
    }
}

} // verus!
