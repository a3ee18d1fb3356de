//! What holds of every run, whatever the files, the rules and the driver.

use vstd::prelude::*;
use crate::mover::{destination, initial, MoveEngineView, StageView};
use crate::paths::{base_of, lemma_base_of, lemma_joined_entry, parent_of};
use crate::protocol::{unless, ReplyView, RequestView};
use crate::record::MoveView;
use crate::rules::{lemma_winner, placement_of, rule_accepts, wins, PlacementView, RuleView};
use crate::undoer::{undo_failure_line, UndoEngineView, UndoStage};

verus! {

/// First match wins. A file whose name more than one rule accepts goes to
/// the directory of the earliest of them, however many later rules accept
/// the name too, and whatever rules stand after that one.
pub proof fn first_match_wins(
    rules: Seq<RuleView>,
    later: Seq<RuleView>,
    file: Seq<char>,
    first: int,
)
    requires
        base_of(file) is Some,
        0 <= first < rules.len(),
        rule_accepts(rules[first].pattern, base_of(file)->0),
        forall|j: int| 0 <= j < first ==> !rule_accepts(rules[j].pattern, base_of(file)->0),
    ensures
        placement_of(rules, file) == Some(
            PlacementView { dir: rules[first].dir, name: base_of(file)->0 },
        ),
        placement_of(rules.take(first + 1) + later, file) == placement_of(rules, file),
{
    let name = base_of(file)->0;
    let other = rules.take(first + 1) + later;
    assert(wins(rules, name, first));
    lemma_winner(rules, name);
    assert(other[first] == rules[first]);
    assert forall|j: int| 0 <= j < first implies !rule_accepts(
        (#[trigger] other[j]).pattern,
        name,
    ) by {
        assert(other[j] == rules[j]);
    }
    assert(wins(other, name, first));
    lemma_winner(other, name);
}

/// A file that no rule accepts goes nowhere.
pub proof fn no_match_no_placement(rules: Seq<RuleView>, file: Seq<char>)
    requires
        base_of(file) matches Some(name) ==> forall|j: int|
            0 <= j < rules.len() ==> !rule_accepts(rules[j].pattern, name),
    ensures
        placement_of(rules, file) is None,
{
    if base_of(file) is Some {
        lemma_winner(rules, base_of(file)->0);
    }
}

/// No match is a skip. The engine passes over a file that goes nowhere:
/// nothing is asked, said or recorded on its account, and the run goes on as
/// if the cursor had stood behind the file.
pub proof fn unmatched_file_is_skipped(engine: MoveEngineView, reply: ReplyView)
    requires
        engine.stage is Scanning,
        engine.cursor < engine.files.len(),
        placement_of(engine.rules, engine.files[engine.cursor as int]) is None,
    ensures
        engine.step(reply) == (MoveEngineView { cursor: engine.cursor + 1, ..engine }).step(reply),
{
}

/// A record is made of a file that was renamed, and of no other: the
/// records grow by one on the reply that ends the work on a renamed file,
/// are handed over whole when the log is to be written, and do not change
/// otherwise.
pub proof fn records_follow_moves(engine: MoveEngineView, reply: ReplyView)
    ensures
        ({
            let (next, turn) = engine.step(reply);
            match engine.stage {
                StageView::Locating { source, dest } => next.records == engine.records.push(
                    MoveView {
                        from: source,
                        to: if reply.succeeded {
                            reply.detail
                        } else {
                            dest
                        },
                    },
                ),
                StageView::LogDir => if reply.succeeded {
                    &&& next.records == Seq::<MoveView>::empty()
                    &&& turn.ask == (RequestView::WriteLog {
                        path: engine.log_path,
                        records: engine.records,
                    })
                } else {
                    next.records == engine.records
                },
                _ => next.records == engine.records,
            }
        }),
{
    engine.lemma_step_scans(reply);
}

/// Names come out the same. The destination of a file is settled by the
/// directory of its rule, its name, its position among the files and
/// whether its plain destination is taken. Two runs that stand at the same
/// file in the same position and get the same answer ask for the same
/// renaming, whatever else differs between them.
pub proof fn names_are_positional(
    one: MoveEngineView,
    other: MoveEngineView,
    reply: ReplyView,
    other_reply: ReplyView,
)
    requires
        one.stage is Probing,
        other.stage == one.stage,
        other.cursor == one.cursor,
        !one.dry_run,
        !other.dry_run,
        reply.succeeded == other_reply.succeeded,
    ensures
        one.step(reply).1.ask == other.step(other_reply).1.ask,
        one.step(reply).1.ask == (RequestView::Rename {
            from: one.stage->Probing_source,
            to: destination(
                one.stage->Probing_dir,
                one.stage->Probing_name,
                one.stage->Probing_source,
                one.cursor,
                reply.succeeded,
            ),
        }),
{
}

/// A file keeps its name. Where its plain destination is free, a file is
/// moved to a path with the base name it had.
pub proof fn moved_file_keeps_its_name(
    rules: Seq<RuleView>,
    file: Seq<char>,
    source: Seq<char>,
    index: nat,
)
    requires
        placement_of(rules, file) is Some,
    ensures
        ({
            let place = placement_of(rules, file)->0;
            base_of(destination(place.dir, place.name, source, index, false)) == base_of(file)
        }),
{
    lemma_base_of(file);
    let place = placement_of(rules, file)->0;
    lemma_joined_entry(place.dir, place.name);
}

/// In a dry run the same holds of the line that shows where a file would
/// go.
pub proof fn shown_names_are_positional(
    one: MoveEngineView,
    other: MoveEngineView,
    reply: ReplyView,
    other_reply: ReplyView,
)
    requires
        one.stage is Probing,
        other.stage == one.stage,
        other.cursor == one.cursor,
        one.dry_run,
        other.dry_run,
        one.quiet == other.quiet,
        reply.succeeded == other_reply.succeeded,
    ensures
        one.step(reply).1.say == other.step(other_reply).1.say,
{
    let source = one.stage->Probing_source;
    let dest = destination(
        one.stage->Probing_dir,
        one.stage->Probing_name,
        source,
        one.cursor,
        reply.succeeded,
    );
    let line = unless(one.quiet, crate::protocol::mapping_line(source, dest));
    one.past_file().lemma_scan(line);
    other.past_file().lemma_scan(line);
}

/// The state of a dry run: it never comes to rename a file, and it has made
/// no record.
pub open spec fn dry(engine: MoveEngineView) -> bool {
    &&& engine.dry_run
    &&& !(engine.stage is Creating)
    &&& !(engine.stage is Resolving)
    &&& !(engine.stage is Renaming)
    &&& !(engine.stage is Locating)
    &&& !(engine.stage is Pruning)
    &&& engine.records.len() == 0
}

/// A request of a dry run: it changes no file. The one thing written is the
/// log, which holds no record.
pub open spec fn harmless(engine: MoveEngineView, ask: RequestView) -> bool {
    ask.changes_files() ==> {
        ||| ask == (RequestView::CreateDirAll { path: parent_of(engine.log_path) })
        ||| ask == (RequestView::WriteLog {
            path: engine.log_path,
            records: Seq::<MoveView>::empty(),
        })
    }
}

/// A dry run moves nothing. From its start on, and whatever the driver
/// replies, a dry run asks for no renaming, no removal and no directory but
/// that of the log.
pub proof fn dry_run_is_harmless(engine: MoveEngineView, reply: ReplyView)
    requires
        dry(engine),
    ensures
        dry(engine.step(reply).0),
        harmless(engine, engine.step(reply).1.ask),
{
    engine.lemma_step_scans(reply);
    assert(engine.records =~= Seq::<MoveView>::empty());
}

/// A dry run starts in the state of a dry run.
pub proof fn dry_run_starts_dry(
    files: Seq<Seq<char>>,
    rules: Seq<RuleView>,
    quiet: bool,
    verbose: bool,
    log_path: Seq<char>,
    output: Seq<char>,
)
    ensures
        dry(initial(files, rules, true, quiet, verbose, log_path, output)),
{
}

/// The directory that a run removes at its end is the directory of the
/// last of the categories.
pub proof fn removal_category_is_a_category(
    files: Seq<Seq<char>>,
    rules: Seq<RuleView>,
    dry_run: bool,
    quiet: bool,
    verbose: bool,
    log_path: Seq<char>,
    output: Seq<char>,
)
    ensures
        ({
            let engine = initial(files, rules, dry_run, quiet, verbose, log_path, output);
            &&& engine.dirs.len() == 13
            &&& engine.removal_dir == engine.dirs.last()
        }),
{
}

/// The removal category is deleted last. In a run that is not dry, once the
/// log is written the engine asks for the removal of the category's
/// directory, and after that for nothing more.
pub proof fn removal_ends_the_run(engine: MoveEngineView, reply: ReplyView, last: ReplyView)
    requires
        engine.stage is Logging,
        !engine.dry_run,
        reply.succeeded,
    ensures
        engine.step(reply).1.ask == (RequestView::RemoveDirAll { path: engine.removal_dir }),
        engine.step(reply).0.step(last).1.ask.is_last(),
{
}

/// A file that cannot be moved back does not stop the undo: the failure is
/// reported, unless the run is quiet, and the engine turns to the next
/// record.
pub proof fn failed_reversal_is_skipped(engine: UndoEngineView, reply: ReplyView)
    requires
        engine.stage is Reverting,
        engine.cursor < engine.records.len(),
        !reply.succeeded,
    ensures
        ({
            let (next, turn) = engine.step(reply);
            let record = engine.records[engine.cursor as int];
            &&& !(turn.ask is Abort)
            &&& turn.say == unless(
                engine.quiet,
                undo_failure_line(record.to, record.from, reply.detail),
            )
            &&& next.cursor == engine.cursor + 1
            &&& next.records == engine.records
            &&& if next.cursor < engine.records.len() {
                next.stage is Preparing
            } else {
                next.stage is Finished && turn.ask is Finish
            }
        }),
{
}

/// A dry undo moves nothing back. From its start on, and whatever the
/// driver replies, it asks for no renaming: it makes sure of the directory
/// that each file came from, and shows the way back.
pub proof fn dry_undo_renames_nothing(engine: UndoEngineView, reply: ReplyView)
    requires
        engine.dry_run,
        !(engine.stage is Reverting),
    ensures
        ({
            let (next, turn) = engine.step(reply);
            &&& next.dry_run
            &&& !(next.stage is Reverting)
            &&& !(turn.ask is Rename)
            &&& !(turn.ask is RemoveDirAll)
            &&& !(turn.ask is WriteLog)
        }),
{
}

/// Records are reversed in the order in which they were made: the record at
/// the cursor is renamed from where the file went to where it was.
pub proof fn reversal_is_in_order(engine: UndoEngineView, reply: ReplyView)
    requires
        engine.stage is Preparing,
        engine.cursor < engine.records.len(),
        !engine.dry_run,
        reply.succeeded,
    ensures
        engine.step(reply).1.ask == (RequestView::Rename {
            from: engine.records[engine.cursor as int].to,
            to: engine.records[engine.cursor as int].from,
        }),
        engine.step(reply).0.cursor == engine.cursor,
{
}

} // verus!
