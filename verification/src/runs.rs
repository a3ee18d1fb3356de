//! What whole runs do to the files of the model.

use vstd::prelude::*;
use crate::laws::{dry, dry_run_is_harmless, harmless};
use crate::model::{after_moves, inside, move_run, perform, pruned, renamed, undo_run, Outcome, World};
use crate::mover::{destination, MoveEngineView, StageView};
use crate::naming::copy_name_of;
use crate::paths::{base_of, is_entry_name, joined, lemma_base_of};
use crate::protocol::{ReplyView, RequestView};
use crate::record::MoveView;
use crate::rules::{placement_of, RuleView};
use crate::undoer::{undo_failure_line, undo_initial, UndoEngineView, UndoStage};

verus! {

/// No record has `path` for its source or its destination.
pub open spec fn avoids(records: Seq<MoveView>, path: Seq<char>) -> bool {
    forall|i: int|
        0 <= i < records.len() ==> (#[trigger] records[i]).from != path && records[i].to != path
}

/// The records are those of moves that overwrote nothing: every source was
/// a file before the first move, every destination was free, and no path
/// occurs twice.
pub open spec fn clean(files: Map<Seq<char>, int>, records: Seq<MoveView>) -> bool {
    &&& forall|i: int|
        0 <= i < records.len() ==> files.contains_key((#[trigger] records[i]).from)
            && !files.contains_key(records[i].to)
    &&& forall|i: int, j: int|
        0 <= i < j < records.len() ==> (#[trigger] records[i]).from != (#[trigger] records[j]).from
            && records[i].to != records[j].to
}

/// The lines of an undo in which no file could be moved back.
pub open spec fn all_failed(records: Seq<MoveView>, quiet: bool) -> Seq<Seq<char>> {
    if quiet {
        Seq::empty()
    } else {
        Seq::new(
            records.len(),
            |i: int| undo_failure_line(records[i].to, records[i].from, Seq::empty()),
        )
    }
}

/// Two renamings that share no path can be made in either order.
pub proof fn lemma_renamed_commutes(
    files: Map<Seq<char>, int>,
    a: Seq<char>,
    b: Seq<char>,
    c: Seq<char>,
    d: Seq<char>,
)
    requires
        a != c,
        a != d,
        b != c,
        b != d,
    ensures
        renamed(renamed(files, a, b), c, d) == renamed(renamed(files, c, d), a, b),
{
    assert(renamed(renamed(files, a, b), c, d) =~= renamed(renamed(files, c, d), a, b));
}

/// Moves leave alone what lies at a path that none of them names.
pub proof fn lemma_untouched(files: Map<Seq<char>, int>, records: Seq<MoveView>, path: Seq<char>)
    requires
        avoids(records, path),
    ensures
        after_moves(files, records).contains_key(path) == files.contains_key(path),
        files.contains_key(path) ==> after_moves(files, records)[path] == files[path],
    decreases records.len(),
{
    if records.len() > 0 {
        let rest = records.drop_first();
        assert(records[0].from != path && records[0].to != path);
        assert forall|i: int| 0 <= i < rest.len() implies (#[trigger] rest[i]).from != path
            && rest[i].to != path by {
            assert(rest[i] == records[i + 1]);
        }
        lemma_untouched(renamed(files, records[0].from, records[0].to), rest, path);
    }
}

/// A renaming between two paths that no record names can be made before
/// the recorded moves or after them.
pub proof fn lemma_slide(
    files: Map<Seq<char>, int>,
    records: Seq<MoveView>,
    a: Seq<char>,
    b: Seq<char>,
)
    requires
        avoids(records, a),
        avoids(records, b),
    ensures
        renamed(after_moves(files, records), a, b) == after_moves(renamed(files, a, b), records),
    decreases records.len(),
{
    if records.len() > 0 {
        let first = records[0];
        let rest = records.drop_first();
        assert forall|i: int| 0 <= i < rest.len() implies (#[trigger] rest[i]).from != a
            && rest[i].to != a && rest[i].from != b && rest[i].to != b by {
            assert(rest[i] == records[i + 1]);
        }
        lemma_slide(renamed(files, first.from, first.to), rest, a, b);
        lemma_renamed_commutes(files, first.from, first.to, a, b);
    }
}

/// Undone from the record at the cursor on, clean moves leave every file
/// where it was, and nothing is reported.
pub proof fn lemma_undo_restores_from(
    engine: UndoEngineView,
    world: World,
    reply: ReplyView,
    files: Map<Seq<char>, int>,
)
    requires
        engine.stage is Idle,
        !engine.dry_run,
        engine.cursor <= engine.records.len(),
        clean(files, engine.records.skip(engine.cursor as int)),
        world.files == after_moves(files, engine.records.skip(engine.cursor as int)),
    ensures
        ({
            let out = undo_run(engine, world, reply);
            &&& out.world.files == files
            &&& out.world.logs == world.logs
            &&& out.said == Seq::<Seq<char>>::empty()
            &&& out.asked.len() > 0
            &&& out.asked.last() is Finish
        }),
    decreases engine.records.len() - engine.cursor,
{
    let k = engine.cursor as int;
    let tail = engine.records.skip(k);
    if k < engine.records.len() {
        let record = engine.records[k];
        let rest = engine.records.skip(k + 1);
        assert(tail[0] == record);
        assert(tail.drop_first() =~= rest);
        let (e1, t1) = engine.step(reply);
        let (w1, a1) = perform(world, t1.ask);
        let (e2, t2) = e1.step(a1);
        let (w2, a2) = perform(w1, t2.ask);
        let moved = renamed(files, record.from, record.to);
        assert forall|i: int| 0 <= i < rest.len() implies (#[trigger] rest[i]).from != record.to
            && rest[i].to != record.to && rest[i].from != record.from && rest[i].to
            != record.from by {
            assert(rest[i] == tail[i + 1]);
        }
        assert(clean(files, rest)) by {
            assert forall|i: int| 0 <= i < rest.len() implies files.contains_key(
                (#[trigger] rest[i]).from,
            ) && !files.contains_key(rest[i].to) by {
                assert(rest[i] == tail[i + 1]);
            }
            assert forall|i: int, j: int| 0 <= i < j < rest.len() implies (#[trigger] rest[i]).from
                != (#[trigger] rest[j]).from && rest[i].to != rest[j].to by {
                assert(rest[i] == tail[i + 1]);
                assert(rest[j] == tail[j + 1]);
            }
        }
        lemma_untouched(moved, rest, record.to);
        assert(world.files.contains_key(record.to));
        lemma_slide(moved, rest, record.to, record.from);
        assert(renamed(moved, record.to, record.from) =~= files);
        assert(w2.files == after_moves(files, rest));
        let e3 = e2.past_record();
        lemma_undo_restores_from(e3, w2, a2, files);
        assert(e2.step(a2) == e3.step(a2));
        assert(undo_run(e2, w2, a2) == undo_run(e3, w2, a2));
        let inner = undo_run(e2, w2, a2);
        assert(undo_run(e1, w1, a1) == (Outcome {
            said: t2.say + inner.said,
            asked: seq![t2.ask] + inner.asked,
            ..inner
        }));
        let middle = undo_run(e1, w1, a1);
        assert(undo_run(engine, world, reply) == (Outcome {
            said: t1.say + middle.said,
            asked: seq![t1.ask] + middle.asked,
            ..middle
        }));
        assert(t1.say + (t2.say + inner.said) =~= Seq::<Seq<char>>::empty());
    }
}

/// Where none of the files to move back is there, every record from the
/// cursor on is reported as failed, and the files stay as they are.
pub proof fn lemma_undo_fails_from(engine: UndoEngineView, world: World, reply: ReplyView)
    requires
        engine.stage is Idle,
        !engine.dry_run,
        engine.cursor <= engine.records.len(),
        forall|i: int|
            engine.cursor <= i < engine.records.len() ==> !world.files.contains_key(
                (#[trigger] engine.records[i]).to,
            ),
    ensures
        ({
            let out = undo_run(engine, world, reply);
            &&& out.world == world
            &&& out.said == all_failed(engine.records.skip(engine.cursor as int), engine.quiet)
            &&& out.asked.len() > 0
            &&& out.asked.last() is Finish
        }),
    decreases engine.records.len() - engine.cursor,
{
    let k = engine.cursor as int;
    let tail = engine.records.skip(k);
    if k < engine.records.len() {
        let record = engine.records[k];
        let rest = engine.records.skip(k + 1);
        let (e1, t1) = engine.step(reply);
        let (w1, a1) = perform(world, t1.ask);
        let (e2, t2) = e1.step(a1);
        let (w2, a2) = perform(w1, t2.ask);
        assert(!world.files.contains_key(record.to));
        assert(w2 == world);
        let e3 = e2.past_record();
        lemma_undo_fails_from(e3, w2, a2);
        let (n2, u2) = e2.step(a2);
        let (n3, u3) = e3.step(a2);
        assert(n2 == n3);
        assert(u2.ask == u3.ask);
        let after = undo_run(e3, w2, a2);
        let inner = undo_run(e2, w2, a2);
        assert(inner.world == after.world);
        assert(inner.asked == after.asked);
        assert(inner.said =~= u2.say + after.said);
        assert(undo_run(e1, w1, a1) == (Outcome {
            said: t2.say + inner.said,
            asked: seq![t2.ask] + inner.asked,
            ..inner
        }));
        let middle = undo_run(e1, w1, a1);
        assert(undo_run(engine, world, reply) == (Outcome {
            said: t1.say + middle.said,
            asked: seq![t1.ask] + middle.asked,
            ..middle
        }));
        assert(t1.say + (t2.say + inner.said) =~= all_failed(tail, engine.quiet)) by {
            if !engine.quiet {
                let lines = all_failed(tail, false);
                let fewer = all_failed(rest, false);
                assert(tail[0] == record);
                assert forall|i: int| 0 <= i < fewer.len() implies fewer[i] == lines[i + 1] by {
                    assert(rest[i] == tail[i + 1]);
                }
            }
        }
    } else {
        assert(all_failed(tail, engine.quiet) =~= Seq::<Seq<char>>::empty());
    }
}

/// Move and undo, there and back. Where the recorded moves overwrote
/// nothing and the files have not been touched since, the undo puts every
/// file back at the very path it came from, and reports nothing. A second
/// undo of the same records finds no file to move back: it reports each
/// record as failed, changes nothing and comes to its end all the same.
pub proof fn undo_restores(
    records: Seq<MoveView>,
    files: Map<Seq<char>, int>,
    logs: Map<Seq<char>, Seq<MoveView>>,
    quiet: bool,
    reply: ReplyView,
)
    requires
        clean(files, records),
    ensures
        ({
            let moved = World { files: after_moves(files, records), logs };
            let engine = undo_initial(records, false, quiet);
            let once = undo_run(engine, moved, reply);
            let twice = undo_run(engine, once.world, reply);
            &&& once.world.files == files
            &&& once.said == Seq::<Seq<char>>::empty()
            &&& once.asked.last() is Finish
            &&& twice.world == once.world
            &&& twice.said == all_failed(records, quiet)
            &&& twice.asked.last() is Finish
        }),
{
    let moved = World { files: after_moves(files, records), logs };
    let engine = undo_initial(records, false, quiet);
    assert(records.skip(0) =~= records);
    lemma_undo_restores_from(engine, moved, reply, files);
    let once = undo_run(engine, moved, reply);
    lemma_undo_fails_from(engine, once.world, reply);
}

/// A dry run leaves every file alone. Run to its end in the model, a dry
/// run changes no file; what it asks for is harmless throughout, and the one
/// thing it writes is an empty log.
pub proof fn dry_run_leaves_files(engine: MoveEngineView, world: World, reply: ReplyView)
    requires
        dry(engine),
    ensures
        ({
            let out = move_run(engine, world, reply);
            &&& out.world.files == world.files
            &&& forall|i: int| 0 <= i < out.asked.len() ==> harmless(engine, #[trigger] out.asked[i])
            &&& out.world.logs == world.logs || out.world.logs == world.logs.insert(
                engine.log_path,
                Seq::empty(),
            )
        }),
    decreases engine.effort(),
{
    let (next, turn) = engine.step(reply);
    dry_run_is_harmless(engine, reply);
    engine.lemma_step(reply);
    engine.lemma_step_scans(reply);
    if !turn.ask.is_last() {
        let (after, answer) = perform(world, turn.ask);
        dry_run_leaves_files(next, after, answer);
        let rest = move_run(next, after, answer);
        let out = move_run(engine, world, reply);
        assert(out.asked == seq![turn.ask] + rest.asked);
        assert forall|i: int| 0 <= i < out.asked.len() implies harmless(
            engine,
            #[trigger] out.asked[i],
        ) by {
            if i > 0 {
                assert(out.asked[i] == rest.asked[i - 1]);
                assert(harmless(next, rest.asked[i - 1]));
            }
        }
        if turn.ask is WriteLog {
            assert(next.stage is Logging);
            assert(after.logs == world.logs.insert(engine.log_path, Seq::empty()));
            next.lemma_logging_ends(after, answer);
        }
    }
}

/// A move more at the end of the records is a renaming more after the
/// moves recorded before it.
pub proof fn lemma_one_more_move(
    files: Map<Seq<char>, int>,
    records: Seq<MoveView>,
    last: MoveView,
)
    ensures
        after_moves(files, records.push(last)) == renamed(
            after_moves(files, records),
            last.from,
            last.to,
        ),
    decreases records.len(),
{
    let more = records.push(last);
    assert(more.len() > 0);
    if records.len() == 0 {
        let moved = renamed(files, last.from, last.to);
        assert(more[0] == last);
        assert(more.drop_first() =~= records);
        assert(after_moves(moved, records) == moved);
        assert(after_moves(files, more) == after_moves(moved, more.drop_first()));
    } else {
        let moved = renamed(files, records[0].from, records[0].to);
        let rest = records.drop_first();
        assert(more[0] == records[0]);
        assert(more.drop_first() =~= rest.push(last));
        lemma_one_more_move(moved, rest, last);
        assert(after_moves(files, more) == after_moves(moved, more.drop_first()));
        assert(after_moves(files, records) == after_moves(moved, rest));
    }
}

/// The state of a run in the model whose records account for what it has
/// done to the files that were there `before` it.
pub open spec fn accounted(
    engine: MoveEngineView,
    world: World,
    reply: ReplyView,
    before: Map<Seq<char>, int>,
) -> bool {
    let so_far = after_moves(before, engine.records);
    match engine.stage {
        StageView::Renaming { source, dest } => {
            &&& reply.succeeded == so_far.contains_key(source)
            &&& world.files == renamed(so_far, source, dest)
        },
        StageView::Locating { source, dest } => {
            &&& so_far.contains_key(source)
            &&& world.files == renamed(so_far, source, dest)
            &&& reply.detail == dest
        },
        StageView::Logging => {
            &&& world.logs.contains_key(engine.log_path)
            &&& world.files == after_moves(before, world.logs[engine.log_path])
        },
        StageView::Pruning => {
            &&& !engine.dry_run
            &&& world.logs.contains_key(engine.log_path)
            &&& world.files == pruned(
                after_moves(before, world.logs[engine.log_path]),
                engine.removal_dir,
            )
        },
        StageView::Finished => false,
        _ => world.files == so_far,
    }
}

/// The log tells what was done. When a run comes to its end in the model,
/// the log it wrote accounts for every change to the files: they are where
/// the recorded moves, made in their order, put them, less what the removal
/// of the removal category took away.
pub proof fn log_tells_what_was_done(
    engine: MoveEngineView,
    world: World,
    reply: ReplyView,
    before: Map<Seq<char>, int>,
)
    requires
        accounted(engine, world, reply, before),
    ensures
        ({
            let out = move_run(engine, world, reply);
            out.asked.last() is Finish ==> {
                &&& out.world.logs.contains_key(engine.log_path)
                &&& out.world.files == if engine.dry_run {
                    after_moves(before, out.world.logs[engine.log_path])
                } else {
                    pruned(
                        after_moves(before, out.world.logs[engine.log_path]),
                        engine.removal_dir,
                    )
                }
            }
        }),
    decreases engine.effort(),
{
    let (next, turn) = engine.step(reply);
    engine.lemma_step(reply);
    engine.lemma_step_scans(reply);
    if let StageView::Locating { source, dest } = engine.stage {
        lemma_one_more_move(before, engine.records, MoveView { from: source, to: dest });
    }
    if !turn.ask.is_last() {
        let (after, answer) = perform(world, turn.ask);
        assert(accounted(next, after, answer, before));
        log_tells_what_was_done(next, after, answer, before);
        let rest = move_run(next, after, answer);
        let out = move_run(engine, world, reply);
        next.lemma_run_asks(after, answer);
        assert(out.asked == seq![turn.ask] + rest.asked);
        assert(out.asked.last() == rest.asked.last());
    }
}

/// A run from its start, on the files as they are, is accounted for.
pub proof fn log_tells_what_was_done_from_the_start(
    engine: MoveEngineView,
    world: World,
    reply: ReplyView,
)
    requires
        engine.stage is Starting,
        engine.records.len() == 0,
    ensures
        ({
            let out = move_run(engine, world, reply);
            out.asked.last() is Finish ==> {
                &&& out.world.logs.contains_key(engine.log_path)
                &&& out.world.files == if engine.dry_run {
                    after_moves(world.files, out.world.logs[engine.log_path])
                } else {
                    pruned(
                        after_moves(world.files, out.world.logs[engine.log_path]),
                        engine.removal_dir,
                    )
                }
            }
        }),
{
    assert(engine.records =~= Seq::<MoveView>::empty());
    log_tells_what_was_done(engine, world, reply, world.files);
}

/// A run and its undo. Where a run that is not dry came to its end, its
/// moves overwrote nothing and the removal of the removal category took no
/// file away, the undo of the log it wrote puts every file back where it was
/// before the run.
pub proof fn run_and_undo(
    engine: MoveEngineView,
    world: World,
    reply: ReplyView,
    quiet: bool,
    undo_reply: ReplyView,
)
    requires
        engine.stage is Starting,
        engine.records.len() == 0,
        !engine.dry_run,
        move_run(engine, world, reply).asked.last() is Finish,
        clean(world.files, move_run(engine, world, reply).world.logs[engine.log_path]),
        pruned(
            after_moves(world.files, move_run(engine, world, reply).world.logs[engine.log_path]),
            engine.removal_dir,
        ) == after_moves(
            world.files,
            move_run(engine, world, reply).world.logs[engine.log_path],
        ),
    ensures
        ({
            let out = move_run(engine, world, reply);
            let log = out.world.logs[engine.log_path];
            let back = undo_run(undo_initial(log, false, quiet), out.world, undo_reply);
            &&& back.world.files == world.files
            &&& back.said == Seq::<Seq<char>>::empty()
            &&& back.asked.last() is Finish
        }),
{
    let out = move_run(engine, world, reply);
    let log = out.world.logs[engine.log_path];
    log_tells_what_was_done_from_the_start(engine, world, reply);
    undo_restores(log, world.files, out.world.logs, quiet, undo_reply);
    assert(out.world == (World { files: after_moves(world.files, log), logs: out.world.logs }));
}

/// Names go by position, not by content. Two runs of the same engine on
/// disks that hold files at the same paths ask for the same things in the
/// same order and say the same, whatever the files hold.
pub proof fn same_paths_same_run(
    engine: MoveEngineView,
    one: World,
    other: World,
    reply: ReplyView,
)
    requires
        one.files.dom() == other.files.dom(),
    ensures
        ({
            let a = move_run(engine, one, reply);
            let b = move_run(engine, other, reply);
            &&& a.asked == b.asked
            &&& a.said == b.said
            &&& a.engine == b.engine
            &&& a.world.files.dom() == b.world.files.dom()
        }),
    decreases engine.effort(),
{
    let (next, turn) = engine.step(reply);
    engine.lemma_step(reply);
    if !turn.ask.is_last() {
        let (after_one, answer_one) = perform(one, turn.ask);
        let (after_other, answer_other) = perform(other, turn.ask);
        assert forall|p: Seq<char>| one.files.contains_key(p) == other.files.contains_key(p) by {
            assert(one.files.dom().contains(p) == other.files.dom().contains(p));
        }
        assert(answer_one == answer_other);
        assert(after_one.files.dom() =~= after_other.files.dom());
        same_paths_same_run(next, after_one, after_other, answer_one);
    }
}

/// The state of a run in the model, where a path resolves to itself: what
/// is in work or on record is a file that some rule takes.
pub open spec fn placed_throughout(engine: MoveEngineView, reply: ReplyView) -> bool {
    &&& forall|j: int|
        0 <= j < engine.records.len() ==> placement_of(
            engine.rules,
            (#[trigger] engine.records[j]).from,
        ) is Some
    &&& match engine.stage {
        StageView::Resolving { dir, name } => {
            &&& engine.cursor < engine.files.len()
            &&& placement_of(engine.rules, engine.files[engine.cursor as int]) is Some
            &&& reply.succeeded ==> reply.detail == engine.files[engine.cursor as int]
        },
        StageView::Probing { source, dir, name } => placement_of(engine.rules, source) is Some,
        StageView::Renaming { source, dest } => placement_of(engine.rules, source) is Some,
        StageView::Locating { source, dest } => placement_of(engine.rules, source) is Some,
        _ => true,
    }
}

/// What a run may ask for where only placed files move: a renaming of a
/// file that some rule takes, a log of such files, or what renames nothing.
pub open spec fn moves_placed_only(rules: Seq<RuleView>, ask: RequestView) -> bool {
    match ask {
        RequestView::Rename { from, to } => placement_of(rules, from) is Some,
        RequestView::WriteLog { path, records } => forall|j: int|
            0 <= j < records.len() ==> placement_of(rules, (#[trigger] records[j]).from) is Some,
        _ => true,
    }
}

/// No match, no move. Run to its end in the model, the engine renames and
/// records only files that some rule takes: a file that no rule accepts is
/// not renamed, and no record is made of it.
pub proof fn unmatched_files_stay(engine: MoveEngineView, world: World, reply: ReplyView)
    requires
        placed_throughout(engine, reply),
    ensures
        ({
            let out = move_run(engine, world, reply);
            forall|i: int|
                0 <= i < out.asked.len() ==> moves_placed_only(engine.rules, #[trigger] out.asked[i])
        }),
    decreases engine.effort(),
{
    let (next, turn) = engine.step(reply);
    engine.lemma_step(reply);
    engine.lemma_step_scans(reply);
    assert(moves_placed_only(engine.rules, turn.ask));
    let out = move_run(engine, world, reply);
    if !turn.ask.is_last() {
        let (after, answer) = perform(world, turn.ask);
        assert(placed_throughout(next, answer));
        unmatched_files_stay(next, after, answer);
        let rest = move_run(next, after, answer);
        assert(out.asked == seq![turn.ask] + rest.asked);
        assert forall|i: int| 0 <= i < out.asked.len() implies moves_placed_only(
            engine.rules,
            #[trigger] out.asked[i],
        ) by {
            if i > 0 {
                assert(out.asked[i] == rest.asked[i - 1]);
            }
        }
    }
}

/// A run starts with nothing in work and nothing on record.
pub proof fn unmatched_files_stay_from_the_start(
    engine: MoveEngineView,
    world: World,
    reply: ReplyView,
)
    requires
        engine.stage is Starting,
        engine.records.len() == 0,
    ensures
        ({
            let out = move_run(engine, world, reply);
            forall|i: int|
                0 <= i < out.asked.len() ==> moves_placed_only(engine.rules, #[trigger] out.asked[i])
        }),
{
    unmatched_files_stay(engine, world, reply);
}

/// What goes to a directory lies under it: the destination of a file is
/// inside the directory of its rule, taken or not.
pub proof fn destination_is_inside(
    dir: Seq<char>,
    name: Seq<char>,
    source: Seq<char>,
    index: nat,
    taken: bool,
)
    requires
        is_entry_name(name),
    ensures
        inside(dir, destination(dir, name, source, index, taken)),
{
    if taken {
        lemma_base_of(source);
        let own = match base_of(source) {
            Some(base) => base,
            None => name,
        };
        let renamed = copy_name_of(own, index);
        assert(renamed[0] == own[0]);
        assert(joined(dir, renamed) == destination(dir, name, source, index, taken));
    } else {
        assert(joined(dir, name) == destination(dir, name, source, index, taken));
    }
}

/// The removal category ends empty. When a run that is not dry comes to its
/// end, nothing is left under the directory of the removal category: what
/// the rules sent there is gone.
pub proof fn removal_category_is_emptied(engine: MoveEngineView, world: World, reply: ReplyView)
    requires
        !engine.dry_run,
        !(engine.stage is Finished),
        engine.stage is Pruning ==> forall|p: Seq<char>|
            inside(engine.removal_dir, p) ==> !world.files.contains_key(p),
    ensures
        ({
            let out = move_run(engine, world, reply);
            out.asked.last() is Finish ==> forall|p: Seq<char>|
                inside(engine.removal_dir, p) ==> !out.world.files.contains_key(p)
        }),
    decreases engine.effort(),
{
    let (next, turn) = engine.step(reply);
    engine.lemma_step(reply);
    engine.lemma_step_scans(reply);
    if !turn.ask.is_last() {
        let (after, answer) = perform(world, turn.ask);
        removal_category_is_emptied(next, after, answer);
        let rest = move_run(next, after, answer);
        let out = move_run(engine, world, reply);
        next.lemma_run_asks(after, answer);
        assert(out.asked == seq![turn.ask] + rest.asked);
        assert(out.asked.last() == rest.asked.last());
    }
}

} // verus!
