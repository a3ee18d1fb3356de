//! A model of the file system, for saying what a whole run does to the files
//! it is let loose on.
//!
//! The model knows files by their paths and takes every path as resolved
//! already. Directories are always there. An operation fails only for want
//! of the file it is to work on.

use vstd::prelude::*;
use crate::mover::MoveEngineView;
use crate::paths::joined;
use crate::protocol::{ReplyView, RequestView};
use crate::record::MoveView;
use crate::undoer::UndoEngineView;

verus! {

/// The files, each path with what it holds, and the logs written.
pub struct World {
    pub files: Map<Seq<char>, int>,
    pub logs: Map<Seq<char>, Seq<MoveView>>,
}

/// Whether `path` lies under the directory `dir`.
pub open spec fn inside(dir: Seq<char>, path: Seq<char>) -> bool {
    exists|rest: Seq<char>| rest.len() > 0 && rest[0] != '/' && #[trigger] joined(dir, rest) == path
}

/// The files after what is at `from` went to `to`. Nothing happens where
/// there is no file at `from`.
pub open spec fn renamed(files: Map<Seq<char>, int>, from: Seq<char>, to: Seq<char>) -> Map<
    Seq<char>,
    int,
> {
    if files.contains_key(from) {
        files.remove(from).insert(to, files[from])
    } else {
        files
    }
}

/// The files that are left once the directory `dir` is removed with all
/// that lies under it.
pub open spec fn pruned(files: Map<Seq<char>, int>, dir: Seq<char>) -> Map<Seq<char>, int> {
    Map::new(|p: Seq<char>| files.contains_key(p) && !inside(dir, p), |p: Seq<char>| files[p])
}

/// A driver that carries out each request in the model.
pub open spec fn perform(world: World, ask: RequestView) -> (World, ReplyView) {
    let fine = ReplyView { succeeded: true, detail: Seq::empty() };
    match ask {
        RequestView::Canonicalize { path } => (
            world,
            ReplyView { succeeded: world.files.contains_key(path), detail: path },
        ),
        RequestView::Exists { path } => (
            world,
            ReplyView { succeeded: world.files.contains_key(path), detail: Seq::empty() },
        ),
        RequestView::Rename { from, to } => (
            World { files: renamed(world.files, from, to), ..world },
            ReplyView { succeeded: world.files.contains_key(from), detail: Seq::empty() },
        ),
        RequestView::CreateDirAll { path } => (world, fine),
        RequestView::RemoveDirAll { path } => (
            World { files: pruned(world.files, path), ..world },
            fine,
        ),
        RequestView::WriteLog { path, records } => (
            World { logs: world.logs.insert(path, records), ..world },
            fine,
        ),
        RequestView::Finish => (world, fine),
        RequestView::Abort { reason } => (world, fine),
    }
}

/// What a run came to: the engine and the world at its end, every line said
/// and every request made, in their order.
pub struct Outcome<E> {
    pub engine: E,
    pub world: World,
    pub said: Seq<Seq<char>>,
    pub asked: Seq<RequestView>,
}

/// The move engine run to its end in the model, from the state `engine` and
/// with `reply` as the answer to its last request.
pub open spec fn move_run(engine: MoveEngineView, world: World, reply: ReplyView) -> Outcome<
    MoveEngineView,
>
    decreases engine.effort(),
{
    let (next, turn) = engine.step(reply);
    if turn.ask.is_last() {
        Outcome { engine: next, world, said: turn.say, asked: seq![turn.ask] }
    } else {
        proof {
            engine.lemma_step(reply);
        }
        let (after, answer) = perform(world, turn.ask);
        let rest = move_run(next, after, answer);
        Outcome { said: turn.say + rest.said, asked: seq![turn.ask] + rest.asked, ..rest }
    }
}

impl MoveEngineView {
    /// A run asks for something, at the least for its end.
    pub proof fn lemma_run_asks(self, world: World, reply: ReplyView)
        ensures
            move_run(self, world, reply).asked.len() > 0,
    {
        self.lemma_step(reply);
    }

    /// Once the log is written, a dry run is over.
    pub proof fn lemma_logging_ends(self, world: World, reply: ReplyView)
        requires
            self.stage is Logging,
            self.dry_run,
        ensures
            move_run(self, world, reply).world == world,
            move_run(self, world, reply).asked.len() == 1,
    {
    }
}

/// The undo engine run to its end in the model.
pub open spec fn undo_run(engine: UndoEngineView, world: World, reply: ReplyView) -> Outcome<
    UndoEngineView,
>
    decreases engine.effort(),
{
    let (next, turn) = engine.step(reply);
    if turn.ask.is_last() {
        Outcome { engine: next, world, said: turn.say, asked: seq![turn.ask] }
    } else {
        proof {
            engine.lemma_step(reply);
        }
        let (after, answer) = perform(world, turn.ask);
        let rest = undo_run(next, after, answer);
        Outcome { said: turn.say + rest.said, asked: seq![turn.ask] + rest.asked, ..rest }
    }
}

/// The files after the recorded moves were made, oldest first.
pub open spec fn after_moves(files: Map<Seq<char>, int>, records: Seq<MoveView>) -> Map<
    Seq<char>,
    int,
>
    decreases records.len(),
{
    if records.len() == 0 {
        files
    } else {
        after_moves(renamed(files, records[0].from, records[0].to), records.drop_first())
    }
}

} // verus!
