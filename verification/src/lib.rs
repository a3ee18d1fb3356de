//! Sorting files into category directories by the pattern their name matches,
//! with a record of every move so that a run can be reversed.
//!
//! The library decides; it never touches the file system. A run is an engine
//! that asks its driver for one file-system operation at a time and is told
//! how the operation went.

pub mod defaults;
pub mod files;
pub mod laws;
pub mod matcher;
pub mod model;
pub mod mover;
pub mod naming;
pub mod options;
pub mod paths;
pub mod protocol;
pub mod record;
pub mod rules;
pub mod runs;
pub mod undoer;

pub use files::{create_dirs, get_files};
pub use mover::{move_files, MoveEngine};
pub use options::Options;
pub use protocol::{Reply, Request, Turn};
pub use record::Move;
pub use rules::{CompiledRule, CompiledRules, RawRules, RuleError};
pub use undoer::{undo, UndoEngine};
