//! Which entries of the source directory are candidates, and which
//! directories a run makes sure of.

use vstd::prelude::*;
use crate::options::Options;
use crate::paths::{has_hidden_marker, is_hidden, join, joined};

verus! {

/// An entry found under the source directory.
#[derive(Debug, Clone, PartialEq, Eq)]
pub struct Entry {
    pub path: String,
    pub is_dir: bool,
}

pub struct EntryView {
    pub path: Seq<char>,
    pub is_dir: bool,
}

impl View for Entry {
    type V = EntryView;

    open spec fn view(&self) -> EntryView {
        EntryView { path: self.path@, is_dir: self.is_dir }
    }
}

impl DeepView for Entry {
    type V = EntryView;

    open spec fn deep_view(&self) -> EntryView {
        self@
    }
}

/// Whether an entry is a file to consider: no directory, and not hidden
/// unless hidden entries are asked for.
pub open spec fn is_candidate(hidden: bool, entry: EntryView) -> bool {
    (hidden || !has_hidden_marker(entry.path)) && !entry.is_dir
}

/// The paths of the candidates among `entries`, in their order.
pub open spec fn candidates(hidden: bool, entries: Seq<EntryView>) -> Seq<Seq<char>> {
    entries.filter(|e: EntryView| is_candidate(hidden, e)).map_values(|e: EntryView| e.path)
}

/// The categories, in the order in which their directories are made.
pub open spec fn categories() -> Seq<Seq<char>> {
    seq![
        "Audio"@,
        "Compressed"@,
        "Garbage"@,
        "Downloads"@,
        "Code"@,
        "Documents"@,
        "Images"@,
        "ISO"@,
        "Configuration"@,
        "Encrypted"@,
        "Video"@,
        "Unsorted"@,
        "REMOVE"@,
    ]
}

/// The directory of each category under the output root `output`.
pub open spec fn category_dirs(output: Seq<char>) -> Seq<Seq<char>> {
    categories().map_values(|name: Seq<char>| joined(output, name))
}

/// How deep the source directory is walked: its own entries only, unless
/// subdirectories are asked for.
pub fn max_depth(recursive: bool) -> (depth: Option<usize>)
    ensures
        depth == (if recursive {
            None
        } else {
            Some(1usize)
        }),
{
    if recursive {
        None
    } else {
        Some(1)
    }
}

/// The files to consider among the entries found, in the order in which they
/// were found.
pub fn get_files(hidden: bool, entries: &Vec<Entry>) -> (files: Vec<String>)
    ensures
        files.deep_view() == candidates(hidden, entries.deep_view()),
{
    let mut files: Vec<String> = Vec::new();
    let ghost all = entries.deep_view();
    let ghost keep = |e: EntryView| is_candidate(hidden, e);
    let ghost path = |e: EntryView| e.path;
    let mut i: usize = 0;
    proof {
        reveal(Seq::filter);
        assert(all.take(0).filter(keep) =~= Seq::empty());
        assert(files.deep_view() =~= all.take(0).filter(keep).map_values(path));
    }
    while i < entries.len()
        invariant
            i <= entries.len(),
            all == entries.deep_view(),
            all.len() == entries.len(),
            keep == (|e: EntryView| is_candidate(hidden, e)),
            path == (|e: EntryView| e.path),
            files.deep_view() == all.take(i as int).filter(keep).map_values(path),
        decreases entries.len() - i,
    {
        let entry = &entries[i];
        let ghost before = files.deep_view();
        let ghost seen = all.take(i as int);
        let ghost more = all.take(i + 1);
        proof {
            reveal(Seq::filter);
            assert(more.drop_last() =~= seen);
            assert(more.last() == entry@);
        }
        if (hidden || !is_hidden(entry.path.as_str())) && !entry.is_dir {
            files.push(entry.path.clone());
            assert(files.deep_view() =~= before.push(entry@.path));
            assert(more.filter(keep) == seen.filter(keep).push(entry@));
            assert(files.deep_view() =~= more.filter(keep).map_values(path));
        } else {
            assert(more.filter(keep) == seen.filter(keep));
        }
        i = i + 1;
    }
    assert(all.take(i as int) =~= all);
    files
}

/// The directories of the categories under the output root, in the order in
/// which they are made.
pub fn create_dirs(options: &Options) -> (dirs: Vec<String>)
    ensures
        dirs.deep_view() == category_dirs(options.output@),
{
    let output = options.output.as_str();
    let mut dirs: Vec<String> = Vec::new();
    dirs.push(join(output, "Audio"));
    dirs.push(join(output, "Compressed"));
    dirs.push(join(output, "Garbage"));
    dirs.push(join(output, "Downloads"));
    dirs.push(join(output, "Code"));
    dirs.push(join(output, "Documents"));
    dirs.push(join(output, "Images"));
    dirs.push(join(output, "ISO"));
    dirs.push(join(output, "Configuration"));
    dirs.push(join(output, "Encrypted"));
    dirs.push(join(output, "Video"));
    dirs.push(join(output, "Unsorted"));
    dirs.push(join(output, "REMOVE"));
    assert(dirs.deep_view() =~= category_dirs(options.output@));
    dirs
}

} // verus!
