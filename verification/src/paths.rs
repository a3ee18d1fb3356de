//! Paths as plain text, with `/` between components.

use vstd::prelude::*;
use vstd::string::*;

verus! {

/// Index of the last `/` in `s`, or -1 where `s` holds none.
pub open spec fn last_slash(s: Seq<char>) -> int
    decreases s.len(),
{
    if s.len() == 0 {
        -1
    } else if s.last() == '/' {
        s.len() - 1
    } else {
        last_slash(s.drop_last())
    }
}

/// The text after the last `/`; the whole text where there is no `/`.
pub open spec fn final_segment(s: Seq<char>) -> Seq<char> {
    s.subrange(last_slash(s) + 1, s.len() as int)
}

/// A text that can name a directory entry: not empty, not `.` or `..`, and
/// free of `/`.
pub open spec fn is_entry_name(t: Seq<char>) -> bool {
    &&& t.len() > 0
    &&& !(t =~= seq!['.'])
    &&& !(t =~= seq!['.', '.'])
    &&& forall|i: int| 0 <= i < t.len() ==> t[i] != '/'
}

/// The base name of a path: its final segment, where that names an entry.
pub open spec fn base_of(path: Seq<char>) -> Option<Seq<char>> {
    let t = final_segment(path);
    if t.len() == 0 || t =~= seq!['.'] || t =~= seq!['.', '.'] {
        None
    } else {
        Some(t)
    }
}

/// The directory part of a path: what stands before the last `/`, the root
/// for an entry of the root, and the empty path where there is no `/`.
pub open spec fn parent_of(path: Seq<char>) -> Seq<char> {
    let k = last_slash(path);
    if k < 0 {
        Seq::empty()
    } else if k == 0 {
        seq!['/']
    } else {
        path.subrange(0, k)
    }
}

/// `tail` appended to `base` as a further component. An absolute `tail`
/// replaces `base`; a separator is put in only where `base` is not empty and
/// does not end in one.
pub open spec fn joined(base: Seq<char>, tail: Seq<char>) -> Seq<char> {
    if tail.len() > 0 && tail[0] == '/' {
        tail
    } else if base.len() == 0 || base.last() == '/' {
        base + tail
    } else {
        base + seq!['/'] + tail
    }
}

/// Whether some component after the first begins with a dot, that is whether
/// the text `/.` occurs in the path.
pub open spec fn has_hidden_marker(path: Seq<char>) -> bool {
    exists|i: int| 0 <= i < path.len() - 1 && #[trigger] path[i] == '/' && path[i + 1] == '.'
}

/// What `last_slash` finds is a `/` with none after it.
pub proof fn lemma_last_slash(s: Seq<char>)
    ensures
        -1 <= last_slash(s) < s.len(),
        last_slash(s) >= 0 ==> s[last_slash(s)] == '/',
        forall|j: int| last_slash(s) < j < s.len() ==> s[j] != '/',
    decreases s.len(),
{
    if s.len() > 0 && s.last() != '/' {
        let t = s.drop_last();
        lemma_last_slash(t);
        assert forall|j: int| last_slash(s) < j < s.len() implies s[j] != '/' by {
            if j < t.len() {
                assert(s[j] == t[j]);
            }
        }
    }
}

/// A base name is an entry name, and the path ends in it.
pub proof fn lemma_base_of(path: Seq<char>)
    ensures
        base_of(path) matches Some(name) ==> is_entry_name(name) && path =~= path.subrange(
            0,
            path.len() - name.len(),
        ) + name,
{
    lemma_last_slash(path);
}

/// Joining a directory and an entry name gives a path with that base name.
pub proof fn lemma_joined_entry(dir: Seq<char>, name: Seq<char>)
    requires
        is_entry_name(name),
    ensures
        base_of(joined(dir, name)) == Some(name),
{
    let p = joined(dir, name);
    let k = p.len() - name.len() - 1;
    lemma_last_slash(p);
    if k >= 0 {
        assert(p[k] == '/');
        assert(forall|j: int| k < j < p.len() ==> p[j] == name[j - k - 1]);
        assert(last_slash(p) == k);
    } else {
        assert(p =~= name);
        assert(last_slash(p) == -1);
    }
    assert(final_segment(p) =~= name);
}

fn find_last_slash(s: &str) -> (found: Option<usize>)
    ensures
        match found {
            Some(k) => k as int == last_slash(s@),
            None => last_slash(s@) == -1,
        },
{
    let n: usize = s.unicode_len();
    let mut i: usize = n;
    while i > 0
        invariant
            i <= n,
            n == s@.len(),
            forall|j: int| i <= j < n ==> s@[j] != '/',
        decreases i,
    {
        if s.get_char(i - 1) == '/' {
            proof {
                lemma_last_slash(s@);
            }
            return Some(i - 1);
        }
        i = i - 1;
    }
    proof {
        lemma_last_slash(s@);
    }
    None
}

/// The base name of `path`, if it has one.
pub fn base_name(path: &str) -> (name: Option<String>)
    ensures
        name.deep_view() == base_of(path@),
{
    let n: usize = path.unicode_len();
    proof {
        lemma_last_slash(path@);
    }
    let start: usize = match find_last_slash(path) {
        Some(k) => k + 1,
        None => 0,
    };
    let tail: &str = path.substring_char(start, n);
    let len: usize = n - start;
    if len == 0 {
        None
    } else if len == 1 && tail.get_char(0) == '.' {
        None
    } else if len == 2 && tail.get_char(0) == '.' && tail.get_char(1) == '.' {
        None
    } else {
        Some(tail.to_owned())
    }
}

/// The directory part of `path`.
pub fn parent(path: &str) -> (dir: String)
    ensures
        dir@ == parent_of(path@),
{
    proof {
        lemma_last_slash(path@);
        reveal_strlit("/");
    }
    match find_last_slash(path) {
        None => String::new(),
        Some(k) => {
            if k == 0 {
                "/".to_owned()
            } else {
                path.substring_char(0, k).to_owned()
            }
        },
    }
}

/// `tail` appended to `base` as a further component.
pub fn join(base: &str, tail: &str) -> (path: String)
    ensures
        path@ == joined(base@, tail@),
{
    let base_len: usize = base.unicode_len();
    let tail_len: usize = tail.unicode_len();
    if tail_len > 0 && tail.get_char(0) == '/' {
        tail.to_owned()
    } else if base_len == 0 || base.get_char(base_len - 1) == '/' {
        let mut path = base.to_owned();
        path.append(tail);
        path
    } else {
        proof {
            reveal_strlit("/");
        }
        let mut path = base.to_owned();
        path.append("/");
        path.append(tail);
        path
    }
}

/// Whether the text `/.` occurs in `path`.
pub fn is_hidden(path: &str) -> (hidden: bool)
    ensures
        hidden == has_hidden_marker(path@),
{
    let n: usize = path.unicode_len();
    if n < 2 {
        return false;
    }
    let mut i: usize = 0;
    while i < n - 1
        invariant
            2 <= n,
            n == path@.len(),
            i <= n - 1,
            forall|j: int| 0 <= j < i ==> !(#[trigger] path@[j] == '/' && path@[j + 1] == '.'),
        decreases n - i,
    {
        if path.get_char(i) == '/' && path.get_char(i + 1) == '.' {
            return true;
        }
        i = i + 1;
    }
    false
}

} // verus!
