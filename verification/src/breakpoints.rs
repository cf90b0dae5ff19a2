//! The breakpoint lines the client has set, by source path.

use vstd::prelude::*;

use crate::text::same_text;

verus! {

/// The map that a list of (path, lines) entries stands for; a later entry
/// for a path overrides an earlier one.
pub open spec fn entries_map(entries: Seq<(String, Vec<i64>)>) -> Map<Seq<char>, Seq<i64>>
    decreases entries.len(),
{
    if entries.len() == 0 {
        Map::empty()
    } else {
        entries_map(entries.drop_last()).insert(entries.last().0@, entries.last().1@)
    }
}

/// Whether no two entries share a path.
pub open spec fn paths_unique(entries: Seq<(String, Vec<i64>)>) -> bool {
    forall|i: int, j: int|
        0 <= i < entries.len() && 0 <= j < entries.len() && i != j ==> #[trigger] entries[i].0@
            != #[trigger] entries[j].0@
}

/// A path is mapped exactly when some entry names it.
proof fn lemma_entries_dom(entries: Seq<(String, Vec<i64>)>, path: Seq<char>)
    ensures
        entries_map(entries).dom().contains(path) <==> exists|i: int|
            0 <= i < entries.len() && #[trigger] entries[i].0@ == path,
    decreases entries.len(),
{
    if entries.len() > 0 {
        let rest = entries.drop_last();
        lemma_entries_dom(rest, path);
        if entries_map(entries).dom().contains(path) {
            if path == entries.last().0@ {
                assert(entries[entries.len() - 1].0@ == path);
            } else {
                let i: int = choose|i: int| 0 <= i < rest.len() && #[trigger] rest[i].0@ == path;
                assert(entries[i].0@ == path);
            }
        }
        if exists|i: int| 0 <= i < entries.len() && #[trigger] entries[i].0@ == path {
            let i: int = choose|i: int| 0 <= i < entries.len() && #[trigger] entries[i].0@ == path;
            if i < entries.len() - 1 {
                assert(rest[i].0@ == path);
            }
        }
    }
}

/// With unique paths, the lines mapped for the path of an entry are that entry's lines.
proof fn lemma_entries_value(entries: Seq<(String, Vec<i64>)>, i: int)
    requires
        paths_unique(entries),
        0 <= i < entries.len(),
    ensures
        entries_map(entries).dom().contains(entries[i].0@),
        entries_map(entries)[entries[i].0@] == entries[i].1@,
    decreases entries.len(),
{
    let rest = entries.drop_last();
    if i < entries.len() - 1 {
        assert(rest[i] == entries[i]);
        assert(paths_unique(rest));
        lemma_entries_value(rest, i);
        assert(entries[i].0@ != entries[entries.len() - 1].0@);
    }
}

/// Breakpoint lines by source path. Each path has at most one entry.
#[derive(Debug)]
pub struct BreakpointTable {
    entries: Vec<(String, Vec<i64>)>,
}

impl View for BreakpointTable {
    type V = Map<Seq<char>, Seq<i64>>;

    closed spec fn view(&self) -> Map<Seq<char>, Seq<i64>> {
        entries_map(self.entries@)
    }
}

impl BreakpointTable {
    #[verifier::type_invariant]
    spec fn paths_are_unique(self) -> bool {
        paths_unique(self.entries@)
    }

    /// The table with no breakpoints.
    pub fn new() -> (table: BreakpointTable)
        ensures
            table@ == Map::<Seq<char>, Seq<i64>>::empty(),
    {
        BreakpointTable { entries: Vec::new() }
    }

    /// Where the entry for `path` stands, if there is one.
    fn position(&self, path: &str) -> (pos: Option<usize>)
        ensures
            match pos {
                Some(i) => i < self.entries@.len() && self.entries@[i as int].0@ == path@,
                None => forall|j: int|
                    0 <= j < self.entries@.len() ==> #[trigger] self.entries@[j].0@ != path@,
            },
    {
        let mut i: usize = 0;
        while i < self.entries.len()
            invariant
                i <= self.entries@.len(),
                forall|j: int| 0 <= j < i ==> #[trigger] self.entries@[j].0@ != path@,
            decreases self.entries@.len() - i,
        {
            if same_text(self.entries[i].0.as_str(), path) {
                return Some(i);
            }
            i = i + 1;
        }
        None
    }

    /// The lines set for `path`, if any.
    pub fn get(&self, path: &str) -> (lines: Option<&Vec<i64>>)
        ensures
            match lines {
                Some(l) => self@.contains_key(path@) && l@ == self@[path@],
                None => !self@.contains_key(path@),
            },
    {
        proof {
            use_type_invariant(self);
        }
        match self.position(path) {
            Some(i) => {
                proof {
                    lemma_entries_value(self.entries@, i as int);
                }
                Some(&self.entries[i].1)
            },
            None => {
                proof {
                    lemma_entries_dom(self.entries@, path@);
                }
                None
            },
        }
    }

    /// Sets the lines for `path`, replacing what was set for it before.
    pub fn insert(&mut self, path: String, lines: Vec<i64>)
        ensures
            final(self)@ == old(self)@.insert(path@, lines@),
    {
        proof {
            use_type_invariant(&*self);
        }
        let ghost old_entries = self.entries@;
        let pos = self.position(path.as_str());
        let mut entries: Vec<(String, Vec<i64>)> = Vec::new();
        std::mem::swap(&mut entries, &mut self.entries);
        let ghost key = path@;
        let ghost value = lines@;
        match pos {
            Some(i) => {
                entries.set(i, (path, lines));
                let ghost new_entries = entries@;
                assert(new_entries == old_entries.update(i as int, new_entries[i as int]));
                assert(paths_unique(new_entries)) by {
                    assert forall|a: int, b: int|
                        0 <= a < new_entries.len() && 0 <= b < new_entries.len() && a != b
                            implies #[trigger] new_entries[a].0@ != #[trigger] new_entries[b].0@ by {
                        if a != i && b != i {
                            assert(new_entries[a] == old_entries[a]);
                            assert(new_entries[b] == old_entries[b]);
                        } else if a == i {
                            assert(new_entries[b] == old_entries[b]);
                            assert(old_entries[b].0@ != old_entries[i as int].0@);
                        } else {
                            assert(new_entries[a] == old_entries[a]);
                            assert(old_entries[a].0@ != old_entries[i as int].0@);
                        }
                    }
                }
                proof {
                    let m_old = entries_map(old_entries);
                    let m_new = entries_map(new_entries);
                    assert forall|k: Seq<char>| #[trigger] m_new.dom().contains(k) <==> m_old.insert(
                        key,
                        value,
                    ).dom().contains(k) by {
                        lemma_entries_dom(new_entries, k);
                        lemma_entries_dom(old_entries, k);
                        if k == key {
                            assert(new_entries[i as int].0@ == k);
                            assert(old_entries[i as int].0@ == k);
                        }
                        if m_old.dom().contains(k) {
                            let j: int = choose|j: int| 0 <= j < old_entries.len() && #[trigger] old_entries[j].0@ == k;
                            if j != i {
                                assert(new_entries[j].0@ == k);
                            }
                        }
                        if m_new.dom().contains(k) {
                            let j: int = choose|j: int| 0 <= j < new_entries.len() && #[trigger] new_entries[j].0@ == k;
                            if j != i {
                                assert(old_entries[j].0@ == k);
                            }
                        }
                    }
                    assert forall|k: Seq<char>| #[trigger] m_new.dom().contains(k) implies m_new[k]
                        == m_old.insert(key, value)[k] by {
                        lemma_entries_dom(new_entries, k);
                        let j: int = choose|j: int| 0 <= j < new_entries.len() && #[trigger] new_entries[j].0@ == k;
                        lemma_entries_value(new_entries, j);
                        if j != i {
                            assert(new_entries[j] == old_entries[j]);
                            lemma_entries_value(old_entries, j);
                        }
                    }
                    assert(m_new =~= m_old.insert(key, value));
                }
            },
            None => {
                entries.push((path, lines));
                let ghost new_entries = entries@;
                assert(new_entries.drop_last() =~= old_entries);
                assert(paths_unique(new_entries)) by {
                    assert forall|a: int, b: int|
                        0 <= a < new_entries.len() && 0 <= b < new_entries.len() && a != b
                            implies #[trigger] new_entries[a].0@ != #[trigger] new_entries[b].0@ by {
                        if a < old_entries.len() && b < old_entries.len() {
                            assert(new_entries[a] == old_entries[a]);
                            assert(new_entries[b] == old_entries[b]);
                        } else if a < old_entries.len() {
                            assert(new_entries[a] == old_entries[a]);
                        } else {
                            assert(new_entries[b] == old_entries[b]);
                        }
                    }
                }
            },
        }
        self.entries = entries;
    }
}

} // verus!
