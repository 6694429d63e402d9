//! The result of a scan: the commit times of each repository, by name.

use vstd::prelude::*;

verus! {

/// The map that a list of named histories stands for: a later entry
/// replaces an earlier one of the same name.
pub open spec fn entries_map(entries: Seq<(String, Vec<i64>)>) -> Map<Seq<char>, Seq<i64>>
    decreases entries.len(),
{
    if entries.len() == 0 {
        Map::empty()
    } else {
        entries_map(entries.drop_last()).insert(entries.last().0@, entries.last().1@)
    }
}

/// No two entries have the same name.
pub open spec fn names_distinct(entries: Seq<(String, Vec<i64>)>) -> bool {
    forall|i: int, j: int|
        0 <= i < j < entries.len() ==> (#[trigger] entries[i]).0@ != (#[trigger] entries[j]).0@
}

/// Where the names are distinct, they are so without the last entry.
pub proof fn lemma_front_distinct(entries: Seq<(String, Vec<i64>)>)
    requires
        names_distinct(entries),
        entries.len() > 0,
    ensures
        names_distinct(entries.drop_last()),
{
    let front = entries.drop_last();
    assert forall|a: int, b: int| 0 <= a < b < front.len() implies (#[trigger] front[a]).0@ != (
    #[trigger] front[b]).0@ by {
        assert(front[a] == entries[a]);
        assert(front[b] == entries[b]);
    }
}

/// The names of the map are the names of the entries.
pub proof fn lemma_map_names(entries: Seq<(String, Vec<i64>)>, name: Seq<char>)
    ensures
        entries_map(entries).dom().contains(name) <==> exists|i: int|
            0 <= i < entries.len() && (#[trigger] entries[i]).0@ == name,
        entries_map(entries).dom().finite(),
    decreases entries.len(),
{
    if entries.len() > 0 {
        let front = entries.drop_last();
        lemma_map_names(front, name);
        if entries_map(entries).dom().contains(name) {
            if entries.last().0@ == name {
                assert(entries[entries.len() - 1].0@ == name);
            } else {
                let i = choose|i: int| 0 <= i < front.len() && (#[trigger] front[i]).0@ == name;
                assert(entries[i].0@ == name);
            }
        }
        if exists|i: int| 0 <= i < entries.len() && (#[trigger] entries[i]).0@ == name {
            let i = choose|i: int| 0 <= i < entries.len() && (#[trigger] entries[i]).0@ == name;
            if i < front.len() {
                assert(front[i].0@ == name);
            }
        }
    }
}

/// Where the names are distinct, each entry is what the map holds under
/// its name.
pub proof fn lemma_map_entry(entries: Seq<(String, Vec<i64>)>, i: int)
    requires
        names_distinct(entries),
        0 <= i < entries.len(),
    ensures
        entries_map(entries).dom().contains(entries[i].0@),
        entries_map(entries)[entries[i].0@] == entries[i].1@,
    decreases entries.len(),
{
    let front = entries.drop_last();
    if i < entries.len() - 1 {
        lemma_front_distinct(entries);
        lemma_map_entry(front, i);
        assert(front[i] == entries[i]);
        assert(entries[i].0@ != entries[entries.len() - 1].0@);
    }
}

/// Where the names are distinct, the map has as many names as there are
/// entries.
pub proof fn lemma_map_len(entries: Seq<(String, Vec<i64>)>)
    requires
        names_distinct(entries),
    ensures
        entries_map(entries).dom().finite(),
        entries_map(entries).len() == entries.len(),
    decreases entries.len(),
{
    if entries.len() > 0 {
        let front = entries.drop_last();
        lemma_front_distinct(entries);
        lemma_map_len(front);
        lemma_map_names(front, entries.last().0@);
        if entries_map(front).dom().contains(entries.last().0@) {
            let i = choose|i: int|
                0 <= i < front.len() && (#[trigger] front[i]).0@ == entries.last().0@;
            assert(front[i] == entries[i]);
            assert(entries[i].0@ != entries[entries.len() - 1].0@);
        }
    }
}

/// Replacing the history of an entry, under the same name, is inserting
/// the new history under that name.
pub proof fn lemma_map_replace(
    entries: Seq<(String, Vec<i64>)>,
    i: int,
    entry: (String, Vec<i64>),
)
    requires
        names_distinct(entries),
        0 <= i < entries.len(),
        entry.0@ == entries[i].0@,
    ensures
        names_distinct(entries.update(i, entry)),
        entries_map(entries.update(i, entry)) == entries_map(entries).insert(entry.0@, entry.1@),
    decreases entries.len(),
{
    let changed = entries.update(i, entry);
    assert(names_distinct(changed)) by {
        assert forall|a: int, b: int| 0 <= a < b < changed.len() implies (#[trigger] changed[a]).0@
            != (#[trigger] changed[b]).0@ by {
            assert(entries[a].0@ != entries[b].0@);
        }
    }
    let front = entries.drop_last();
    if i == entries.len() - 1 {
        assert(changed.drop_last() =~= front);
        assert(entries_map(changed) =~= entries_map(entries).insert(entry.0@, entry.1@));
    } else {
        lemma_front_distinct(entries);
        assert(front[i] == entries[i]);
        lemma_map_replace(front, i, entry);
        assert(changed.drop_last() =~= front.update(i, entry));
        assert(changed.last() == entries.last());
        assert(entries[i].0@ != entries[entries.len() - 1].0@);
        assert(entries_map(changed) =~= entries_map(entries).insert(entry.0@, entry.1@));
    }
}

/// The commit times of the repositories that a scan has read, by the name
/// of the repository. A name occurs once: a history that is inserted
/// under a name that is there already takes the place of the earlier one.
pub struct ScanResult {
    entries: Vec<(String, Vec<i64>)>,
}

impl View for ScanResult {
    type V = Map<Seq<char>, Seq<i64>>;

    closed spec fn view(&self) -> Map<Seq<char>, Seq<i64>> {
        entries_map(self.entries@)
    }
}

impl ScanResult {
    /// Each name occurs once among the entries.
    pub closed spec fn wf(&self) -> bool {
        names_distinct(self.entries@)
    }

    /// A result without any repository.
    pub fn new() -> (result: ScanResult)
        ensures
            result.wf(),
            result@ == Map::<Seq<char>, Seq<i64>>::empty(),
    {
        ScanResult { entries: Vec::new() }
    }

    /// Where in the entries `name` stands, if it does.
    fn position(&self, name: &String) -> (at: Option<usize>)
        ensures
            match at {
                Some(i) => i < self.entries@.len() && self.entries@[i as int].0@ == name@,
                None => forall|i: int|
                    0 <= i < self.entries@.len() ==> (#[trigger] self.entries@[i]).0@ != name@,
            },
    {
        let mut i: usize = 0;
        while i < self.entries.len()
            invariant
                i <= self.entries@.len(),
                forall|k: int| 0 <= k < i ==> (#[trigger] self.entries@[k]).0@ != name@,
            decreases self.entries@.len() - i,
        {
            if self.entries[i].0 == *name {
                return Some(i);
            }
            i = i + 1;
        }
        None
    }

    /// Puts the history of a repository under its name. A history that is
    /// there under that name already is replaced.
    pub fn insert(&mut self, name: String, times: Vec<i64>)
        requires
            old(self).wf(),
        ensures
            final(self).wf(),
            final(self)@ == old(self)@.insert(name@, times@),
    {
        match self.position(&name) {
            Some(i) => {
                proof {
                    lemma_map_replace(self.entries@, i as int, (name, times));
                }
                self.entries.set(i, (name, times));
            },
            None => {
                assert(self.entries@.push((name, times)).drop_last() =~= self.entries@);
                assert(names_distinct(self.entries@.push((name, times))));
                self.entries.push((name, times));
            },
        }
    }

    /// The history that stands under `name`, if one does.
    pub fn get(&self, name: &str) -> (times: Option<&Vec<i64>>)
        requires
            self.wf(),
        ensures
            times is Some <==> self@.dom().contains(name@),
            times matches Some(found) ==> found@ == self@[name@],
    {
        proof {
            lemma_map_names(self.entries@, name@);
        }
        match self.position(&name.to_owned()) {
            Some(i) => {
                proof {
                    lemma_map_entry(self.entries@, i as int);
                }
                Some(&self.entries[i].1)
            },
            None => None,
        }
    }

    /// Tells whether a history stands under `name`.
    pub fn contains(&self, name: &str) -> (found: bool)
        requires
            self.wf(),
        ensures
            found == self@.dom().contains(name@),
    {
        self.get(name).is_some()
    }

    /// The number of repositories in the result.
    pub fn len(&self) -> (count: usize)
        requires
            self.wf(),
        ensures
            self@.dom().finite(),
            count == self@.len(),
    {
        proof {
            lemma_map_len(self.entries@);
        }
        self.entries.len()
    }

    /// Tells whether the result holds no repository.
    pub fn is_empty(&self) -> (empty: bool)
        requires
            self.wf(),
        ensures
            empty == (self@ == Map::<Seq<char>, Seq<i64>>::empty()),
    {
        proof {
            lemma_map_len(self.entries@);
            if self.entries@.len() > 0 {
                lemma_map_entry(self.entries@, 0);
            }
        }
        self.entries.len() == 0
    }

    /// Hands out the names and histories, each name once, in the order in
    /// which the names were first inserted.
    pub fn into_entries(self) -> (entries: Vec<(String, Vec<i64>)>)
        requires
            self.wf(),
        ensures
            names_distinct(entries@),
            entries_map(entries@) == self@,
    {
        self.entries
    }
}

} // verus!
