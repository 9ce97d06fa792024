//! A table keyed by task id: at most one value per task.
//!
//! The hosts keep two kinds of per-task state: the live speed of each active
//! task and the pending answer slot of each task that waits for a user
//! selection. Both are a map from task id to one value, held here as a list
//! of (task id, value) entries in which no task id occurs twice.
use vstd::prelude::*;

verus! {

/// The task ids of a list of entries, as character sequences.
pub open spec fn entry_ids<V>(entries: Seq<(String, V)>) -> Seq<Seq<char>> {
    entries.map_values(|e: (String, V)| e.0@)
}

/// A list of task ids, as character sequences.
pub open spec fn id_views(ids: Seq<String>) -> Seq<Seq<char>> {
    ids.map_values(|s: String| s@)
}

/// The set of task ids that a list of ids names.
pub open spec fn id_set(ids: Seq<String>) -> Set<Seq<char>> {
    id_views(ids).to_set()
}

/// The entry list of a table, with the map it lays out.
struct Entries<V> {
    entries: Vec<(String, V)>,
    contents: Ghost<Map<Seq<char>, V>>,
}

impl<V> View for Entries<V> {
    type V = Map<Seq<char>, V>;

    closed spec fn view(&self) -> Map<Seq<char>, V> {
        self.contents@
    }
}

/// Whether an entry list lays out `m` exactly: distinct task ids, the ids
/// are the keys of `m`, and each entry holds the value that `m` gives its id.
pub open spec fn lays_out<V>(entries: Seq<(String, V)>, m: Map<Seq<char>, V>) -> bool {
    &&& entry_ids(entries).no_duplicates()
    &&& m.dom() == entry_ids(entries).to_set()
    &&& forall|i: int| #![trigger entries[i]] 0 <= i < entries.len() ==> m[entries[i].0@] == entries[i].1
}

/// Whether `key` is one of the ids in `ids`.
fn id_listed(ids: &[String], key: &String) -> (listed: bool)
    ensures
        listed == id_set(ids@).contains(key@),
{
    let mut i: usize = 0;
    while i < ids.len()
        invariant
            i <= ids@.len(),
            forall|j: int| 0 <= j < i ==> ids@[j]@ != key@,
        decreases ids@.len() - i,
    {
        if ids[i] == *key {
            proof {
                assert(id_views(ids@)[i as int] == key@);
            }
            return true;
        }
        i += 1;
    }
    proof {
        if id_set(ids@).contains(key@) {
            let j = choose|j: int|
                0 <= j < ids@.len() && #[trigger] id_views(ids@)[j] == key@;
            assert(ids@[j]@ == key@);
        }
    }
    false
}

impl<V> Entries<V> {
    /// The entries lay out the contents.
    spec fn wf(&self) -> bool {
        lays_out(self.entries@, self.contents@)
    }

    proof fn lemma_len(&self)
        requires
            self.wf(),
        ensures
            self@.dom().finite(),
            self@.len() == self.entries@.len(),
    {
        entry_ids(self.entries@).unique_seq_to_set();
    }

    /// An empty table.
    fn new() -> (t: Self)
        ensures
            t.wf(),
            t@ == Map::<Seq<char>, V>::empty(),
    {
        let t = Entries { entries: Vec::new(), contents: Ghost(Map::empty()) };
        proof {
            assert(entry_ids(t.entries@).to_set() =~= Set::empty());
        }
        t
    }

    /// Number of tasks in the table.
    fn len(&self) -> (n: usize)
        requires
            self.wf(),
        ensures
            n == self@.len(),
    {
        proof {
            self.lemma_len();
        }
        self.entries.len()
    }

    /// Whether the table holds no task.
    fn is_empty(&self) -> (empty: bool)
        requires
            self.wf(),
        ensures
            empty == (self@.len() == 0),
    {
        proof {
            self.lemma_len();
        }
        self.entries.len() == 0
    }

    /// Position of the entry for `key`, if there is one.
    fn find(&self, key: &String) -> (pos: Option<usize>)
        requires
            self.wf(),
        ensures
            match pos {
                Some(i) => i < self.entries@.len() && self.entries@[i as int].0@ == key@,
                None => !self@.contains_key(key@),
            },
    {
        let mut i: usize = 0;
        while i < self.entries.len()
            invariant
                i <= self.entries@.len(),
                forall|j: int| 0 <= j < i ==> self.entries@[j].0@ != key@,
            decreases self.entries@.len() - i,
        {
            if self.entries[i].0 == *key {
                return Some(i);
            }
            i += 1;
        }
        proof {
            if self@.contains_key(key@) {
                assert(entry_ids(self.entries@).contains(key@));
                let j = choose|j: int|
                    0 <= j < self.entries@.len() && #[trigger] entry_ids(self.entries@)[j] == key@;
                assert(self.entries@[j].0@ == key@);
            }
        }
        None
    }

    proof fn lemma_found(&self, i: int)
        requires
            self.wf(),
            0 <= i < self.entries@.len(),
        ensures
            self@.contains_key(self.entries@[i].0@),
            self@[self.entries@[i].0@] == self.entries@[i].1,
    {
        assert(entry_ids(self.entries@)[i] == self.entries@[i].0@);
    }

    /// The value held for `task_id`, if any.
    fn get(&self, task_id: &str) -> (found: Option<&V>)
        requires
            self.wf(),
        ensures
            match found {
                Some(v) => self@.contains_key(task_id@) && *v == self@[task_id@],
                None => !self@.contains_key(task_id@),
            },
    {
        let key = task_id.to_owned();
        match self.find(&key) {
            Some(i) => {
                proof {
                    self.lemma_found(i as int);
                }
                Some(&self.entries[i].1)
            },
            None => None,
        }
    }

    /// Whether the table holds a value for `task_id`.
    fn contains_key(&self, task_id: &str) -> (held: bool)
        requires
            self.wf(),
        ensures
            held == self@.contains_key(task_id@),
    {
        let key = task_id.to_owned();
        match self.find(&key) {
            Some(i) => {
                proof {
                    self.lemma_found(i as int);
                }
                true
            },
            None => false,
        }
    }

    /// Sets the value for `task_id`, replacing any value held for it.
    fn insert(&mut self, task_id: String, value: V)
        requires
            old(self).wf(),
        ensures
            final(self).wf(),
            final(self)@ == old(self)@.insert(task_id@, value),
    {
        let ghost k = task_id@;
        let ghost v = value;
        let ghost old_entries = self.entries@;
        match self.find(&task_id) {
            Some(i) => {
                self.entries.set(i, (task_id, value));
                self.contents = Ghost(self.contents@.insert(k, v));
                proof {
                    assert(entry_ids(self.entries@) =~= entry_ids(old_entries));
                    assert forall|j: int| #![trigger self.entries@[j]]
                        0 <= j < self.entries@.len() implies self.contents@[self.entries@[j].0@]
                        == self.entries@[j].1 by {
                        if j != i {
                            assert(entry_ids(old_entries)[j] != entry_ids(old_entries)[i as int]);
                        }
                    }
                    assert(self.contents@.dom() =~= entry_ids(self.entries@).to_set()) by {
                        assert(entry_ids(old_entries)[i as int] == k);
                    }
                }
            },
            None => {
                self.entries.push((task_id, value));
                self.contents = Ghost(self.contents@.insert(k, v));
                proof {
                    let ids = entry_ids(self.entries@);
                    assert(ids =~= entry_ids(old_entries).push(k));
                    assert(!entry_ids(old_entries).contains(k));
                    assert(ids.no_duplicates()) by {
                        assert forall|a: int, b: int|
                            0 <= a < ids.len() && 0 <= b < ids.len() && a != b implies ids[a]
                            != ids[b] by {
                            if a == ids.len() - 1 {
                                assert(entry_ids(old_entries)[b] == ids[b]);
                            } else if b == ids.len() - 1 {
                                assert(entry_ids(old_entries)[a] == ids[a]);
                            }
                        }
                    }
                    assert(self.contents@.dom() =~= ids.to_set()) by {
                        assert forall|x: Seq<char>| ids.contains(x) implies self.contents@.dom().contains(x) by {
                            let a = choose|a: int| 0 <= a < ids.len() && ids[a] == x;
                            if a < ids.len() - 1 {
                                assert(entry_ids(old_entries)[a] == x);
                            }
                        }
                        assert forall|x: Seq<char>| self.contents@.dom().contains(x) implies ids.contains(x) by {
                            if x != k {
                                assert(entry_ids(old_entries).contains(x));
                                let a = choose|a: int|
                                    0 <= a < old_entries.len() && entry_ids(old_entries)[a] == x;
                                assert(ids[a] == x);
                            } else {
                                assert(ids[ids.len() - 1] == x);
                            }
                        }
                    }
                    assert forall|j: int| #![trigger self.entries@[j]]
                        0 <= j < self.entries@.len() implies self.contents@[self.entries@[j].0@]
                        == self.entries@[j].1 by {
                        if j < old_entries.len() {
                            assert(old_entries[j] == self.entries@[j]);
                            assert(entry_ids(old_entries)[j] == self.entries@[j].0@);
                        }
                    }
                }
            },
        }
    }

    /// Removes the value held for `task_id` and hands it back; `None`, with the
    /// table unchanged, when the table holds nothing for `task_id`.
    fn remove(&mut self, task_id: &str) -> (removed: Option<V>)
        requires
            old(self).wf(),
        ensures
            final(self).wf(),
            final(self)@ == old(self)@.remove(task_id@),
            match removed {
                Some(v) => old(self)@.contains_key(task_id@) && v == old(self)@[task_id@],
                None => !old(self)@.contains_key(task_id@),
            },
    {
        let key = task_id.to_owned();
        let ghost old_entries = self.entries@;
        match self.find(&key) {
            Some(i) => {
                proof {
                    self.lemma_found(i as int);
                }
                let (_, v) = self.entries.remove(i);
                self.contents = Ghost(self.contents@.remove(key@));
                proof {
                    let ids = entry_ids(self.entries@);
                    let old_ids = entry_ids(old_entries);
                    assert(ids =~= old_ids.remove(i as int));
                    assert(ids.no_duplicates()) by {
                        assert forall|a: int, b: int|
                            0 <= a < ids.len() && 0 <= b < ids.len() && a != b implies ids[a]
                            != ids[b] by {
                            let oa = if a < i { a } else { a + 1 };
                            let ob = if b < i { b } else { b + 1 };
                            assert(ids[a] == old_ids[oa]);
                            assert(ids[b] == old_ids[ob]);
                        }
                    }
                    assert(self.contents@.dom() =~= ids.to_set()) by {
                        assert forall|x: Seq<char>| ids.contains(x) implies self.contents@.dom().contains(x) by {
                            let a = choose|a: int| 0 <= a < ids.len() && ids[a] == x;
                            let oa = if a < i { a } else { a + 1 };
                            assert(old_ids[oa] == x);
                            assert(oa != i);
                            assert(old_ids[i as int] == key@);
                        }
                        assert forall|x: Seq<char>| self.contents@.dom().contains(x) implies ids.contains(x) by {
                            assert(old_ids.contains(x));
                            let oa = choose|oa: int| 0 <= oa < old_ids.len() && old_ids[oa] == x;
                            assert(oa != i);
                            let a = if oa < i { oa } else { oa - 1 };
                            assert(ids[a] == x);
                        }
                    }
                    assert forall|j: int| #![trigger self.entries@[j]]
                        0 <= j < self.entries@.len() implies self.contents@[self.entries@[j].0@]
                        == self.entries@[j].1 by {
                        let oj = if j < i { j } else { j + 1 };
                        assert(self.entries@[j] == old_entries[oj]);
                        assert(old_ids[oj] != old_ids[i as int]);
                        assert(old_ids[oj] == old_entries[oj].0@);
                    }
                }
                Some(v)
            },
            None => {
                proof {
                    assert(self.contents@ =~= self.contents@.remove(key@));
                }
                None
            },
        }
    }

    /// The entries of the table: one (task id, value) pair per task, in no
    /// particular order.
    fn entries(&self) -> (entries: &[(String, V)])
        requires
            self.wf(),
        ensures
            lays_out(entries@, self@),
    {
        self.entries.as_slice()
    }

    /// Keeps only the tasks whose id `task_ids` names; their values are kept
    /// as they were.
    fn retain_ids(&mut self, task_ids: &[String])
        requires
            old(self).wf(),
        ensures
            final(self).wf(),
            final(self)@ == old(self)@.restrict(id_set(task_ids@)),
    {
        let ghost keep = id_set(task_ids@);
        let ghost all = self.contents@;
        let mut rest: Vec<(String, V)> = Vec::new();
        std::mem::swap(&mut rest, &mut self.entries);
        self.contents = Ghost(Map::empty());
        let ghost orig = rest@;
        proof {
            assert(entry_ids(self.entries@).to_set() =~= Set::empty());
            assert(self.contents@ =~= all.restrict(keep).remove_keys(entry_ids(rest@).to_set()))
                by {
                assert(all.dom() == entry_ids(orig).to_set());
            }
        }
        while rest.len() > 0
            invariant
                lays_out(orig, all),
                rest@.len() <= orig.len(),
                rest@ == orig.subrange(0, rest@.len() as int),
                self.wf(),
                self.contents@ == all.restrict(keep).remove_keys(entry_ids(rest@).to_set()),
                keep == id_set(task_ids@),
            decreases rest@.len(),
        {
            let ghost before = rest@;
            let ghost n = rest@.len() - 1;
            let (id, value) = rest.pop().unwrap();
            let ghost k = id@;
            proof {
                assert(before[n] == orig[n]);
                assert(before[n] == (id, value));
                assert(entry_ids(orig)[n] == k);
                assert(all[k] == value);
                assert(rest@ =~= orig.subrange(0, n));
                assert(entry_ids(before) =~= entry_ids(rest@).push(k));
                assert(entry_ids(before)[n] == k);
                assert(all.dom().contains(k));
                assert(entry_ids(before).to_set() =~= entry_ids(rest@).to_set().insert(k)) by {
                    assert forall|x: Seq<char>| #[trigger] entry_ids(before).contains(x) implies
                        entry_ids(rest@).to_set().insert(k).contains(x) by {
                        let a = choose|a: int| 0 <= a < before.len() && entry_ids(before)[a] == x;
                        if a < n {
                            assert(entry_ids(rest@)[a] == x);
                        }
                    }
                    assert forall|x: Seq<char>| #[trigger] entry_ids(rest@).contains(x) implies
                        entry_ids(before).contains(x) by {
                        let a = choose|a: int| 0 <= a < rest@.len() && entry_ids(rest@)[a] == x;
                        assert(entry_ids(before)[a] == x);
                    }
                }
                assert(!entry_ids(rest@).contains(k)) by {
                    if entry_ids(rest@).contains(k) {
                        let a = choose|a: int|
                            0 <= a < rest@.len() && entry_ids(rest@)[a] == k;
                        assert(entry_ids(orig)[a] == k);
                    }
                }
            }
            let ghost prev = self.contents@;
            if id_listed(task_ids, &id) {
                proof {
                    assert(keep.contains(k));
                    assert(!prev.contains_key(k));
                }
                self.insert(id, value);
                proof {
                    assert(self.contents@ =~= all.restrict(keep).remove_keys(
                        entry_ids(rest@).to_set(),
                    ));
                }
            } else {
                proof {
                    assert(self.contents@ =~= all.restrict(keep).remove_keys(
                        entry_ids(rest@).to_set(),
                    ));
                }
            }
        }
        proof {
            assert(entry_ids(rest@).to_set() =~= Set::empty());
            assert(self.contents@ =~= all.restrict(keep));
        }
    }
}

/// A map from task id to one value per task.
pub struct TaskTable<V> {
    inner: Entries<V>,
}

impl<V> View for TaskTable<V> {
    type V = Map<Seq<char>, V>;

    closed spec fn view(&self) -> Map<Seq<char>, V> {
        self.inner@
    }
}

impl<V> TaskTable<V> {
    /// Every table's entries lay out its contents.
    #[verifier::type_invariant]
    spec fn inv(&self) -> bool {
        self.inner.wf()
    }

    /// Takes the entries out, leaving an empty table behind.
    fn take_entries(&mut self) -> (taken: Entries<V>)
        ensures
            taken.wf(),
            taken@ == old(self)@,
    {
        let mut taken = TaskTable { inner: Entries::new() };
        std::mem::swap(self, &mut taken);
        proof {
            use_type_invariant(&taken);
        }
        taken.inner
    }

    /// An empty table.
    pub fn new() -> (t: Self)
        ensures
            t@ == Map::<Seq<char>, V>::empty(),
    {
        TaskTable { inner: Entries::new() }
    }

    /// Number of tasks in the table.
    pub fn len(&self) -> (n: usize)
        ensures
            n == self@.len(),
    {
        proof {
            use_type_invariant(self);
        }
        self.inner.len()
    }

    /// Whether the table holds no task.
    pub fn is_empty(&self) -> (empty: bool)
        ensures
            empty == (self@.len() == 0),
    {
        proof {
            use_type_invariant(self);
        }
        self.inner.is_empty()
    }

    /// The value held for `task_id`, if any.
    pub fn get(&self, task_id: &str) -> (found: Option<&V>)
        ensures
            match found {
                Some(v) => self@.contains_key(task_id@) && *v == self@[task_id@],
                None => !self@.contains_key(task_id@),
            },
    {
        proof {
            use_type_invariant(self);
        }
        self.inner.get(task_id)
    }

    /// Whether the table holds a value for `task_id`.
    pub fn contains_key(&self, task_id: &str) -> (held: bool)
        ensures
            held == self@.contains_key(task_id@),
    {
        proof {
            use_type_invariant(self);
        }
        self.inner.contains_key(task_id)
    }

    /// Sets the value for `task_id`, replacing any value held for it.
    pub fn insert(&mut self, task_id: String, value: V)
        ensures
            final(self)@ == old(self)@.insert(task_id@, value),
    {
        let mut inner = self.take_entries();
        inner.insert(task_id, value);
        *self = TaskTable { inner };
    }

    /// Removes the value held for `task_id` and hands it back; `None`, with the
    /// table unchanged, when the table holds nothing for `task_id`.
    pub fn remove(&mut self, task_id: &str) -> (removed: Option<V>)
        ensures
            final(self)@ == old(self)@.remove(task_id@),
            match removed {
                Some(v) => old(self)@.contains_key(task_id@) && v == old(self)@[task_id@],
                None => !old(self)@.contains_key(task_id@),
            },
    {
        let mut inner = self.take_entries();
        let removed = inner.remove(task_id);
        *self = TaskTable { inner };
        removed
    }

    /// The entries of the table: one (task id, value) pair per task, in no
    /// particular order.
    pub fn entries(&self) -> (entries: &[(String, V)])
        ensures
            lays_out(entries@, self@),
    {
        proof {
            use_type_invariant(self);
        }
        self.inner.entries()
    }

    /// Keeps only the tasks whose id `task_ids` names; their values are kept
    /// as they were.
    pub fn retain_ids(&mut self, task_ids: &[String])
        ensures
            final(self)@ == old(self)@.restrict(id_set(task_ids@)),
    {
        let mut inner = self.take_entries();
        inner.retain_ids(task_ids);
        *self = TaskTable { inner };
    }
}

/// An entry list that lays out a map lists each of the map's tasks exactly
/// once, with the map's value for it, and nothing else.
pub proof fn law_entries_list_the_map<V>(entries: Seq<(String, V)>, m: Map<Seq<char>, V>)
    requires
        lays_out(entries, m),
    ensures
        forall|i: int|
            0 <= i < entries.len() ==> m.contains_key(#[trigger] entries[i].0@) && m[entries[i].0@]
                == entries[i].1,
        forall|k: Seq<char>|
            #[trigger] m.contains_key(k) ==> exists|i: int| 0 <= i < entries.len() && entries[i].0@ == k,
        forall|i: int, j: int|
            0 <= i < entries.len() && 0 <= j < entries.len() && i != j ==> entries[i].0@
                != entries[j].0@,
        m.dom().finite(),
        m.len() == entries.len(),
{
    let ids = entry_ids(entries);
    assert forall|i: int| 0 <= i < entries.len() implies m.contains_key(#[trigger] entries[i].0@)
        && m[entries[i].0@] == entries[i].1 by {
        assert(ids[i] == entries[i].0@);
        assert(entries[i] == entries[i]);
    }
    assert forall|k: Seq<char>| #[trigger] m.contains_key(k) implies exists|i: int|
        0 <= i < entries.len() && entries[i].0@ == k by {
        assert(ids.contains(k));
        let i = choose|i: int| 0 <= i < ids.len() && ids[i] == k;
        assert(entries[i].0@ == k);
    }
    assert forall|i: int, j: int|
        0 <= i < entries.len() && 0 <= j < entries.len() && i != j implies entries[i].0@
        != entries[j].0@ by {
        assert(ids[i] == entries[i].0@);
        assert(ids[j] == entries[j].0@);
    }
    ids.unique_seq_to_set();
}

} // verus!
