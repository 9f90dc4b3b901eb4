use vstd::prelude::*;

verus! {

/// One registered option: a case-sensitive name and the number of votes
/// recorded for it so far.
pub struct OptionTally {
    /// The option's name, the unique key under which it is addressed.
    pub name: String,
    /// The votes recorded for this option.
    pub count: u64,
}

/// The tally entries of `s`, read as a map from option name to vote count.
/// A later entry shadows an earlier one with the same name; a well-formed
/// store never holds two entries with the same name.
pub open spec fn tally_map(s: Seq<OptionTally>) -> Map<Seq<char>, u64>
    decreases s.len(),
{
    if s.len() == 0 {
        Map::empty()
    } else {
        tally_map(s.drop_last()).insert(s.last().name@, s.last().count)
    }
}

/// No two entries of `s` carry the same name.
pub open spec fn distinct_names(s: Seq<OptionTally>) -> bool {
    forall|i: int, j: int| 0 <= i < j < s.len() ==> s[i].name@ != s[j].name@
}

/// A name is a key of the tally map exactly when some entry carries it.
pub proof fn lemma_tally_map_domain(s: Seq<OptionTally>, k: Seq<char>)
    ensures
        tally_map(s).contains_key(k) <==> exists|i: int| 0 <= i < s.len() && s[i].name@ == k,
    decreases s.len(),
{
    if s.len() == 0 {
    } else {
        lemma_tally_map_domain(s.drop_last(), k);
        assert(forall|i: int| 0 <= i < s.len() - 1 ==> s.drop_last()[i] == s[i]);
        if s.last().name@ == k {
            assert(s[s.len() - 1].name@ == k);
        } else {
            if exists|i: int| 0 <= i < s.len() && s[i].name@ == k {
                let i = choose|i: int| 0 <= i < s.len() && s[i].name@ == k;
                assert(s.drop_last()[i].name@ == k);
            }
        }
    }
}

/// With distinct names, the entry that carries a name gives the map's value
/// at that name.
pub proof fn lemma_tally_map_value(s: Seq<OptionTally>, i: int)
    requires
        distinct_names(s),
        0 <= i < s.len(),
    ensures
        tally_map(s).contains_key(s[i].name@),
        tally_map(s)[s[i].name@] == s[i].count,
    decreases s.len(),
{
    if i == s.len() - 1 {
    } else {
        assert(forall|x: int| 0 <= x < s.len() - 1 ==> s.drop_last()[x] == s[x]);
        lemma_tally_map_value(s.drop_last(), i);
        assert(s[i].name@ != s.last().name@);
    }
}

/// Replacing the entry at `i` by one with the same name updates the tally map
/// at that name only, and keeps the names distinct.
pub proof fn lemma_tally_map_update(s: Seq<OptionTally>, i: int, e: OptionTally)
    requires
        distinct_names(s),
        0 <= i < s.len(),
        e.name@ == s[i].name@,
    ensures
        distinct_names(s.update(i, e)),
        tally_map(s.update(i, e)) == tally_map(s).insert(e.name@, e.count),
    decreases s.len(),
{
    let t = s.update(i, e);
    assert(forall|x: int, y: int| 0 <= x < y < t.len() ==> t[x].name@ != t[y].name@);
    if i == s.len() - 1 {
        assert(t.drop_last() =~= s.drop_last());
        assert(t.last() == e);
        assert(tally_map(t) =~= tally_map(s).insert(e.name@, e.count));
    } else {
        assert(t.drop_last() =~= s.drop_last().update(i, e));
        assert(t.last() == s.last());
        assert(forall|x: int| 0 <= x < s.len() - 1 ==> s.drop_last()[x] == s[x]);
        lemma_tally_map_update(s.drop_last(), i, e);
        assert(s[i].name@ != s.last().name@);
        assert(tally_map(t) =~= tally_map(s).insert(e.name@, e.count));
    }
}

/// Appending an entry whose name is absent keeps the names distinct and adds
/// exactly one binding to the tally map.
pub proof fn lemma_tally_map_push(s: Seq<OptionTally>, e: OptionTally)
    requires
        distinct_names(s),
        !tally_map(s).contains_key(e.name@),
    ensures
        distinct_names(s.push(e)),
        tally_map(s.push(e)) == tally_map(s).insert(e.name@, e.count),
{
    lemma_tally_map_domain(s, e.name@);
    let t = s.push(e);
    assert(t.drop_last() =~= s);
    assert(t.last() == e);
    assert forall|x: int, y: int| 0 <= x < y < t.len() implies t[x].name@ != t[y].name@ by {
        if y < t.len() - 1 {
            assert(s[x].name@ != s[y].name@);
        } else {
            assert(t[x] == s[x]);
        }
    }
}

/// The tally store: the mapping from option name to vote count. It is
/// addressed through a stable seed reference recorded in the poll record;
/// nothing else mutates the tallies.
pub struct TallyStore {
    entries: Vec<OptionTally>,
}

impl View for TallyStore {
    type V = Map<Seq<char>, u64>;

    closed spec fn view(&self) -> Map<Seq<char>, u64> {
        tally_map(self.entries@)
    }
}

impl TallyStore {
    /// The store is well formed when no option name is registered twice.
    pub closed spec fn wf(&self) -> bool {
        distinct_names(self.entries@)
    }

    /// The number of registered options.
    pub closed spec fn spec_num_options(&self) -> nat {
        self.entries@.len()
    }

    /// Creates a store with no registered options.
    pub fn new() -> (s: TallyStore)
        ensures
            s.wf(),
            s@ == Map::<Seq<char>, u64>::empty(),
            s.spec_num_options() == 0,
    {
        TallyStore { entries: Vec::new() }
    }

    /// The number of registered options.
    pub fn num_options(&self) -> (n: usize)
        ensures
            n == self.spec_num_options(),
    {
        self.entries.len()
    }

    /// The index of the entry that carries `name`, if one does.
    fn find_index(&self, name: &String) -> (r: Option<usize>)
        ensures
            r matches Some(i) ==> i < self.entries@.len() && self.entries@[i as int].name@
                == name@,
            r is None ==> forall|i: int|
                0 <= i < self.entries@.len() ==> self.entries@[i].name@ != name@,
    {
        let mut idx: usize = 0;
        while idx < self.entries.len()
            invariant
                idx <= self.entries@.len(),
                forall|j: int| 0 <= j < idx ==> self.entries@[j].name@ != name@,
            decreases self.entries@.len() - idx,
        {
            if self.entries[idx].name.eq(name) {
                return Some(idx);
            }
            idx = idx + 1;
        }
        None
    }

    /// Whether `name` is a registered option.
    pub fn contains(&self, name: &String) -> (r: bool)
        ensures
            r == self@.contains_key(name@),
    {
        let found = self.find_index(name);
        proof {
            lemma_tally_map_domain(self.entries@, name@);
            match found {
                Some(i) => {
                    let ii = i as int;
                    assert(0 <= ii < self.entries@.len() && self.entries@[ii].name@ == name@);
                },
                None => {},
            }
        }
        found.is_some()
    }

    /// The count recorded for `name`, or `None` when `name` is not registered.
    pub fn count_of(&self, name: &String) -> (r: Option<u64>)
        requires
            self.wf(),
        ensures
            self@.contains_key(name@) ==> r == Some(self@[name@]),
            !self@.contains_key(name@) ==> r is None,
    {
        proof {
            lemma_tally_map_domain(self.entries@, name@);
        }
        match self.find_index(name) {
            Some(i) => {
                proof {
                    lemma_tally_map_value(self.entries@, i as int);
                }
                Some(self.entries[i].count)
            },
            None => None,
        }
    }

    /// Registers `name` at count zero when it is not yet present, and reports
    /// whether it did; a name already present leaves the store unchanged.
    pub fn register(&mut self, name: String) -> (registered: bool)
        requires
            old(self).wf(),
        ensures
            final(self).wf(),
            registered == !old(self)@.contains_key(name@),
            registered ==> final(self)@ == old(self)@.insert(name@, 0u64)
                && final(self).spec_num_options() == old(self).spec_num_options() + 1,
            !registered ==> final(self)@ == old(self)@ && final(self).spec_num_options()
                == old(self).spec_num_options(),
    {
        if self.contains(&name) {
            false
        } else {
            let ghost pre = self.entries@;
            self.entries.push(OptionTally { name, count: 0 });
            proof {
                lemma_tally_map_push(pre, self.entries@.last());
            }
            true
        }
    }

    /// Overwrites the count recorded for `name`, which must be registered.
    pub fn set_count(&mut self, name: &String, value: u64)
        requires
            old(self).wf(),
            old(self)@.contains_key(name@),
        ensures
            final(self).wf(),
            final(self)@ == old(self)@.insert(name@, value),
            final(self).spec_num_options() == old(self).spec_num_options(),
    {
        proof {
            lemma_tally_map_domain(self.entries@, name@);
        }
        let found = self.find_index(name);
        assert(found.is_some());
        let i = found.unwrap();
        let ghost pre = self.entries@;
        let entry = &mut self.entries[i];
        entry.count = value;
        proof {
            let e = pre[i as int];
            let updated = OptionTally { name: e.name, count: value };
            assert(self.entries@ == pre.update(i as int, updated));
            lemma_tally_map_update(pre, i as int, updated);
        }
    }
}

} // verus!
