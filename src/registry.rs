use vstd::prelude::*;

verus! {

/// The map that a sequence of (identity, handle) entries stands for; a later
/// entry for the same identity hides an earlier one.
pub open spec fn map_of<H>(s: Seq<(String, H)>) -> Map<Seq<char>, H>
    decreases s.len(),
{
    if s.len() == 0 {
        Map::empty()
    } else {
        map_of(s.drop_last()).insert(s.last().0@, s.last().1)
    }
}

/// No identity occurs twice among the entries.
pub open spec fn keys_unique<H>(s: Seq<(String, H)>) -> bool {
    forall|i: int, j: int| 0 <= i < j < s.len() ==> s[i].0@ != s[j].0@
}

proof fn lemma_map_of_contains<H>(s: Seq<(String, H)>, k: Seq<char>)
    ensures
        map_of(s).contains_key(k) <==> exists|j: int| 0 <= j < s.len() && s[j].0@ == k,
    decreases s.len(),
{
    if s.len() > 0 {
        lemma_map_of_contains(s.drop_last(), k);
        if exists|j: int| 0 <= j < s.len() && s[j].0@ == k {
            let j = choose|j: int| 0 <= j < s.len() && s[j].0@ == k;
            if j < s.len() - 1 {
                assert(s.drop_last()[j].0@ == k);
            }
        }
        if exists|j: int| 0 <= j < s.drop_last().len() && s.drop_last()[j].0@ == k {
            let j = choose|j: int| 0 <= j < s.drop_last().len() && s.drop_last()[j].0@ == k;
            assert(s[j].0@ == k);
        }
    }
}

proof fn lemma_map_of_at<H>(s: Seq<(String, H)>, i: int)
    requires
        keys_unique(s),
        0 <= i < s.len(),
    ensures
        map_of(s).contains_key(s[i].0@),
        map_of(s)[s[i].0@] == s[i].1,
    decreases s.len(),
{
    lemma_map_of_contains(s, s[i].0@);
    if i < s.len() - 1 {
        let t = s.drop_last();
        assert(t[i] == s[i]);
        lemma_map_of_at(t, i);
    }
}

proof fn lemma_map_of_remove<H>(s: Seq<(String, H)>, i: int)
    requires
        keys_unique(s),
        0 <= i < s.len(),
    ensures
        keys_unique(s.remove(i)),
        map_of(s.remove(i)) =~= map_of(s).remove(s[i].0@),
    decreases s.len(),
{
    let k = s[i].0@;
    let r = s.remove(i);
    assert(keys_unique(r)) by {
        assert forall|a: int, b: int| 0 <= a < b < r.len() implies r[a].0@ != r[b].0@ by {
            let a2 = if a < i { a } else { a + 1 };
            let b2 = if b < i { b } else { b + 1 };
            assert(r[a] == s[a2]);
            assert(r[b] == s[b2]);
        }
    }
    let t = s.drop_last();
    if i == s.len() - 1 {
        assert(r =~= t);
        lemma_map_of_contains(t, k);
        assert(!map_of(t).contains_key(k)) by {
            if map_of(t).contains_key(k) {
                let j = choose|j: int| 0 <= j < t.len() && t[j].0@ == k;
                assert(s[j].0@ == k);
            }
        }
        assert(map_of(s) == map_of(t).insert(k, s[i].1));
    } else {
        assert(r.drop_last() =~= t.remove(i));
        assert(r.last() == s.last());
        lemma_map_of_remove(t, i);
        assert(t[i] == s[i]);
        assert(s.last().0@ != k);
        assert(map_of(r) == map_of(r.drop_last()).insert(r.last().0@, r.last().1));
    }
}

proof fn lemma_map_of_push<H>(s: Seq<(String, H)>, e: (String, H))
    requires
        keys_unique(s),
        !map_of(s).contains_key(e.0@),
    ensures
        keys_unique(s.push(e)),
        map_of(s.push(e)) == map_of(s).insert(e.0@, e.1),
{
    lemma_map_of_contains(s, e.0@);
    assert(s.push(e).drop_last() =~= s);
    let p = s.push(e);
    assert forall|a: int, b: int| 0 <= a < b < p.len() implies p[a].0@ != p[b].0@ by {
        if b == s.len() {
            assert(p[a] == s[a]);
        } else {
            assert(p[a] == s[a]);
            assert(p[b] == s[b]);
        }
    }
}

proof fn lemma_map_of_len<H>(s: Seq<(String, H)>)
    requires
        keys_unique(s),
    ensures
        map_of(s).dom().finite(),
        map_of(s).len() == s.len(),
    decreases s.len(),
{
    if s.len() > 0 {
        let t = s.drop_last();
        assert(keys_unique(t)) by {
            assert forall|a: int, b: int| 0 <= a < b < t.len() implies t[a].0@ != t[b].0@ by {
                assert(t[a] == s[a]);
                assert(t[b] == s[b]);
            }
        }
        lemma_map_of_len(t);
        lemma_map_of_contains(t, s.last().0@);
        assert(!map_of(t).contains_key(s.last().0@)) by {
            if map_of(t).contains_key(s.last().0@) {
                let j = choose|j: int| 0 <= j < t.len() && t[j].0@ == s.last().0@;
                assert(s[j].0@ == s.last().0@);
            }
        }
    }
}

/// Mapping from client identity to the open connection handle of that client.
/// At most one handle is held per identity.
pub struct Registry<H> {
    entries: Vec<(String, H)>,
}

impl<H> View for Registry<H> {
    type V = Map<Seq<char>, H>;

    closed spec fn view(&self) -> Map<Seq<char>, H> {
        map_of(self.entries@)
    }
}

impl<H> Registry<H> {
    /// The entries hold each identity at most once.
    pub closed spec fn wf(&self) -> bool {
        keys_unique(self.entries@)
    }

    /// An empty registry.
    pub fn new() -> (r: Self)
        ensures
            r.wf(),
            r@ == Map::<Seq<char>, H>::empty(),
    {
        Registry { entries: Vec::new() }
    }

    /// Number of active links.
    pub fn len(&self) -> (r: usize)
        requires
            self.wf(),
        ensures
            r == self@.len(),
    {
        proof {
            lemma_map_of_len(self.entries@);
        }
        self.entries.len()
    }

    fn index_of(&self, identity: &String) -> (r: Option<usize>)
        requires
            self.wf(),
        ensures
            match r {
                Some(i) => i < self.entries@.len() && self.entries@[i as int].0@ == identity@,
                None => !self@.contains_key(identity@),
            },
    {
        let mut i: usize = 0;
        while i < self.entries.len()
            invariant
                i <= self.entries@.len(),
                forall|j: int| 0 <= j < i ==> self.entries@[j].0@ != identity@,
            decreases self.entries@.len() - i,
        {
            if self.entries[i].0 == *identity {
                return Some(i);
            }
            i = i + 1;
        }
        proof {
            lemma_map_of_contains(self.entries@, identity@);
        }
        None
    }

    /// The handle held for `identity`, if a link is active for it.
    pub fn lookup(&self, identity: &String) -> (r: Option<&H>)
        requires
            self.wf(),
        ensures
            match r {
                Some(h) => self@.contains_key(identity@) && *h == self@[identity@],
                None => !self@.contains_key(identity@),
            },
    {
        match self.index_of(identity) {
            Some(i) => {
                proof {
                    lemma_map_of_at(self.entries@, i as int);
                }
                Some(&self.entries[i].1)
            },
            None => None,
        }
    }

    /// Inserts or replaces the handle for `identity`. The handle it replaces,
    /// if any, is handed back so that the caller releases it.
    pub fn register(&mut self, identity: String, handle: H) -> (r: Option<H>)
        requires
            old(self).wf(),
        ensures
            final(self).wf(),
            final(self)@ == old(self)@.insert(identity@, handle),
            match r {
                Some(h) => old(self)@.contains_key(identity@) && h == old(self)@[identity@],
                None => !old(self)@.contains_key(identity@),
            },
    {
        let ghost k = identity@;
        let replaced = self.unregister(&identity);
        let ghost mid = self.entries@;
        proof {
            lemma_map_of_push(mid, (identity, handle));
        }
        self.entries.push((identity, handle));
        proof {
            assert(self.entries@ == mid.push((identity, handle)));
            assert(self@ =~= old(self)@.insert(k, handle));
        }
        replaced
    }

    /// Removes the handle for `identity` and hands it back; nothing happens
    /// when no link is active for it.
    pub fn unregister(&mut self, identity: &String) -> (r: Option<H>)
        requires
            old(self).wf(),
        ensures
            final(self).wf(),
            final(self)@ == old(self)@.remove(identity@),
            match r {
                Some(h) => old(self)@.contains_key(identity@) && h == old(self)@[identity@],
                None => !old(self)@.contains_key(identity@),
            },
    {
        match self.index_of(identity) {
            Some(i) => {
                proof {
                    lemma_map_of_at(self.entries@, i as int);
                    lemma_map_of_remove(self.entries@, i as int);
                }
                let (_, h) = self.entries.remove(i);
                Some(h)
            },
            None => {
                assert(self@ =~= old(self)@.remove(identity@));
                None
            },
        }
    }

    /// Releases every handle and empties the registry.
    pub fn clear(&mut self)
        requires
            old(self).wf(),
        ensures
            final(self).wf(),
            final(self)@ == Map::<Seq<char>, H>::empty(),
    {
        self.entries = Vec::new();
    }
}

} // verus!
