use vstd::prelude::*;

verus! {

// A record in the store is a sparse field map, and the store itself maps a
// user id to such a record. Both levels are kept as sequences of key/value
// entries with unique keys; their mathematical reading is the finite map
// `assoc_view` below, and every operation's contract is stated over it.

/// No two entries share a key (keys compare by their character sequences).
pub open spec fn unique_keys<T>(s: Seq<(String, T)>) -> bool {
    forall|i: int, j: int| 0 <= i < j < s.len() ==> s[i].0@ != s[j].0@
}

/// Some entry carries the key `k`.
pub open spec fn has_key<T>(s: Seq<(String, T)>, k: Seq<char>) -> bool {
    exists|i: int| 0 <= i < s.len() && #[trigger] s[i].0@ == k
}

/// The finite map that a sequence of entries denotes; a later entry wins
/// over an earlier one with the same key.
pub open spec fn assoc_view<T: View>(s: Seq<(String, T)>) -> Map<Seq<char>, T::V>
    decreases s.len(),
{
    if s.len() == 0 {
        Map::empty()
    } else {
        assoc_view(s.drop_last()).insert(s.last().0@, s.last().1@)
    }
}

/// The denoted map has the key `k` exactly when some entry carries it.
pub proof fn lemma_assoc_view_contains<T: View>(s: Seq<(String, T)>, k: Seq<char>)
    ensures
        assoc_view(s).dom().contains(k) <==> has_key(s, k),
    decreases s.len(),
{
    if s.len() > 0 {
        let t = s.drop_last();
        lemma_assoc_view_contains(t, k);
        assert(forall|i: int| 0 <= i < t.len() ==> t[i] == s[i]);
        if k == s.last().0@ {
            assert(s[s.len() - 1].0@ == k);
        } else {
            if has_key(s, k) {
                let i = choose|i: int| 0 <= i < s.len() && #[trigger] s[i].0@ == k;
                assert(i < s.len() - 1);
                assert(t[i].0@ == k);
            }
            if has_key(t, k) {
                let i = choose|i: int| 0 <= i < t.len() && #[trigger] t[i].0@ == k;
                assert(s[i].0@ == k);
            }
        }
    }
}

/// The denoted map has a key exactly when some entry carries it.
pub proof fn lemma_assoc_view_dom<T: View>(s: Seq<(String, T)>)
    ensures
        forall|k: Seq<char>| #[trigger] assoc_view(s).dom().contains(k) <==> has_key(s, k),
{
    assert forall|k: Seq<char>|
        #[trigger] assoc_view(s).dom().contains(k) <==> has_key(s, k) by {
        lemma_assoc_view_contains(s, k);
    }
}

/// With unique keys, the entry at position `i` gives the denoted value of
/// its key.
pub proof fn lemma_assoc_view_at<T: View>(s: Seq<(String, T)>, i: int)
    requires
        unique_keys(s),
        0 <= i < s.len(),
    ensures
        assoc_view(s).dom().contains(s[i].0@),
        assoc_view(s)[s[i].0@] == s[i].1@,
    decreases s.len(),
{
    if i < s.len() - 1 {
        let t = s.drop_last();
        assert(unique_keys(t));
        lemma_assoc_view_at(t, i);
        assert(s.last().0@ != s[i].0@);
    }
}

/// Appending an entry with a fresh key inserts it into the denoted map.
pub proof fn lemma_assoc_view_push<T: View>(s: Seq<(String, T)>, e: (String, T))
    requires
        unique_keys(s),
        !has_key(s, e.0@),
    ensures
        unique_keys(s.push(e)),
        assoc_view(s.push(e)) == assoc_view(s).insert(e.0@, e.1@),
{
    assert(s.push(e).drop_last() =~= s);
    assert(s.push(e).last() == e);
    assert forall|i: int, j: int| 0 <= i < j < s.push(e).len()
        implies s.push(e)[i].0@ != s.push(e)[j].0@ by {
        if j == s.len() {
            assert(s[i].0@ != e.0@);
        }
    }
}

/// With unique keys, removing the entry at `i` leaves no entry with its key.
pub proof fn lemma_remove_only_key<T>(s: Seq<(String, T)>, i: int)
    requires
        unique_keys(s),
        0 <= i < s.len(),
    ensures
        unique_keys(s.remove(i)),
        !has_key(s.remove(i), s[i].0@),
{
    let r = s.remove(i);
    assert forall|a: int, b: int| 0 <= a < b < r.len() implies r[a].0@ != r[b].0@ by {
        let sa: int = if a < i { a } else { a + 1 };
        let sb: int = if b < i { b } else { b + 1 };
        assert(r[a] == s[sa]);
        assert(r[b] == s[sb]);
    }
    assert forall|j: int| 0 <= j < r.len() implies r[j].0@ != s[i].0@ by {
        let sj: int = if j < i { j } else { j + 1 };
        assert(r[j] == s[sj]);
    }
}

/// Removing the entry at `i` removes its key from the denoted map.
pub proof fn lemma_assoc_view_remove<T: View>(s: Seq<(String, T)>, i: int)
    requires
        unique_keys(s),
        0 <= i < s.len(),
    ensures
        unique_keys(s.remove(i)),
        assoc_view(s.remove(i)) == assoc_view(s).remove(s[i].0@),
    decreases s.len(),
{
    lemma_remove_only_key(s, i);
    let k = s[i].0@;
    let r = s.remove(i);
    if i == s.len() - 1 {
        assert(r =~= s.drop_last());
        lemma_assoc_view_dom(r);
        assert(!assoc_view(r).dom().contains(k));
        assert(assoc_view(r) =~= assoc_view(s).remove(k));
    } else {
        let t = s.drop_last();
        assert(unique_keys(t));
        lemma_assoc_view_remove(t, i);
        assert(r.drop_last() =~= t.remove(i));
        assert(r.last() == s.last());
        assert(r.len() > 0);
        assert(s[i] == t[i]);
        assert(k != s.last().0@);
        assert(assoc_view(r) == assoc_view(t.remove(i)).insert(s.last().0@, s.last().1@));
        assert(assoc_view(r) =~= assoc_view(s).remove(k));
    }
}

/// A sparse field map: the shape of one user record, and of the username
/// index. Fields are written and deleted one at a time, as the backing
/// store's field-level operations are.
pub struct FieldMap {
    entries: Vec<(String, String)>,
}

impl View for FieldMap {
    type V = Map<Seq<char>, Seq<char>>;

    closed spec fn view(&self) -> Map<Seq<char>, Seq<char>> {
        assoc_view(self.entries@)
    }
}

impl FieldMap {
    /// Well-formed: no field name occurs twice.
    pub closed spec fn wf(&self) -> bool {
        unique_keys(self.entries@)
    }

    pub fn new() -> (r: FieldMap)
        ensures
            r.wf(),
            r@ == Map::<Seq<char>, Seq<char>>::empty(),
    {
        FieldMap { entries: Vec::new() }
    }

    fn find_index(&self, k: &String) -> (r: Option<usize>)
        ensures
            match r {
                Some(i) => i < self.entries@.len() && self.entries@[i as int].0@ == k@,
                None => !has_key(self.entries@, k@),
            },
    {
        let mut i: usize = 0;
        while i < self.entries.len()
            invariant
                i <= self.entries@.len(),
                forall|j: int| 0 <= j < i ==> #[trigger] self.entries@[j].0@ != k@,
            decreases self.entries@.len() - i,
        {
            if self.entries[i].0 == *k {
                return Some(i);
            }
            i = i + 1;
        }
        None
    }

    /// Whether the field `k` is present.
    pub fn contains(&self, k: &String) -> (r: bool)
        requires
            self.wf(),
        ensures
            r == self@.dom().contains(k@),
    {
        proof {
            lemma_assoc_view_dom(self.entries@);
        }
        match self.find_index(k) {
            Some(i) => {
                proof {
                    lemma_assoc_view_at(self.entries@, i as int);
                }
                true
            }
            None => false,
        }
    }

    /// The value of the field `k`, if present.
    pub fn get(&self, k: &String) -> (r: Option<&String>)
        requires
            self.wf(),
        ensures
            match r {
                Some(v) => self@.dom().contains(k@) && v@ == self@[k@],
                None => !self@.dom().contains(k@),
            },
    {
        match self.find_index(k) {
            Some(i) => {
                proof {
                    lemma_assoc_view_at(self.entries@, i as int);
                }
                Some(&self.entries[i].1)
            }
            None => {
                proof {
                    lemma_assoc_view_dom(self.entries@);
                }
                None
            }
        }
    }

    /// Write the field `k`, overwriting any previous value.
    pub fn set(&mut self, k: String, v: String)
        requires
            old(self).wf(),
        ensures
            final(self).wf(),
            final(self)@ == old(self)@.insert(k@, v@),
    {
        let ghost s0 = self.entries@;
        let ghost kk = k@;
        let ghost vv = v@;
        match self.find_index(&k) {
            Some(i) => {
                proof {
                    lemma_assoc_view_remove(s0, i as int);
                    lemma_remove_only_key(s0, i as int);
                }
                let _ = self.entries.remove(i);
                self.entries.push((k, v));
                proof {
                    lemma_assoc_view_push(s0.remove(i as int), (k, v));
                    assert(assoc_view(s0).remove(kk).insert(kk, vv) =~= assoc_view(s0).insert(
                        kk,
                        vv,
                    ));
                }
            }
            None => {
                self.entries.push((k, v));
                proof {
                    lemma_assoc_view_push(s0, (k, v));
                }
            }
        }
    }

    /// Delete the field `k`; deleting an absent field changes nothing.
    pub fn delete(&mut self, k: &String)
        requires
            old(self).wf(),
        ensures
            final(self).wf(),
            final(self)@ == old(self)@.remove(k@),
    {
        let ghost s0 = self.entries@;
        match self.find_index(k) {
            Some(i) => {
                proof {
                    lemma_assoc_view_remove(s0, i as int);
                }
                let _ = self.entries.remove(i);
            }
            None => {
                proof {
                    lemma_assoc_view_dom(s0);
                    assert(assoc_view(s0) =~= assoc_view(s0).remove(k@));
                }
            }
        }
    }

    /// The entries as plain pairs, for a caller that mirrors the record
    /// into an external backend.
    pub fn fields(&self) -> (r: &Vec<(String, String)>)
        requires
            self.wf(),
        ensures
            unique_keys(r@),
            assoc_view(r@) == self@,
    {
        &self.entries
    }
}

} // verus!
