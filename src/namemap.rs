use vstd::prelude::*;

verus! {

/// A value that can be copied with its view kept.
pub trait Duplicate: View + Sized {
    fn duplicate(&self) -> (r: Self)
        ensures
            r@ == self@,
    ;
}

/// A mapping from names to values, kept in the order in which names were first inserted.
/// Each name occurs once.
#[derive(Clone, Debug)]
pub struct NameMap<V> {
    names: Vec<String>,
    vals: Vec<V>,
}

impl<V: View> NameMap<V> {
    /// The names, in order.
    pub closed spec fn key_seq(&self) -> Seq<Seq<char>> {
        self.names@.map_values(|s: String| s@)
    }

    /// The views of the values, in the order of their names.
    pub closed spec fn value_seq(&self) -> Seq<V::V> {
        self.vals@.map_values(|v: V| v@)
    }

    pub closed spec fn wf(&self) -> bool {
        &&& self.names.len() == self.vals.len()
        &&& self.key_seq().no_duplicates()
    }

    pub proof fn lemma_wf_lens(&self)
        requires
            self.wf(),
        ensures
            self.key_seq().len() == self.value_seq().len(),
            self.key_seq().no_duplicates(),
    {
    }
}

/// The map given by a list of distinct keys and a list of values of the same length.
pub open spec fn zip_map<K, W>(ks: Seq<K>, vs: Seq<W>) -> Map<K, W> {
    Map::new(|k: K| ks.contains(k), |k: K| vs[ks.index_of(k)])
}

pub proof fn lemma_zip_map_at<K, W>(ks: Seq<K>, vs: Seq<W>, i: int)
    requires
        ks.no_duplicates(),
        0 <= i < ks.len(),
    ensures
        zip_map(ks, vs).contains_key(ks[i]),
        zip_map(ks, vs)[ks[i]] == vs[i],
{
    assert(ks.contains(ks[i]));
    let j = ks.index_of(ks[i]);
    assert(ks[j] == ks[i]);
}

impl<V: View> View for NameMap<V> {
    type V = Map<Seq<char>, V::V>;

    closed spec fn view(&self) -> Map<Seq<char>, V::V> {
        zip_map(self.key_seq(), self.value_seq())
    }
}

impl<V: View> NameMap<V> {
    pub proof fn lemma_view(&self)
        requires
            self.wf(),
        ensures
            self@ == zip_map(self.key_seq(), self.value_seq()),
            self@.dom() == self.key_seq().to_set(),
            self.key_seq().len() == self.value_seq().len(),
            self.key_seq().no_duplicates(),
            forall|i: int|
                0 <= i < self.key_seq().len() ==> #[trigger] self@[self.key_seq()[i]]
                    == self.value_seq()[i],
    {
        assert forall|i: int| 0 <= i < self.key_seq().len() implies #[trigger] self@[self.key_seq()[i]]
            == self.value_seq()[i] by {
            lemma_zip_map_at(self.key_seq(), self.value_seq(), i);
        }
        assert(self@.dom() =~= self.key_seq().to_set());
    }

    pub fn new() -> (r: Self)
        ensures
            r.wf(),
            r@ == Map::<Seq<char>, V::V>::empty(),
            r.key_seq() == Seq::<Seq<char>>::empty(),
    {
        let r = NameMap { names: Vec::new(), vals: Vec::new() };
        assert(r.key_seq() =~= Seq::<Seq<char>>::empty());
        assert(r@ =~= Map::<Seq<char>, V::V>::empty());
        r
    }

    pub fn len(&self) -> (r: usize)
        requires
            self.wf(),
        ensures
            r == self.key_seq().len(),
            r == self.value_seq().len(),
    {
        self.names.len()
    }

    /// The name at position `i`.
    pub fn name_at(&self, i: usize) -> (r: &String)
        requires
            self.wf(),
            i < self.key_seq().len(),
        ensures
            r@ == self.key_seq()[i as int],
    {
        &self.names[i]
    }

    /// The value at position `i`.
    pub fn value_at(&self, i: usize) -> (r: &V)
        requires
            self.wf(),
            i < self.key_seq().len(),
        ensures
            r@ == self.value_seq()[i as int],
    {
        &self.vals[i]
    }

    /// Position of `name`, if present.
    pub fn position(&self, name: &String) -> (r: Option<usize>)
        requires
            self.wf(),
        ensures
            r is None <==> !self@.contains_key(name@),
            r is Some ==> r->0 < self.key_seq().len() && self.key_seq()[r->0 as int] == name@,
    {
        proof {
            self.lemma_view();
        }
        let mut i: usize = 0;
        while i < self.names.len()
            invariant
                self.wf(),
                i <= self.names.len(),
                forall|j: int| 0 <= j < i ==> self.key_seq()[j] != name@,
            decreases self.names.len() - i,
        {
            if self.names[i] == *name {
                assert(self.key_seq().contains(self.key_seq()[i as int]));
                return Some(i);
            }
            i = i + 1;
        }
        proof {
            if self.key_seq().contains(name@) {
                let j = self.key_seq().index_of(name@);
                assert(self.key_seq()[j] == name@);
            }
        }
        None
    }

    /// The value stored under `name`.
    pub fn get(&self, name: &String) -> (r: Option<&V>)
        requires
            self.wf(),
        ensures
            r is Some <==> self@.contains_key(name@),
            r is Some ==> r->0@ == self@[name@],
    {
        proof {
            self.lemma_view();
        }
        match self.position(name) {
            Some(i) => Some(&self.vals[i]),
            None => None,
        }
    }

    /// Stores `v` under `name`, replacing the value held there; a new name goes last.
    pub fn insert(&mut self, name: String, v: V)
        requires
            old(self).wf(),
        ensures
            final(self).wf(),
            final(self)@ == old(self)@.insert(name@, v@),
            old(self)@.contains_key(name@) ==> final(self).key_seq() == old(self).key_seq(),
            !old(self)@.contains_key(name@) ==> final(self).key_seq() == old(self).key_seq().push(
                name@,
            ),
    {
        proof {
            self.lemma_view();
        }
        let ghost old_keys = self.key_seq();
        let ghost old_vals = self.value_seq();
        let ghost nv = v@;
        match self.position(&name) {
            Some(i) => {
                self.vals.set(i, v);
                proof {
                    assert(self.key_seq() =~= old_keys);
                    assert(self.value_seq() =~= old_vals.update(i as int, nv));
                    self.lemma_view();
                    assert forall|k: Seq<char>| #[trigger] self@.contains_key(k) implies self@[k]
                        == old(self)@.insert(name@, nv)[k] by {
                        let j = old_keys.index_of(k);
                        assert(old_keys[j] == k);
                    }
                    assert(self@ =~= old(self)@.insert(name@, nv));
                }
            },
            None => {
                self.names.push(name);
                self.vals.push(v);
                proof {
                    assert(self.key_seq() =~= old_keys.push(name@));
                    assert(self.value_seq() =~= old_vals.push(nv));
                    assert(self.key_seq().no_duplicates()) by {
                        assert forall|a: int, b: int|
                            0 <= a < self.key_seq().len() && 0 <= b < self.key_seq().len() && a
                                != b implies self.key_seq()[a] != self.key_seq()[b] by {
                            if a < old_keys.len() && b < old_keys.len() {
                            } else if a < old_keys.len() {
                                assert(old_keys.contains(old_keys[a]));
                            } else {
                                assert(old_keys.contains(old_keys[b]));
                            }
                        }
                    }
                    self.lemma_view();
                    assert forall|k: Seq<char>| #[trigger] self@.contains_key(k) implies self@[k]
                        == old(self)@.insert(name@, nv)[k] by {
                        let j = self.key_seq().index_of(k);
                        assert(self.key_seq()[j] == k);
                        if j < old_keys.len() {
                            assert(old_keys[j] == k);
                        }
                    }
                    assert forall|k: Seq<char>|
                        self@.dom().contains(k) <==> #[trigger] old(self)@.insert(
                            name@,
                            nv,
                        ).dom().contains(k) by {
                        if self.key_seq().contains(k) {
                            let j = self.key_seq().index_of(k);
                            if j < old_keys.len() {
                                assert(old_keys[j] == k);
                            }
                        }
                        if old_keys.contains(k) {
                            let j = old_keys.index_of(k);
                            assert(self.key_seq()[j] == k);
                        }
                        if k == name@ {
                            assert(self.key_seq()[old_keys.len() as int] == k);
                        }
                    }
                    assert(self@.dom() =~= old(self)@.insert(name@, nv).dom());
                    assert(self@ =~= old(self)@.insert(name@, nv));
                }
            },
        }
    }
}

/// The map that inserting `entries` in order into an empty map gives: a later
/// entry replaces an earlier one of the same name.
pub open spec fn entries_map<V: View>(entries: Seq<(String, V)>) -> Map<Seq<char>, V::V>
    decreases entries.len(),
{
    if entries.len() == 0 {
        Map::empty()
    } else {
        entries_map(entries.drop_last()).insert(entries.last().0@, entries.last().1@)
    }
}

impl<V: Duplicate> NameMap<V> {
    /// Builds a map from name / value pairs; of two pairs with one name the later wins.
    pub fn from_entries(entries: &Vec<(String, V)>) -> (r: Self)
        ensures
            r.wf(),
            r@ == entries_map(entries@),
    {
        let mut m: NameMap<V> = NameMap::new();
        let mut i: usize = 0;
        while i < entries.len()
            invariant
                i <= entries.len(),
                m.wf(),
                m@ == entries_map(entries@.take(i as int)),
            decreases entries.len() - i,
        {
            let e = &entries[i];
            m.insert(e.0.clone(), e.1.duplicate());
            assert(entries@.take(i + 1).drop_last() =~= entries@.take(i as int));
            i = i + 1;
        }
        assert(entries@.take(entries.len() as int) =~= entries@);
        m
    }

    /// A copy with the same names in the same order.
    pub fn duplicate_map(&self) -> (r: Self)
        requires
            self.wf(),
        ensures
            r.wf(),
            r@ == self@,
            r.key_seq() == self.key_seq(),
            r.value_seq() == self.value_seq(),
    {
        let mut names: Vec<String> = Vec::new();
        let mut vals: Vec<V> = Vec::new();
        let mut i: usize = 0;
        while i < self.names.len()
            invariant
                self.wf(),
                i <= self.names.len(),
                names@ == self.names@.take(i as int),
                vals.len() == i,
                forall|j: int| 0 <= j < i ==> (#[trigger] vals@[j])@ == self.vals@[j]@,
            decreases self.names.len() - i,
        {
            names.push(self.names[i].clone());
            vals.push(self.vals[i].duplicate());
            assert(names@ =~= self.names@.take(i + 1));
            i = i + 1;
        }
        assert(self.names@.take(self.names.len() as int) =~= self.names@);
        let r = NameMap { names, vals };
        assert(r.key_seq() =~= self.key_seq());
        assert(r.value_seq() =~= self.value_seq());
        r
    }
}

} // verus!
