//! Maps and sets keyed by strings, for the small tables of the program.
use crate::text::same_str;
use vstd::prelude::*;

verus! {

/// A map from strings to small values. Its keys are distinct.
#[derive(Debug)]
pub struct StrMap<V> {
    rows: Vec<(String, V)>,
}

pub open spec fn distinct_keys<V>(rows: Seq<(String, V)>) -> bool {
    forall|i: int, j: int| 0 <= i < j < rows.len() ==> #[trigger] rows[i].0@ != #[trigger] rows[j].0@
}

pub open spec fn map_of<V>(rows: Seq<(String, V)>) -> Map<Seq<char>, V>
    decreases rows.len(),
{
    if rows.len() == 0 {
        Map::empty()
    } else {
        map_of(rows.drop_last()).insert(rows.last().0@, rows.last().1)
    }
}

proof fn lemma_map_of<V>(rows: Seq<(String, V)>)
    requires
        distinct_keys(rows),
    ensures
        forall|i: int|
            0 <= i < rows.len() ==> map_of(rows).contains_key((#[trigger] rows[i]).0@) && map_of(
                rows,
            )[rows[i].0@] == rows[i].1,
        forall|k: Seq<char>|
            #[trigger] map_of(rows).contains_key(k) ==> exists|i: int|
                0 <= i < rows.len() && #[trigger] rows[i].0@ == k,
        map_of(rows).dom().finite(),
        map_of(rows).dom().len() == rows.len(),
    decreases rows.len(),
{
    if rows.len() > 0 {
        let t = rows.drop_last();
        assert(forall|i: int| 0 <= i < t.len() ==> t[i] == rows[i]);
        lemma_map_of(t);
        assert forall|k: Seq<char>| #[trigger] map_of(rows).contains_key(k) implies exists|i: int|
            0 <= i < rows.len() && #[trigger] rows[i].0@ == k by {
            if k == rows.last().0@ {
                assert(rows[rows.len() - 1].0@ == k);
            } else {
                assert(map_of(t).contains_key(k));
                let i = choose|i: int| 0 <= i < t.len() && #[trigger] t[i].0@ == k;
                assert(rows[i].0@ == k);
            }
        }
        assert(!map_of(t).contains_key(rows.last().0@)) by {
            if map_of(t).contains_key(rows.last().0@) {
                let i = choose|i: int|
                    0 <= i < t.len() && #[trigger] t[i].0@ == rows.last().0@;
                assert(rows[i].0@ != rows[rows.len() - 1].0@);
            }
        }
    }
}

impl<V: Copy> StrMap<V> {
    pub closed spec fn wf(&self) -> bool {
        distinct_keys(self.rows@)
    }

    pub closed spec fn view(&self) -> Map<Seq<char>, V> {
        map_of(self.rows@)
    }

    pub fn new() -> (r: Self)
        ensures
            r.wf(),
            r@ == Map::<Seq<char>, V>::empty(),
    {
        StrMap { rows: Vec::new() }
    }

    fn position(&self, key: &str) -> (r: Option<usize>)
        ensures
            match r {
                Some(i) => i < self.rows@.len() && self.rows@[i as int].0@ == key@,
                None => forall|i: int| 0 <= i < self.rows@.len() ==> #[trigger] self.rows@[i].0@
                    != key@,
            },
    {
        let mut i: usize = 0;
        while i < self.rows.len()
            invariant
                i <= self.rows@.len(),
                forall|j: int| 0 <= j < i ==> #[trigger] self.rows@[j].0@ != key@,
            decreases self.rows@.len() - i,
        {
            if same_str(self.rows[i].0.as_str(), key) {
                return Some(i);
            }
            i = i + 1;
        }
        None
    }

    pub fn get(&self, key: &str) -> (r: Option<V>)
        requires
            self.wf(),
        ensures
            r == (if self@.contains_key(key@) {
                Some(self@[key@])
            } else {
                None
            }),
    {
        proof {
            lemma_map_of(self.rows@);
        }
        match self.position(key) {
            Some(i) => Some(self.rows[i].1),
            None => None,
        }
    }

    pub fn contains(&self, key: &str) -> (r: bool)
        requires
            self.wf(),
        ensures
            r == self@.contains_key(key@),
    {
        self.get(key).is_some()
    }

    pub fn insert(&mut self, key: String, value: V)
        requires
            old(self).wf(),
        ensures
            final(self).wf(),
            final(self)@ == old(self)@.insert(key@, value),
    {
        let ghost before = self.rows@;
        proof {
            lemma_map_of(before);
        }
        match self.position(key.as_str()) {
            Some(i) => {
                self.rows.set(i, (key, value));
                proof {
                    let after = before.update(i as int, (key, value));
                    assert(self.rows@ == after);
                    assert forall|a: int, b: int| 0 <= a < b < after.len() implies #[trigger] after[a].0@
                        != #[trigger] after[b].0@ by {
                        assert(before[a].0@ != before[b].0@);
                    }
                    lemma_map_of(after);
                    let m = map_of(before).insert(key@, value);
                    assert forall|k: Seq<char>| m.contains_key(k) == map_of(after).contains_key(k)
                        by {
                        if map_of(after).contains_key(k) {
                            let j = choose|j: int| 0 <= j < after.len() && #[trigger] after[j].0@ == k;
                            assert(before[j].0@ == k || j == i);
                        }
                        if m.contains_key(k) && k != key@ {
                            let j = choose|j: int|
                                0 <= j < before.len() && #[trigger] before[j].0@ == k;
                            assert(after[j].0@ == k);
                        }
                        assert(after[i as int].0@ == key@);
                    }
                    assert forall|k: Seq<char>| m.contains_key(k) implies m[k] == map_of(after)[k] by {
                        assert(map_of(after).contains_key(k));
                        let j = choose|j: int| 0 <= j < after.len() && #[trigger] after[j].0@ == k;
                        if j != i {
                            assert(before[j].0@ == k);
                            assert(before[j].0@ != before[i as int].0@) by {
                                if j < i {
                                } else {
                                }
                            }
                        }
                    }
                    assert(map_of(after) =~= m);
                }
            },
            None => {
                self.rows.push((key, value));
                assert(self.rows@.drop_last() =~= before);
            },
        }
    }

    /// Inserts only where the key is absent.
    pub fn insert_if_absent(&mut self, key: String, value: V)
        requires
            old(self).wf(),
        ensures
            final(self).wf(),
            final(self)@ == (if old(self)@.contains_key(key@) {
                old(self)@
            } else {
                old(self)@.insert(key@, value)
            }),
    {
        if !self.contains(key.as_str()) {
            self.insert(key, value);
        }
    }

    pub fn clear(&mut self)
        ensures
            final(self).wf(),
            final(self)@ == Map::<Seq<char>, V>::empty(),
    {
        self.rows = Vec::new();
    }

    pub fn is_empty(&self) -> (r: bool)
        requires
            self.wf(),
        ensures
            r == (self@ == Map::<Seq<char>, V>::empty()),
    {
        proof {
            lemma_map_of(self.rows@);
            if self.rows@.len() > 0 {
                assert(self@.contains_key(self.rows@[0].0@));
            }
        }
        self.rows.len() == 0
    }

    /// The keys, each once, in the order in which they came.
    pub fn keys(&self) -> (r: Vec<String>)
        requires
            self.wf(),
        ensures
            self@.dom().finite(),
            r@.len() == self@.dom().len(),
            forall|i: int, j: int|
                0 <= i < j < r@.len() ==> #[trigger] r@[i]@ != #[trigger] r@[j]@,
            forall|k: Seq<char>|
                #[trigger] self@.contains_key(k) <==> exists|i: int|
                    0 <= i < r@.len() && #[trigger] r@[i]@ == k,
    {
        proof {
            lemma_map_of(self.rows@);
        }
        let mut out: Vec<String> = Vec::new();
        let mut i: usize = 0;
        while i < self.rows.len()
            invariant
                i <= self.rows@.len(),
                out@.len() == i,
                forall|j: int| 0 <= j < i ==> (#[trigger] out@[j])@ == self.rows@[j].0@,
            decreases self.rows@.len() - i,
        {
            out.push(self.rows[i].0.clone());
            i = i + 1;
        }
        assert forall|a: int, b: int| 0 <= a < b < out@.len() implies #[trigger] out@[a]@
            != #[trigger] out@[b]@ by {
            assert(self.rows@[a].0@ != self.rows@[b].0@);
        }
        assert forall|k: Seq<char>|
            #[trigger] self@.contains_key(k) <==> exists|i: int|
                0 <= i < out@.len() && #[trigger] out@[i]@ == k by {
            if self@.contains_key(k) {
                let j = choose|j: int| 0 <= j < self.rows@.len() && #[trigger] self.rows@[j].0@ == k;
                assert(out@[j]@ == k);
            }
            if exists|i: int| 0 <= i < out@.len() && #[trigger] out@[i]@ == k {
                let j = choose|j: int| 0 <= j < out@.len() && #[trigger] out@[j]@ == k;
                assert(self.rows@[j].0@ == k);
            }
        }
        out
    }

    /// A map with the same contents.
    pub fn duplicate(&self) -> (r: Self)
        requires
            self.wf(),
        ensures
            r.wf(),
            r@ == self@,
    {
        let mut out: Vec<(String, V)> = Vec::new();
        let mut i: usize = 0;
        while i < self.rows.len()
            invariant
                i <= self.rows@.len(),
                out@ == self.rows@.take(i as int),
            decreases self.rows@.len() - i,
        {
            out.push((self.rows[i].0.clone(), self.rows[i].1));
            assert(out@ =~= self.rows@.take(i + 1));
            i = i + 1;
        }
        assert(out@ =~= self.rows@);
        StrMap { rows: out }
    }
}

/// A set of strings.
#[derive(Debug)]
pub struct StrSet {
    items: Vec<String>,
}

pub open spec fn set_of(items: Seq<String>) -> Set<Seq<char>> {
    Set::new(|k: Seq<char>| exists|i: int| 0 <= i < items.len() && #[trigger] items[i]@ == k)
}

impl StrSet {
    pub closed spec fn view(&self) -> Set<Seq<char>> {
        set_of(self.items@)
    }

    /// No string is held twice.
    pub closed spec fn wf(&self) -> bool {
        forall|i: int, j: int|
            0 <= i < j < self.items@.len() ==> #[trigger] self.items@[i]@ != #[trigger] self.items@[j]@
    }

    pub fn new() -> (r: Self)
        ensures
            r.wf(),
            r@ == Set::<Seq<char>>::empty(),
    {
        let r = StrSet { items: Vec::new() };
        assert(r@ =~= Set::<Seq<char>>::empty());
        r
    }

    fn position(&self, key: &str) -> (r: Option<usize>)
        ensures
            match r {
                Some(i) => i < self.items@.len() && self.items@[i as int]@ == key@,
                None => !self@.contains(key@),
            },
            r is Some <==> self@.contains(key@),
    {
        let mut i: usize = 0;
        while i < self.items.len()
            invariant
                i <= self.items@.len(),
                forall|j: int| 0 <= j < i ==> #[trigger] self.items@[j]@ != key@,
            decreases self.items@.len() - i,
        {
            if same_str(self.items[i].as_str(), key) {
                return Some(i);
            }
            i = i + 1;
        }
        None
    }

    pub fn contains(&self, key: &str) -> (r: bool)
        ensures
            r == self@.contains(key@),
    {
        self.position(key).is_some()
    }

    pub fn insert(&mut self, key: String)
        requires
            old(self).wf(),
        ensures
            final(self).wf(),
            final(self)@ == old(self)@.insert(key@),
    {
        let ghost before = self.items@;
        if self.position(key.as_str()).is_none() {
            self.items.push(key);
            proof {
                let after = self.items@;
                assert forall|k: Seq<char>| set_of(after).contains(k) == set_of(before).insert(
                    key@,
                ).contains(k) by {
                    if set_of(before).contains(k) {
                        let j = choose|j: int| 0 <= j < before.len() && #[trigger] before[j]@ == k;
                        assert(after[j]@ == k);
                    }
                    if set_of(after).contains(k) {
                        let j = choose|j: int| 0 <= j < after.len() && #[trigger] after[j]@ == k;
                        assert(j < before.len() ==> before[j]@ == k);
                    }
                    assert(after[before.len() as int]@ == key@);
                }
            }
        }
        assert(self@ =~= old(self)@.insert(key@));
    }

    pub fn remove(&mut self, key: &str)
        requires
            old(self).wf(),
        ensures
            final(self).wf(),
            final(self)@ == old(self)@.remove(key@),
    {
        let ghost before = self.items@;
        match self.position(key) {
            Some(i) => {
                self.items.remove(i);
                proof {
                    let after = self.items@;
                    assert(after == before.remove(i as int));
                    assert forall|a: int, b: int| 0 <= a < b < after.len() implies #[trigger] after[a]@
                        != #[trigger] after[b]@ by {
                        let x = if a < i { a } else { a + 1 };
                        let y = if b < i { b } else { b + 1 };
                        assert(before[x]@ != before[y]@);
                    }
                    assert forall|k: Seq<char>| set_of(after).contains(k) == set_of(before).remove(
                        key@,
                    ).contains(k) by {
                        if set_of(before).contains(k) && k != key@ {
                            let j = choose|j: int| 0 <= j < before.len() && #[trigger] before[j]@ == k;
                            let x = if j < i { j } else { j - 1 };
                            assert(after[x]@ == k);
                        }
                        if set_of(after).contains(k) {
                            let j = choose|j: int| 0 <= j < after.len() && #[trigger] after[j]@ == k;
                            let x = if j < i { j } else { j + 1 };
                            assert(before[x]@ == k);
                            assert(x != i);
                            assert(before[x]@ != before[i as int]@) by {
                                if x < i {
                                } else {
                                }
                            }
                        }
                    }
                }
            },
            None => {},
        }
        assert(self@ =~= old(self)@.remove(key@));
    }

    pub fn clear(&mut self)
        ensures
            final(self).wf(),
            final(self)@ == Set::<Seq<char>>::empty(),
    {
        self.items = Vec::new();
        assert(self@ =~= Set::<Seq<char>>::empty());
    }

    /// A set with the same contents.
    pub fn duplicate(&self) -> (r: Self)
        requires
            self.wf(),
        ensures
            r.wf(),
            r@ == self@,
    {
        let items = self.items();
        let r = StrSet { items };
        assert(r@ =~= self@);
        r
    }

    /// The strings of the set, each once.
    pub fn items(&self) -> (r: Vec<String>)
        ensures
            set_of(r@) == self@,
            self.wf() ==> forall|i: int, j: int|
                0 <= i < j < r@.len() ==> #[trigger] r@[i]@ != #[trigger] r@[j]@,
    {
        let mut out: Vec<String> = Vec::new();
        let mut i: usize = 0;
        while i < self.items.len()
            invariant
                i <= self.items@.len(),
                out@ == self.items@.take(i as int),
            decreases self.items@.len() - i,
        {
            out.push(self.items[i].clone());
            assert(out@ =~= self.items@.take(i + 1));
            i = i + 1;
        }
        assert(out@ =~= self.items@);
        out
    }
}

} // verus!
