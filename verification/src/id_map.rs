//! A small map keyed by text ids, in insertion order, with no id twice.

use vstd::prelude::*;

verus! {

/// Index of `key` among `ids`, or -1 where it is absent.
pub open spec fn index_of(ids: Seq<Seq<char>>, key: Seq<char>) -> int
    decreases ids.len(),
{
    if ids.len() == 0 {
        -1
    } else if ids.last() == key {
        ids.len() - 1
    } else {
        index_of(ids.drop_last(), key)
    }
}

/// No id occurs twice.
pub open spec fn distinct(ids: Seq<Seq<char>>) -> bool {
    forall|i: int, j: int| 0 <= i < j < ids.len() ==> ids[i] != ids[j]
}

pub proof fn lemma_index_of(ids: Seq<Seq<char>>, key: Seq<char>)
    ensures
        -1 <= index_of(ids, key) < ids.len(),
        index_of(ids, key) >= 0 ==> ids[index_of(ids, key)] == key,
        index_of(ids, key) < 0 <==> !ids.contains(key),
        forall|i: int| index_of(ids, key) < i < ids.len() ==> ids[i] != key,
    decreases ids.len(),
{
    if ids.len() > 0 {
        if ids.last() == key {
            assert(ids[ids.len() - 1] == key);
        } else {
            let pre = ids.drop_last();
            lemma_index_of(pre, key);
            let r = index_of(pre, key);
            assert forall|i: int| r < i < ids.len() implies ids[i] != key by {
                if i < ids.len() - 1 {
                    assert(pre[i] == ids[i]);
                }
            }
            if r >= 0 {
                assert(ids[r] == key);
            }
        }
    }
}

/// In a list without repeats, an id is found where it stands.
pub proof fn lemma_index_of_distinct(ids: Seq<Seq<char>>, i: int)
    requires
        distinct(ids),
        0 <= i < ids.len(),
    ensures
        index_of(ids, ids[i]) == i,
{
    lemma_index_of(ids, ids[i]);
}

/// Values under text ids. Entries keep the order in which their ids were
/// first inserted.
pub struct IdMap<T> {
    keys: Vec<String>,
    values: Vec<T>,
}

impl<T> IdMap<T> {
    /// The ids, in insertion order.
    pub closed spec fn ids(self) -> Seq<Seq<char>> {
        self.keys@.map_values(|k: String| k@)
    }

    /// The values, each at the position of its id.
    pub closed spec fn values(self) -> Seq<T> {
        self.values@
    }

    /// As many values as ids, and no id twice.
    pub open spec fn wf(self) -> bool {
        &&& self.ids().len() == self.values().len()
        &&& distinct(self.ids())
    }

    pub open spec fn spec_contains(self, key: Seq<char>) -> bool {
        self.ids().contains(key)
    }

    /// The value under `key`.
    pub open spec fn spec_get(self, key: Seq<char>) -> Option<T> {
        let i = index_of(self.ids(), key);
        if i >= 0 {
            Some(self.values()[i])
        } else {
            None
        }
    }

    pub fn new() -> (r: IdMap<T>)
        ensures
            r.wf(),
            r.ids() == Seq::<Seq<char>>::empty(),
            r.values() == Seq::<T>::empty(),
    {
        let r = IdMap { keys: Vec::new(), values: Vec::new() };
        assert(r.ids() =~= Seq::<Seq<char>>::empty());
        r
    }

    pub fn len(&self) -> (r: usize)
        requires
            self.wf(),
        ensures
            r == self.ids().len(),
    {
        self.values.len()
    }

    /// Where `key` stands, if it is there.
    pub fn position(&self, key: &String) -> (r: Option<usize>)
        requires
            self.wf(),
        ensures
            match r {
                Some(i) => i == index_of(self.ids(), key@),
                None => index_of(self.ids(), key@) < 0,
            },
    {
        let mut i: usize = 0;
        while i < self.keys.len()
            invariant
                self.wf(),
                i <= self.keys.len(),
                forall|j: int| 0 <= j < i ==> self.ids()[j] != key@,
            decreases self.keys.len() - i,
        {
            if self.keys[i] == *key {
                proof {
                    assert(self.ids()[i as int] == key@);
                    lemma_index_of_distinct(self.ids(), i as int);
                }
                return Some(i);
            }
            i = i + 1;
        }
        proof {
            lemma_index_of(self.ids(), key@);
        }
        None
    }

    pub fn contains_key(&self, key: &String) -> (r: bool)
        requires
            self.wf(),
        ensures
            r == self.spec_contains(key@),
    {
        proof {
            lemma_index_of(self.ids(), key@);
        }
        self.position(key).is_some()
    }

    pub fn get(&self, key: &String) -> (r: Option<&T>)
        requires
            self.wf(),
        ensures
            match r {
                Some(v) => self.spec_get(key@) == Some(*v),
                None => self.spec_get(key@) is None,
            },
    {
        proof {
            lemma_index_of(self.ids(), key@);
        }
        match self.position(key) {
            Some(i) => Some(&self.values[i]),
            None => None,
        }
    }

    /// The entry at a position.
    pub fn get_at(&self, i: usize) -> (r: (&String, &T))
        requires
            self.wf(),
            i < self.ids().len(),
        ensures
            r.0@ == self.ids()[i as int],
            *r.1 == self.values()[i as int],
    {
        (&self.keys[i], &self.values[i])
    }

    /// Puts `value` under `key` if the id is free; hands it back, the map
    /// untouched, if it is taken.
    pub fn insert_new(&mut self, key: String, value: T) -> (r: Result<(), T>)
        requires
            old(self).wf(),
        ensures
            final(self).wf(),
            forall|k: Seq<char>|
                final(self).ids().contains(k) <==> old(self).ids().contains(k) || k == key@,
            match r {
                Ok(()) => {
                    &&& !old(self).spec_contains(key@)
                    &&& final(self).ids() == old(self).ids().push(key@)
                    &&& final(self).values() == old(self).values().push(value)
                },
                Err(v) => {
                    &&& old(self).spec_contains(key@)
                    &&& v == value
                    &&& final(self).ids() == old(self).ids()
                    &&& final(self).values() == old(self).values()
                },
            },
    {
        proof {
            lemma_index_of(self.ids(), key@);
        }
        if self.position(&key).is_some() {
            return Err(value);
        }
        let ghost before = self.ids();
        self.keys.push(key);
        self.values.push(value);
        assert(self.ids() =~= before.push(key@));
        proof {
            let after = self.ids();
            assert forall|k: Seq<char>| after.contains(k) <==> before.contains(k) || k
                == key@ by {
                if before.contains(k) {
                    let i = choose|i: int| 0 <= i < before.len() && before[i] == k;
                    assert(after[i] == k);
                }
                assert(after[before.len() as int] == key@);
                if after.contains(k) {
                    let i = choose|i: int| 0 <= i < after.len() && after[i] == k;
                    if i < before.len() {
                        assert(before[i] == k);
                    }
                }
            }
        }
        Ok(())
    }

    /// Takes the entry under `key` out, the others keeping their order.
    pub fn remove(&mut self, key: &String) -> (r: Option<T>)
        requires
            old(self).wf(),
        ensures
            final(self).wf(),
            r == old(self).spec_get(key@),
            forall|k: Seq<char>|
                final(self).ids().contains(k) <==> old(self).ids().contains(k) && k != key@,
            match r {
                Some(_) => {
                    let i = index_of(old(self).ids(), key@);
                    &&& final(self).ids() == old(self).ids().remove(i)
                    &&& final(self).values() == old(self).values().remove(i)
                },
                None => {
                    &&& final(self).ids() == old(self).ids()
                    &&& final(self).values() == old(self).values()
                },
            },
    {
        proof {
            lemma_index_of(self.ids(), key@);
        }
        match self.position(key) {
            Some(i) => {
                let ghost before = self.ids();
                self.keys.remove(i);
                let v = self.values.remove(i);
                assert(self.ids() =~= before.remove(i as int));
                proof {
                    let after = self.ids();
                    assert forall|k: Seq<char>| after.contains(k) <==> before.contains(k) && k
                        != key@ by {
                        if before.contains(k) && k != key@ {
                            let j = choose|j: int| 0 <= j < before.len() && before[j] == k;
                            if j < i {
                                assert(after[j] == k);
                            } else {
                                assert(after[j - 1] == k);
                            }
                        }
                        if after.contains(k) {
                            let j = choose|j: int| 0 <= j < after.len() && after[j] == k;
                            if j < i {
                                assert(before[j] == k);
                            } else {
                                assert(before[j + 1] == k);
                            }
                        }
                    }
                    assert(distinct(after)) by {
                        assert forall|a: int, b: int| 0 <= a < b < after.len() implies after[a]
                            != after[b] by {
                            let a0 = if a < i { a } else { a + 1 };
                            let b0 = if b < i { b } else { b + 1 };
                            assert(after[a] == before[a0]);
                            assert(after[b] == before[b0]);
                        }
                    }
                }
                Some(v)
            },
            None => None,
        }
    }

    /// The ids, in insertion order.
    pub fn keys(&self) -> (r: Vec<String>)
        requires
            self.wf(),
        ensures
            ids_of(r@) == self.ids(),
    {
        let mut out: Vec<String> = Vec::new();
        let mut i: usize = 0;
        while i < self.keys.len()
            invariant
                i <= self.keys.len(),
                out@.map_values(|k: String| k@) == self.ids().subrange(0, i as int),
            decreases self.keys.len() - i,
        {
            let ghost before = out@.map_values(|k: String| k@);
            out.push(self.keys[i].clone());
            assert(out@.map_values(|k: String| k@) =~= before.push(self.keys@[i as int]@));
            assert(out@.map_values(|k: String| k@) =~= self.ids().subrange(0, i + 1));
            i = i + 1;
        }
        assert(self.ids().subrange(0, self.keys.len() as int) =~= self.ids());
        out
    }

    /// Empties the map and hands out what it held, in order.
    pub fn drain(&mut self) -> (r: Vec<T>)
        requires
            old(self).wf(),
        ensures
            final(self).wf(),
            final(self).ids().len() == 0,
            r@ == old(self).values(),
    {
        let mut out: Vec<T> = Vec::new();
        std::mem::swap(&mut out, &mut self.values);
        self.keys.clear();
        assert(self.ids() =~= Seq::<Seq<char>>::empty());
        out
    }
}

/// The ids that a list of strings spells.
pub open spec fn ids_of(v: Seq<String>) -> Seq<Seq<char>> {
    v.map_values(|k: String| k@)
}

/// Whether `key` is among `v`.
pub fn contains_id(v: &Vec<String>, key: &String) -> (r: bool)
    ensures
        r == ids_of(v@).contains(key@),
{
    let mut i: usize = 0;
    while i < v.len()
        invariant
            i <= v.len(),
            forall|j: int| 0 <= j < i ==> ids_of(v@)[j] != key@,
        decreases v.len() - i,
    {
        if v[i] == *key {
            assert(ids_of(v@)[i as int] == key@);
            return true;
        }
        i = i + 1;
    }
    false
}

/// The ids of `src` that are not in `excluded` and are in `allowed`, each
/// once, in the order in which `src` first names them.
pub open spec fn select(
    src: Seq<Seq<char>>,
    excluded: Seq<Seq<char>>,
    allowed: Seq<Seq<char>>,
) -> Seq<Seq<char>>
    decreases src.len(),
{
    if src.len() == 0 {
        Seq::empty()
    } else {
        let r = select(src.drop_last(), excluded, allowed);
        let k = src.last();
        if !excluded.contains(k) && allowed.contains(k) && !r.contains(k) {
            r.push(k)
        } else {
            r
        }
    }
}

/// What `select` holds: exactly the ids that qualify, none twice.
pub proof fn lemma_select(src: Seq<Seq<char>>, excluded: Seq<Seq<char>>, allowed: Seq<Seq<char>>)
    ensures
        distinct(select(src, excluded, allowed)),
        forall|k: Seq<char>| #[trigger]
            select(src, excluded, allowed).contains(k) <==> src.contains(k) && !excluded.contains(
                k,
            ) && allowed.contains(k),
    decreases src.len(),
{
    let out = select(src, excluded, allowed);
    if src.len() > 0 {
        let pre = src.drop_last();
        let r = select(pre, excluded, allowed);
        let last = src.last();
        lemma_select(pre, excluded, allowed);
        assert forall|k: Seq<char>| #[trigger]
            out.contains(k) <==> src.contains(k) && !excluded.contains(k) && allowed.contains(
                k,
            ) by {
            if src.contains(k) {
                let i = choose|i: int| 0 <= i < src.len() && src[i] == k;
                if i < src.len() - 1 {
                    assert(pre[i] == k);
                }
            }
            if pre.contains(k) {
                let i = choose|i: int| 0 <= i < pre.len() && pre[i] == k;
                assert(src[i] == k);
            }
            assert(src[src.len() - 1] == last);
            if r.contains(k) {
                let i = choose|i: int| 0 <= i < r.len() && r[i] == k;
                if out.len() > r.len() {
                    assert(out[i] == k);
                }
            }
            if out.contains(k) && out.len() > r.len() {
                let i = choose|i: int| 0 <= i < out.len() && out[i] == k;
                if i < r.len() {
                    assert(r[i] == k);
                }
            }
            if out.len() > r.len() {
                assert(out[out.len() - 1] == last);
            }
        }
        assert forall|i: int, j: int| 0 <= i < j < out.len() implies out[i] != out[j] by {
            if j == r.len() {
                assert(r[i] == out[i]);
            }
        }
    }
}

/// Computes `select`.
pub fn select_ids(src: &Vec<String>, excluded: &Vec<String>, allowed: &Vec<String>) -> (r: Vec<
    String,
>)
    ensures
        ids_of(r@) == select(ids_of(src@), ids_of(excluded@), ids_of(allowed@)),
{
    let mut out: Vec<String> = Vec::new();
    let mut i: usize = 0;
    assert(ids_of(src@).subrange(0, 0) =~= Seq::<Seq<char>>::empty());
    assert(ids_of(out@) =~= Seq::<Seq<char>>::empty());
    while i < src.len()
        invariant
            i <= src.len(),
            ids_of(out@) == select(
                ids_of(src@).subrange(0, i as int),
                ids_of(excluded@),
                ids_of(allowed@),
            ),
        decreases src.len() - i,
    {
        let ghost before = ids_of(out@);
        let ghost next = ids_of(src@).subrange(0, i + 1);
        assert(next.drop_last() =~= ids_of(src@).subrange(0, i as int));
        assert(next.last() == src@[i as int]@);
        if !contains_id(excluded, &src[i]) && contains_id(allowed, &src[i]) && !contains_id(
            &out,
            &src[i],
        ) {
            out.push(src[i].clone());
            assert(ids_of(out@) =~= before.push(src@[i as int]@));
        }
        i = i + 1;
    }
    assert(ids_of(src@).subrange(0, src.len() as int) =~= ids_of(src@));
    out
}

} // verus!
